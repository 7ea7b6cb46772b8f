use vstd::prelude::*;
use crate::error::FetchError;
use crate::store::Store;

verus! {

/// The FAQ text.
pub struct Faq {
    pub text: String,
}

impl Faq {
    pub fn new(text: String) -> (r: Faq)
        ensures
            r == (Faq { text }),
    {
        Faq { text }
    }

    pub fn text(&self) -> (r: &str)
        ensures
            r@ == self.text@,
    {
        self.text.as_str()
    }
}

/// The text-content repository for the FAQ page.
pub struct FaqRepo {
    store: Store<String>,
}

impl FaqRepo {
    /// The current snapshot's text.
    pub closed spec fn text_now(&self) -> Seq<char> {
        self.store@@
    }

    pub closed spec fn wf(&self) -> bool {
        self.store.wf()
    }

    pub fn new() -> (r: FaqRepo)
        ensures
            r.wf(),
            r.text_now() == Seq::<char>::empty(),
    {
        FaqRepo { store: Store::new(String::new()) }
    }

    /// One full refresh cycle over already-fetched text; as
    /// `AboutRepo::reload`.
    pub fn reload(&mut self, fetched: Result<String, FetchError>) -> (r: Result<(), FetchError>)
        requires
            old(self).wf(),
        ensures
            final(self).wf(),
            match fetched {
                Ok(text) => r is Ok && final(self).text_now() == text@,
                Err(e) => r == Err::<(), FetchError>(e) && final(self).text_now() == old(
                    self,
                ).text_now(),
            },
    {
        match fetched {
            Err(e) => Err(e),
            Ok(text) => {
                self.store.replace(text);
                Ok(())
            },
        }
    }

    pub fn get_faq(&self) -> (r: Faq)
        requires
            self.wf(),
        ensures
            r.text@ == self.text_now(),
    {
        Faq { text: self.store.read().clone() }
    }
}

} // verus!
