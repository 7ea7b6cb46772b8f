use vstd::prelude::*;
use crate::error::FetchError;
use crate::store::Store;

verus! {

/// The about-page text.
pub struct About {
    pub text: String,
}

impl About {
    pub fn new(text: String) -> (r: About)
        ensures
            r == (About { text }),
    {
        About { text }
    }

    pub fn text(&self) -> (r: &str)
        ensures
            r@ == self.text@,
    {
        self.text.as_str()
    }
}

/// The text-content repository for the about page.
pub struct AboutRepo {
    store: Store<String>,
}

impl AboutRepo {
    /// The current snapshot's text.
    pub closed spec fn text_now(&self) -> Seq<char> {
        self.store@@
    }

    pub closed spec fn wf(&self) -> bool {
        self.store.wf()
    }

    pub fn new() -> (r: AboutRepo)
        ensures
            r.wf(),
            r.text_now() == Seq::<char>::empty(),
    {
        AboutRepo { store: Store::new(String::new()) }
    }

    /// One full refresh cycle over already-fetched text: a fetch failure
    /// leaves the current text untouched and is returned; fetched text
    /// replaces it wholesale.
    pub fn reload(&mut self, fetched: Result<String, FetchError>) -> (r: Result<(), FetchError>)
        requires
            old(self).wf(),
        ensures
            final(self).wf(),
            match fetched {
                Ok(text) => r is Ok && final(self).text_now() == text@,
                Err(e) => r == Err::<(), FetchError>(e) && final(self).text_now() == old(
                    self,
                ).text_now(),
            },
    {
        match fetched {
            Err(e) => Err(e),
            Ok(text) => {
                self.store.replace(text);
                Ok(())
            },
        }
    }

    pub fn get_about(&self) -> (r: About)
        requires
            self.wf(),
        ensures
            r.text@ == self.text_now(),
    {
        About { text: self.store.read().clone() }
    }
}

} // verus!
