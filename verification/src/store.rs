use vstd::prelude::*;

verus! {

/// A snapshot store: holds one domain's current snapshot and allows read
/// access and whole-snapshot replacement. Replacement is the only mutation;
/// no field-by-field edit of a published snapshot exists, so a reader can
/// only ever observe a value that was installed whole.
///
/// The ghost `published` sequence records every snapshot ever installed
/// (the initial one included), newest last.
pub struct Store<S> {
    current: S,
    published: Ghost<Seq<S>>,
}

impl<S> Store<S> {
    /// The current snapshot.
    pub closed spec fn view(&self) -> S {
        self.current
    }

    /// Every snapshot that was ever installed, oldest first.
    pub closed spec fn published(&self) -> Seq<S> {
        self.published@
    }

    pub closed spec fn wf(&self) -> bool {
        self.published@.len() > 0 && self.published@.last() == self.current
    }

    pub fn new(initial: S) -> (store: Store<S>)
        ensures
            store.wf(),
            store@ == initial,
            store.published() == seq![initial],
    {
        let ghost history = seq![initial];
        Store { current: initial, published: Ghost(history) }
    }

    /// Returns the current snapshot: always the most recently installed one.
    pub fn read(&self) -> (snapshot: &S)
        requires
            self.wf(),
        ensures
            *snapshot == self@,
            *snapshot == self.published().last(),
    {
        &self.current
    }

    /// Installs `snapshot` as the current value, wholesale. The prior value
    /// stays in the publication history but is no longer served.
    pub fn replace(&mut self, snapshot: S)
        requires
            old(self).wf(),
        ensures
            final(self).wf(),
            final(self)@ == snapshot,
            final(self).published() == old(self).published().push(snapshot),
    {
        self.published = Ghost(self.published@.push(snapshot));
        self.current = snapshot;
    }
}

/// Atomic swap law: whatever sequence of reads and replacements produced a
/// well-formed store, what `read` returns is a complete, previously installed
/// snapshot (the most recent one) — never a mixture of two snapshots, since
/// the publication history holds only values that were installed whole.
pub proof fn lemma_read_returns_published<S>(store: &Store<S>)
    requires
        store.wf(),
    ensures
        store@ == store.published().last(),
        store.published().contains(store@),
{
    assert(store.published()[store.published().len() - 1] == store@);
}

} // verus!
