//! The shared content value: a single text value owned by the running
//! application, read and replaced by every connection. Callers serialize
//! access with a mutual-exclusion primitive around the whole store; the
//! operations here state what one atomic read or write does.

use vstd::prelude::*;

verus! {

/// The single shared content value. Its view is the stored text.
pub struct StateStore {
    content: String,
}

impl View for StateStore {
    type V = Seq<char>;

    closed spec fn view(&self) -> Seq<char> {
        self.content@
    }
}

impl StateStore {
    /// A fresh store holds the empty text.
    pub fn new() -> (s: Self)
        ensures
            s@ == Seq::<char>::empty(),
    {
        StateStore { content: String::new() }
    }

    /// An atomic snapshot of the current content.
    pub fn read(&self) -> (r: String)
        ensures
            r@ == self@,
    {
        self.content.clone()
    }

    /// Atomically replaces the content; last write wins.
    pub fn write(&mut self, new_content: String)
        ensures
            final(self)@ == new_content@,
    {
        self.content = new_content;
    }
}

/// The outward content accessor: the current content, as the
/// application layer reads it.
pub fn get_content(store: &StateStore) -> (r: String)
    ensures
        r@ == store@,
{
    store.read()
}

/// The outward content mutator: replaces the content and returns the
/// text that the caller must publish to the event sink as a
/// content-update notification.
pub fn set_content(store: &mut StateStore, content: String) -> (note: String)
    ensures
        final(store)@ == content@,
        note@ == content@,
{
    let note = content.clone();
    store.write(content);
    note
}

} // verus!
