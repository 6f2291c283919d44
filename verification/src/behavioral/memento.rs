//! Memento: an editor whose text can be saved in a snapshot and brought back
//! from it, without the snapshot giving the text away.

use vstd::prelude::*;

verus! {

/// An editor holding a text.
pub struct Editor {
    content: String,
}

/// A snapshot of an editor's text.
pub struct Memento {
    content: String,
}

impl Clone for Memento {
    /// A second snapshot of the same text.
    fn clone(&self) -> (copy: Memento)
        ensures
            copy@ == self@,
    {
        Memento { content: self.content.clone() }
    }
}

impl View for Editor {
    type V = Seq<char>;

    closed spec fn view(&self) -> Seq<char> {
        self.content@
    }
}

impl View for Memento {
    type V = Seq<char>;

    closed spec fn view(&self) -> Seq<char> {
        self.content@
    }
}

impl Editor {
    /// An editor with no text.
    pub fn new() -> (editor: Editor)
        ensures
            editor@ == Seq::<char>::empty(),
    {
        Editor { content: String::new() }
    }

    /// Replaces the text.
    pub fn set_content(&mut self, content: &str)
        ensures
            final(self)@ == content@,
    {
        self.content = content.to_owned();
    }

    /// The text.
    pub fn get_content(&self) -> (content: &str)
        ensures
            content@ == self@,
    {
        self.content.as_str()
    }

    /// Takes a snapshot of the text.
    pub fn save(&self) -> (memento: Memento)
        ensures
            memento@ == self@,
    {
        Memento { content: self.content.clone() }
    }

    /// Brings back the text of a snapshot.
    pub fn restore(&mut self, memento: &Memento)
        ensures
            final(self)@ == memento@,
    {
        self.content = memento.content.clone();
    }
}

} // verus!
