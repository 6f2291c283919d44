//! Observer: a subject tells everyone who registered whenever there is news.

use vstd::prelude::*;

verus! {

/// Someone who wants to be told.
pub trait Observer {
    /// What this observer makes of `message`.
    spec fn received(&self, message: Seq<char>) -> Seq<char>;

    /// Is told `message`, and says what it made of it.
    fn update(&self, message: &str) -> (receipt: String)
        ensures
            receipt@ == self.received(message@),
    ;
}

/// An observer that takes every message as it is.
pub struct ConcreteObserver;

impl Observer for ConcreteObserver {
    open spec fn received(&self, message: Seq<char>) -> Seq<char> {
        message
    }

    fn update(&self, message: &str) -> (receipt: String) {
        message.to_owned()
    }
}

/// The subject: it knows its observers, in the order in which they
/// registered.
pub struct Subject<O: Observer> {
    observers: Vec<O>,
}

impl<O: Observer> View for Subject<O> {
    type V = Seq<O>;

    /// The registered observers, the first to register first.
    closed spec fn view(&self) -> Seq<O> {
        self.observers@
    }
}

impl<O: Observer> Subject<O> {
    /// A subject with no observers.
    pub fn new() -> (subject: Subject<O>)
        ensures
            subject@ == Seq::<O>::empty(),
    {
        Subject { observers: Vec::new() }
    }

    /// Registers `observer`, after those registered before.
    pub fn register_observer(&mut self, observer: O)
        ensures
            final(self)@ == old(self)@.push(observer),
    {
        self.observers.push(observer);
    }

    /// Tells every observer `message`, in the order of registration, each
    /// exactly once, and collects what they made of it.
    pub fn notify_observers(&self, message: &str) -> (receipts: Vec<String>)
        ensures
            receipts@.len() == self@.len(),
            forall|i: int|
                0 <= i < self@.len() ==> (#[trigger] receipts@[i])@ == self@[i].received(message@),
    {
        let mut receipts: Vec<String> = Vec::new();
        let mut i: usize = 0;
        while i < self.observers.len()
            invariant
                i <= self.observers@.len(),
                receipts@.len() == i,
                forall|j: int|
                    0 <= j < i ==> (#[trigger] receipts@[j])@ == self.observers@[j].received(
                        message@,
                    ),
            decreases self.observers@.len() - i,
        {
            let receipt = self.observers[i].update(message);
            receipts.push(receipt);
            i = i + 1;
        }
        receipts
    }
}

} // verus!
