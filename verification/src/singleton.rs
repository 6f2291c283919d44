//! Singleton: one instance, made when it is first asked for and never again.
//! The place that holds the instance is handed to the function that asks for
//! it; there is no hidden global.

use vstd::prelude::*;
use vstd::string::StringExecFns;

verus! {

/// The one instance.
pub struct Singleton {
    value: String,
}

impl View for Singleton {
    type V = Seq<char>;

    /// The instance's value.
    closed spec fn view(&self) -> Seq<char> {
        self.value@
    }
}

impl Singleton {
    /// The instance in `slot`.  It is made if `slot` is empty, and left as it
    /// is if not: whoever asks, and however often, gets the same instance.
    pub fn get_instance(slot: &mut Option<Singleton>) -> (instance: &Singleton)
        ensures
            *final(slot) == Some(*instance),
            *old(slot) is Some ==> *final(slot) == *old(slot),
            *old(slot) is None ==> instance@ == "Singleton Instance"@,
    {
        if slot.is_none() {
            *slot = Some(Singleton { value: String::from_str("Singleton Instance") });
        }
        slot.as_ref().unwrap()
    }

    /// Does something, and reports the value it did it with.
    pub fn do_something(&self) -> (value: &str)
        ensures
            value@ == self@,
    {
        self.value.as_str()
    }
}

} // verus!
