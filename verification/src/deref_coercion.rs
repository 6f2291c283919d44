//! A box of one's own that can be dereferenced like a reference.

use std::ops::Deref;
use vstd::prelude::*;
use vstd::string::StringExecFns;

verus! {

/// A value in a box.
pub struct MyBox<T>(T);

impl<T> View for MyBox<T> {
    type V = T;

    /// The value inside.
    closed spec fn view(&self) -> T {
        self.0
    }
}

impl<T> MyBox<T> {
    /// Puts `x` in a box.
    pub fn new(x: T) -> (b: MyBox<T>)
        ensures
            b@ == x,
    {
        MyBox(x)
    }
}

impl<T> Deref for MyBox<T> {
    type Target = T;

    /// The value inside.
    fn deref(&self) -> (inner: &T)
        ensures
            *inner == self@,
    {
        &self.0
    }
}

/// Greets `name`.  A `&MyBox<String>` will do for the name: it is
/// dereferenced twice on the way in.
pub fn say_hello(name: &str) -> (greeting: String)
    ensures
        greeting@ == "Hello, "@ + name@ + "!"@,
{
    let mut greeting = String::from_str("Hello, ");
    greeting.append(name);
    greeting.append("!");
    greeting
}

} // verus!
