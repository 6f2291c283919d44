//! A read-only handle that is typed as if it owned what it points to.

use std::marker::PhantomData;
use vstd::prelude::*;

verus! {

/// A read-only handle to a `T` that lives elsewhere.
pub struct MyBox2<'a, T> {
    target: &'a T,
    _marker: PhantomData<T>,
}

impl<'a, T> MyBox2<'a, T> {
    /// The value the handle points to.
    pub closed spec fn target(&self) -> T {
        *self.target
    }

    /// Makes a handle to `value`.
    pub fn new(value: &'a T) -> (b: MyBox2<'a, T>)
        ensures
            b.target() == *value,
    {
        MyBox2 { target: value, _marker: PhantomData }
    }

    /// Reads through the handle.
    pub fn get(&self) -> (value: &T)
        ensures
            *value == self.target(),
    {
        self.target
    }
}

} // verus!
