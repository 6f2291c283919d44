//! Prototype: a new value is made by copying one that exists.

use vstd::prelude::*;

verus! {

/// A circle: its centre and its radius.
#[derive(Clone, Copy, Debug, PartialEq, Eq, Structural)]
pub struct Circle {
    pub x: i32,
    pub y: i32,
    pub radius: i32,
}

/// A value that can make a copy of itself.
pub trait Prototype: Sized {
    /// A copy of this value in a box of its own.
    fn clone_box(&self) -> (copy: Box<Self>)
        ensures
            *copy == *self,
    ;
}

impl Prototype for Circle {
    fn clone_box(&self) -> (copy: Box<Circle>) {
        Box::new(*self)
    }
}

} // verus!
