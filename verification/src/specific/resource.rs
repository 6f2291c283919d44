//! A named resource, to show the order in which values go out of scope.

use vstd::prelude::*;

verus! {

/// A resource with a name.
pub struct MyResource {
    pub name: String,
}

impl MyResource {
    /// A resource named `name`.
    pub fn new(name: &str) -> (resource: MyResource)
        ensures
            resource.name@ == name@,
    {
        MyResource { name: name.to_owned() }
    }

    /// Gives the resource up, and reports the name of what was given up.
    pub fn release(self) -> (name: String)
        ensures
            name@ == self.name@,
    {
        self.name
    }
}

} // verus!
