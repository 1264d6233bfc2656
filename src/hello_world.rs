//! The most basic script a host node can carry: it greets when ready.
use vstd::prelude::*;

verus! {

/// A script with no state of its own.
#[derive(Clone, Copy, PartialEq, Eq, Debug, Structural)]
pub struct HelloWorld;

impl HelloWorld {
    pub fn new() -> (r: HelloWorld)
        ensures
            r == HelloWorld,
    {
        HelloWorld
    }
}

} // verus!
