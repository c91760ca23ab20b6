use vstd::prelude::*;

verus! {

/// Entry point of the Windows back end; holds no state of its own.
pub struct Manager {}

impl Manager {
    pub fn new() -> (r: Self)
        ensures
            r == (Manager {}),
    {
        Manager {}
    }
}

} // verus!
