use vstd::prelude::*;

verus! {

/// A store for fast access to transportation data. It holds nothing yet.
#[derive(Clone, Debug)]
pub struct OvertureExpress {}

impl OvertureExpress {
    /// An empty store.
    pub fn new() -> (r: OvertureExpress)
        ensures
            r == (OvertureExpress {}),
    {
        OvertureExpress {}
    }
}

} // verus!
