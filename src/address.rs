//! Peer addresses.
use vstd::prelude::*;

verus! {

/// A small integer that identifies a peer, unique within one simulation run.
#[derive(Copy, Clone, PartialEq, Eq, Structural, Debug, Hash, Ord, PartialOrd)]
pub struct BasePeerAddress(pub u32);

impl BasePeerAddress {
    /// The address with the given index.
    pub fn new(id: u32) -> (r: BasePeerAddress)
        ensures
            r.0 == id,
    {
        BasePeerAddress(id)
    }
}

} // verus!
