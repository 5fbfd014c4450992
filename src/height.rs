//! Heights of consensus instances.
use vstd::prelude::*;

verus! {

/// Identifies one consensus instance; heights only grow.
#[derive(Copy, Clone, PartialEq, Eq, Structural, Debug, Hash, Ord, PartialOrd)]
pub struct BaseHeight(pub u64);

impl Default for BaseHeight {
    /// The initial height, the lowest one.
    fn default() -> (r: BaseHeight)
        ensures
            r.0 == 0,
    {
        BaseHeight(0)
    }
}

impl BaseHeight {
    /// The height that follows this one.
    pub fn increment(&self) -> (r: BaseHeight)
        requires
            self.0 < u64::MAX,
        ensures
            r.0 == self.0 + 1,
    {
        BaseHeight(self.0 + 1)
    }
}

} // verus!
