//! Finality records.
use vstd::prelude::*;

use crate::address::BasePeerAddress;
use crate::height::BaseHeight;
use crate::value::BaseValueId;

verus! {

/// The value that one peer finalized at one height, by its identifier.
#[derive(Copy, Clone, PartialEq, Eq, Structural, Debug)]
pub struct Decision {
    pub peer: BasePeerAddress,
    pub value_id: BaseValueId,
    pub height: BaseHeight,
}

} // verus!
