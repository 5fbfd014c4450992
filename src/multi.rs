//! Blocks assembled from the proposals of several proposers.
use vstd::prelude::*;

use crate::height::BaseHeight;
use crate::value::BaseValue;

verus! {

/// A block made by several proposers: one value from each, at a height.
#[derive(Clone, Debug)]
pub struct MultiPropBlock {
    pub values: Vec<BaseValue>,
    pub height: BaseHeight,
}

} // verus!
