//! Rounds within a height, and values that may be nil.
use vstd::prelude::*;

verus! {

/// A round of a consensus instance, or no round at all.
#[derive(Copy, Clone, PartialEq, Eq, Structural, Debug)]
pub enum Round {
    Nil,
    Number(u32),
}

/// Either nothing (a vote for no value) or a value.
#[derive(Copy, Clone, PartialEq, Eq, Structural, Debug)]
pub enum NilOrVal<T> {
    Nil,
    Val(T),
}

} // verus!
