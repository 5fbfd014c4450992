//! Proposals, with their byte encoding: the height, the round (a tag byte and
//! eight bytes), the value and the proposer's address, eight big-endian bytes each.
use vstd::prelude::*;

use crate::address::BasePeerAddress;
use crate::height::BaseHeight;
use crate::round::Round;
use crate::value::{be_bytes, push_be_u64, BaseValue};
use crate::vote::{push_round, round_encoding};

verus! {

/// A value put forward by a proposer at a height and round.
#[derive(Copy, Clone, PartialEq, Eq, Structural, Debug)]
pub struct BaseProposal {
    pub height: BaseHeight,
    pub round: Round,
    pub value: BaseValue,
    pub proposer: BasePeerAddress,
}

/// One part of a proposal as it is streamed between peers; in this harness
/// a single part carries the whole value.
#[derive(Copy, Clone, PartialEq, Eq, Structural, Debug)]
pub struct BaseProposalPart {
    pub height: BaseHeight,
    pub round: Round,
    pub value: BaseValue,
    pub proposer: BasePeerAddress,
}

impl BaseProposal {
    /// The canonical byte encoding of this proposal, the bytes that are signed.
    pub open spec fn encoding(self) -> Seq<u8> {
        be_bytes(self.height.0) + round_encoding(self.round) + self.value.encoding() + be_bytes(
            self.proposer.0 as u64,
        )
    }

    /// Encodes this proposal.
    pub fn to_bytes(&self) -> (r: Vec<u8>)
        ensures
            r@ == self.encoding(),
    {
        let mut out: Vec<u8> = Vec::new();
        push_be_u64(&mut out, self.height.0);
        push_round(&mut out, self.round);
        push_be_u64(&mut out, self.value.0);
        push_be_u64(&mut out, self.proposer.0 as u64);
        assert(out@ =~= self.encoding());
        out
    }
}

} // verus!
