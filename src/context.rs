//! The context bindings: the signing provider of a run, proposer selection
//! and the construction of proposals and votes.
//!
//! The proposer is always the first peer of the validator set, whatever the
//! height and round: one fixed proposer, a limitation of this harness rather
//! than a rotation that consensus would rely on.
use vstd::prelude::*;

use crate::address::BasePeerAddress;
use crate::height::BaseHeight;
use crate::peer::BasePeer;
use crate::peer_set::BasePeerSet;
use crate::proposal::BaseProposal;
use crate::round::{NilOrVal, Round};
use crate::signing_provider::BaseSigningProvider;
use crate::signing_scheme::PublicKey;
use crate::value::{BaseValue, BaseValueId};
use crate::vote::{BaseVote, VoteType};

verus! {

/// The proposer of `height` and `round` among `peers`: the first peer.
pub open spec fn proposer_of(peers: Seq<BasePeer>, height: BaseHeight, round: Round) -> BasePeer {
    peers[0]
}

/// A proposal for `value`, not yet signed.
pub open spec fn proposal_spec(
    height: BaseHeight,
    round: Round,
    value: BaseValue,
    address: BasePeerAddress,
) -> BaseProposal {
    BaseProposal { height, round, value, proposer: address }
}

/// A vote of kind `vote_type`, with no extension.
pub open spec fn vote_spec(
    vote_type: VoteType,
    height: BaseHeight,
    round: Round,
    value_id: NilOrVal<BaseValueId>,
    address: BasePeerAddress,
) -> BaseVote {
    BaseVote { vote_type, height, round, value_id, voter: address, extension: None }
}

/// What the consensus engine is given to build and sign messages.
#[derive(Clone)]
pub struct BaseContext {
    pub signing_provider: BaseSigningProvider,
}

impl BaseContext {
    /// A context with a fresh signing provider.
    pub fn new() -> (r: BaseContext)
        ensures
            r.signing_provider.seed().len() == 32,
    {
        BaseContext { signing_provider: BaseSigningProvider::new() }
    }

    /// The proposer of `height` and `round`: always the first peer of the set.
    pub fn select_proposer<'a>(
        &self,
        validator_set: &'a BasePeerSet,
        height: BaseHeight,
        round: Round,
    ) -> (r: &'a BasePeer)
        requires
            validator_set.peers@.len() > 0,
        ensures
            *r == proposer_of(validator_set.peers@, height, round),
    {
        &validator_set.peers[0]
    }

    /// A proposal for `value` by `address`; `pol_round` is not kept.
    pub fn new_proposal(
        height: BaseHeight,
        round: Round,
        value: BaseValue,
        pol_round: Round,
        address: BasePeerAddress,
    ) -> (r: BaseProposal)
        ensures
            r == proposal_spec(height, round, value, address),
    {
        BaseProposal { height, value, proposer: address, round }
    }

    /// A prevote by `address`, with no extension.
    pub fn new_prevote(
        height: BaseHeight,
        round: Round,
        value_id: NilOrVal<BaseValueId>,
        address: BasePeerAddress,
    ) -> (r: BaseVote)
        ensures
            r == vote_spec(VoteType::Prevote, height, round, value_id, address),
    {
        BaseVote {
            vote_type: VoteType::Prevote,
            height,
            value_id,
            round,
            voter: address,
            extension: None,
        }
    }

    /// A precommit by `address`, with no extension; the signing provider
    /// attaches one where wanted.
    pub fn new_precommit(
        height: BaseHeight,
        round: Round,
        value_id: NilOrVal<BaseValueId>,
        address: BasePeerAddress,
    ) -> (r: BaseVote)
        ensures
            r == vote_spec(VoteType::Precommit, height, round, value_id, address),
    {
        BaseVote {
            vote_type: VoteType::Precommit,
            height,
            value_id,
            round,
            voter: address,
            extension: None,
        }
    }

    /// The signing provider of this context.
    pub fn signing_provider(&self) -> (r: &BaseSigningProvider)
        ensures
            *r == self.signing_provider,
    {
        &self.signing_provider
    }

    /// The verification key that all peers of a run share: that of the
    /// signing provider.
    pub fn shared_public_key(&self) -> (r: PublicKey)
        ensures
            r@ == crate::signing_scheme::ed25519_public_key(self.signing_provider.seed()),
    {
        self.signing_provider.public_key()
    }
}

/// The proposer does not depend on the height or the round: on a non-empty
/// validator set it is the lowest-indexed peer for every height and round.
pub proof fn lemma_proposer_fixed(
    peers: Seq<BasePeer>,
    h1: BaseHeight,
    r1: Round,
    h2: BaseHeight,
    r2: Round,
)
    requires
        peers.len() > 0,
    ensures
        proposer_of(peers, h1, r1) == proposer_of(peers, h2, r2),
        proposer_of(peers, h1, r1) == peers[0],
{
}

} // verus!
