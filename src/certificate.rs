//! Commit certificates: the precommit signatures that finalized a value.
use vstd::prelude::*;

use crate::address::BasePeerAddress;
use crate::height::BaseHeight;
use crate::round::Round;
use crate::signing_scheme::Signature;
use crate::value::BaseValueId;

verus! {

/// The signature of one peer's precommit, as a certificate holds it.
#[derive(Clone, Debug)]
pub struct CommitSignature {
    pub address: BasePeerAddress,
    pub signature: Signature,
}

/// The precommit signatures for one value at a height and round.
#[derive(Clone, Debug)]
pub struct CommitCertificate {
    pub height: BaseHeight,
    pub round: Round,
    pub value_id: BaseValueId,
    pub commit_signatures: Vec<CommitSignature>,
}

} // verus!
