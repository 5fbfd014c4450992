//! The signing provider: the one owner of the signing key of a run, which
//! signs votes, vote extensions and proposals.
use vstd::prelude::*;

use crate::buffer::bytes_content;
use crate::proposal::BaseProposal;
use crate::signing_scheme::{
    ed25519_public_key, ed25519_signature, PrivateKey, PublicKey, Signature, SignedMessage,
};
use crate::value::BaseValue;
use crate::certificate::{CommitCertificate, CommitSignature};
use crate::peer::BasePeer;
use crate::proposal::BaseProposalPart;
use crate::vote::{BaseVote, Extension, VoteType};

verus! {

/// Why a signing operation did not give an answer.
#[derive(Copy, Clone, PartialEq, Eq, Structural, Debug)]
pub enum SigningError {
    /// Signature verification is not available in this harness.
    NotImplemented,
}

/// Holds one private key and signs with it; signatures depend on the key
/// and the signed bytes alone.
#[derive(Clone)]
pub struct BaseSigningProvider {
    private_key: PrivateKey,
}

impl BaseSigningProvider {
    /// The seed of the key this provider signs with.
    pub closed spec fn seed(self) -> Seq<u8> {
        self.private_key.seed()
    }

    /// A provider with a fresh random key.
    pub fn new() -> (r: BaseSigningProvider)
        ensures
            r.seed().len() == 32,
    {
        BaseSigningProvider { private_key: PrivateKey::generate() }
    }

    /// The verification key of this provider's key.
    pub fn public_key(&self) -> (r: PublicKey)
        ensures
            r@ == ed25519_public_key(self.seed()),
    {
        self.private_key.public_key()
    }

    /// Signs the encoding of `vote`.
    pub fn sign_vote(&self, vote: BaseVote) -> (r: SignedMessage<BaseVote>)
        ensures
            r.message == vote,
            r.signature@ == ed25519_signature(self.seed(), vote.encoding()),
    {
        let signature = self.private_key.sign(&vote.to_bytes());
        SignedMessage::new(vote, signature)
    }

    /// Signs the encoding of `proposal`.
    pub fn sign_proposal(&self, proposal: BaseProposal) -> (r: SignedMessage<BaseProposal>)
        ensures
            r.message == proposal,
            r.signature@ == ed25519_signature(self.seed(), proposal.encoding()),
    {
        let signature = self.private_key.sign(&proposal.to_bytes());
        SignedMessage::new(proposal, signature)
    }

    /// Signs `vote`, after attaching to it, where `ex` holds a value, an
    /// extension that carries the value's encoding and is signed on its own.
    /// Extensions belong to precommits only: a prevote is signed without one.
    pub fn sign_vote_extended(&self, vote: BaseVote, ex: Option<BaseValue>) -> (r: SignedMessage<
        BaseVote,
    >)
        requires
            ex is Some ==> vote.vote_type == VoteType::Precommit,
        ensures
            ex is None ==> r.message == vote,
            ex matches Some(value) ==> {
                &&& r.message.extension matches Some(se)
                &&& bytes_content(se.message.data) == value.encoding()
                &&& se.signature@ == ed25519_signature(self.seed(), value.encoding())
                &&& r.message == (BaseVote { extension: Some(se), ..vote })
            },
            r.signature@ == ed25519_signature(self.seed(), r.message.encoding()),
    {
        let vote = match ex {
            Some(value) => {
                let extension = Extension::new(value.to_bytes());
                let data = crate::buffer::bytes_to_vec(&extension.data);
                let ext_signature = self.private_key.sign(&data);
                vote.extend(SignedMessage::new(extension, ext_signature))
            },
            None => vote,
        };
        self.sign_vote(vote)
    }

    /// Would check a vote's signature; verification is not available here.
    pub fn verify_signed_vote(
        &self,
        vote: &BaseVote,
        signature: &Signature,
        public_key: &PublicKey,
    ) -> (r: Result<bool, SigningError>)
        ensures
            r == Err::<bool, SigningError>(SigningError::NotImplemented),
    {
        Err(SigningError::NotImplemented)
    }

    /// Would check a proposal's signature; verification is not available here.
    pub fn verify_signed_proposal(
        &self,
        proposal: &BaseProposal,
        signature: &Signature,
        public_key: &PublicKey,
    ) -> (r: Result<bool, SigningError>)
        ensures
            r == Err::<bool, SigningError>(SigningError::NotImplemented),
    {
        Err(SigningError::NotImplemented)
    }

    /// Would check the signature of a proposal part; verification is not
    /// available here.
    pub fn verify_signed_proposal_part(
        &self,
        proposal_part: &BaseProposalPart,
        signature: &Signature,
        public_key: &PublicKey,
    ) -> (r: Result<bool, SigningError>)
        ensures
            r == Err::<bool, SigningError>(SigningError::NotImplemented),
    {
        Err(SigningError::NotImplemented)
    }

    /// Would check one commit signature of a certificate and give the
    /// signer's voting power; verification is not available here.
    pub fn verify_commit_signature(
        &self,
        certificate: &CommitCertificate,
        commit_sig: &CommitSignature,
        validator: &BasePeer,
    ) -> (r: Result<u64, SigningError>)
        ensures
            r == Err::<u64, SigningError>(SigningError::NotImplemented),
    {
        Err(SigningError::NotImplemented)
    }
}

} // verus!
