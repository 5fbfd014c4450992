use malachite_simulator::address::BasePeerAddress;
use malachite_simulator::context::BaseContext;
use malachite_simulator::height::BaseHeight;
use malachite_simulator::certificate::{CommitCertificate, CommitSignature};
use malachite_simulator::peer_set::BasePeerSet;
use malachite_simulator::proposal::BaseProposalPart;
use malachite_simulator::round::{NilOrVal, Round};
use malachite_simulator::signing_provider::SigningError;
use malachite_simulator::value::{BaseValue, BaseValueId};

fn verification_key(ctx: &BaseContext) -> ed25519_consensus::VerificationKey {
    let bytes: [u8; 32] = ctx.shared_public_key().0.as_slice().try_into().unwrap();
    ed25519_consensus::VerificationKey::try_from(bytes).unwrap()
}

fn signature(bytes: &[u8]) -> ed25519_consensus::Signature {
    let arr: [u8; 64] = bytes.try_into().unwrap();
    ed25519_consensus::Signature::from(arr)
}

#[test]
fn vote_encoding_is_exact() {
    let vote = BaseContext::new_prevote(
        BaseHeight(1),
        Round::Number(2),
        NilOrVal::Val(BaseValueId(3)),
        BasePeerAddress(4),
    );
    let expected: Vec<u8> = vec![
        0, 0, 0, 0, 0, 0, 0, 0, 1, 1, 0, 0, 0, 0, 0, 0, 0, 2, 1, 0, 0, 0, 0, 0, 0, 0, 3, 0, 0, 0,
        0, 0, 0, 0, 4, 0,
    ];
    assert_eq!(vote.to_bytes(), expected);
}

#[test]
fn signed_vote_verifies_against_provider_key() {
    let ctx = BaseContext::new();
    let vote = BaseContext::new_precommit(
        BaseHeight(1),
        Round::Number(0),
        NilOrVal::Val(BaseValueId(45)),
        BasePeerAddress(0),
    );
    let signed = ctx.signing_provider().sign_vote(vote.clone());
    assert_eq!(signed.signature.0.len(), 64);
    let vk = verification_key(&ctx);
    assert!(vk.verify(&signature(&signed.signature.0), &vote.to_bytes()).is_ok());
}

#[test]
fn extended_signature_differs_and_extension_verifies_alone() {
    let ctx = BaseContext::new();
    let vote = BaseContext::new_precommit(
        BaseHeight(1),
        Round::Number(0),
        NilOrVal::Val(BaseValueId(45)),
        BasePeerAddress(0),
    );
    let plain = ctx.signing_provider().sign_vote_extended(vote.clone(), None);
    let extended = ctx.signing_provider().sign_vote_extended(vote.clone(), Some(BaseValue(45)));
    assert!(plain.message.extension.is_none());
    assert_ne!(plain.message.to_bytes(), extended.message.to_bytes());
    assert_ne!(plain.signature.0, extended.signature.0);

    let vk = verification_key(&ctx);
    let ext = extended.message.extension.clone().unwrap();
    assert_eq!(ext.message.data.to_vec(), BaseValue(45).to_bytes().to_vec());
    assert!(vk.verify(&signature(&ext.signature.0), &ext.message.data).is_ok());
    assert!(vk
        .verify(&signature(&extended.signature.0), &extended.message.to_bytes())
        .is_ok());
    assert_ne!(ext.signature.0, extended.signature.0);
}

#[test]
fn proposal_signature_verifies() {
    let ctx = BaseContext::new();
    let p = BaseContext::new_proposal(
        BaseHeight(2),
        Round::Number(0),
        BaseValue(46),
        Round::Nil,
        BasePeerAddress(0),
    );
    let signed = ctx.signing_provider().sign_proposal(p);
    assert_eq!(signed.message, p);
    let vk = verification_key(&ctx);
    assert!(vk.verify(&signature(&signed.signature.0), &p.to_bytes()).is_ok());
}

#[test]
fn verification_is_not_implemented() {
    let ctx = BaseContext::new();
    let vote = BaseContext::new_prevote(BaseHeight(0), Round::Nil, NilOrVal::Nil, BasePeerAddress(0));
    let signed = ctx.signing_provider().sign_vote(vote.clone());
    let key = ctx.shared_public_key();
    assert_eq!(
        ctx.signing_provider().verify_signed_vote(&vote, &signed.signature, &key),
        Err(SigningError::NotImplemented)
    );
    let p = BaseContext::new_proposal(BaseHeight(0), Round::Nil, BaseValue(1), Round::Nil, BasePeerAddress(0));
    let sp = ctx.signing_provider().sign_proposal(p);
    assert_eq!(
        ctx.signing_provider().verify_signed_proposal(&p, &sp.signature, &key),
        Err(SigningError::NotImplemented)
    );
}

#[test]
fn part_and_commit_verification_is_not_implemented() {
    let ctx = BaseContext::new();
    let key = ctx.shared_public_key();
    let part = BaseProposalPart {
        height: BaseHeight(1),
        round: Round::Number(0),
        value: BaseValue(45),
        proposer: BasePeerAddress(0),
    };
    let vote = BaseContext::new_precommit(
        BaseHeight(1),
        Round::Number(0),
        NilOrVal::Val(BaseValueId(45)),
        BasePeerAddress(0),
    );
    let signed = ctx.signing_provider().sign_vote(vote);
    assert_eq!(
        ctx.signing_provider().verify_signed_proposal_part(&part, &signed.signature, &key),
        Err(SigningError::NotImplemented)
    );
    let commit_sig = CommitSignature { address: BasePeerAddress(0), signature: signed.signature.clone() };
    let certificate = CommitCertificate {
        height: BaseHeight(1),
        round: Round::Number(0),
        value_id: BaseValueId(45),
        commit_signatures: vec![commit_sig.clone()],
    };
    let set = BasePeerSet::new(4, key);
    assert_eq!(
        ctx.signing_provider().verify_commit_signature(&certificate, &commit_sig, &set.peers[0]),
        Err(SigningError::NotImplemented)
    );
}
