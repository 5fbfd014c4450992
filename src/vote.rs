//! Votes and vote extensions, with their byte encoding.
//!
//! A vote is encoded as its kind (one byte), its height (eight bytes), its
//! round and its value identifier (a tag byte and eight bytes each), the
//! voter's address (eight bytes), and then its extension: a zero byte for
//! none, or a one byte, the length of the extension's data (eight bytes), the
//! data and the extension's signature. Integers are big-endian.
use vstd::prelude::*;

use crate::address::BasePeerAddress;
use crate::buffer::{bytes_content, bytes_to_vec};
use crate::height::BaseHeight;
use crate::round::{NilOrVal, Round};
use crate::signing_scheme::SignedMessage;
use crate::value::{be_bytes, push_be_u64, BaseValueId};

verus! {

/// The two kinds of vote.
#[derive(Copy, Clone, PartialEq, Eq, Structural, Debug)]
pub enum VoteType {
    Prevote,
    Precommit,
}

/// Application data attached to a vote.
#[derive(Clone, Debug)]
pub struct Extension {
    pub data: bytes::Bytes,
}

impl Extension {
    /// An extension that carries `data`.
    pub fn new(data: bytes::Bytes) -> (r: Extension)
        ensures
            r.data == data,
    {
        Extension { data }
    }
}

/// A vote of one peer for a value (or for nil) at a height and round.
#[derive(Clone, Debug)]
pub struct BaseVote {
    pub vote_type: VoteType,
    pub height: BaseHeight,
    pub round: Round,
    pub value_id: NilOrVal<BaseValueId>,
    pub voter: BasePeerAddress,
    pub extension: Option<SignedMessage<Extension>>,
}

pub open spec fn vote_type_encoding(t: VoteType) -> Seq<u8> {
    match t {
        VoteType::Prevote => seq![0u8],
        VoteType::Precommit => seq![1u8],
    }
}

pub open spec fn round_encoding(r: Round) -> Seq<u8> {
    match r {
        Round::Nil => seq![0u8] + be_bytes(0),
        Round::Number(n) => seq![1u8] + be_bytes(n as u64),
    }
}

pub open spec fn value_id_encoding(v: NilOrVal<BaseValueId>) -> Seq<u8> {
    match v {
        NilOrVal::Nil => seq![0u8] + be_bytes(0),
        NilOrVal::Val(id) => seq![1u8] + be_bytes(id.0),
    }
}

pub open spec fn extension_encoding(e: Option<SignedMessage<Extension>>) -> Seq<u8> {
    match e {
        Option::None => seq![0u8],
        Option::Some(se) => seq![1u8] + be_bytes(bytes_content(se.message.data).len() as u64)
            + bytes_content(se.message.data) + se.signature@,
    }
}

/// Appends the encoding of a round to `out`.
pub fn push_round(out: &mut Vec<u8>, r: Round)
    ensures
        final(out)@ == old(out)@ + round_encoding(r),
{
    let ghost start = out@;
    match r {
        Round::Nil => {
            out.push(0u8);
            push_be_u64(out, 0);
        },
        Round::Number(n) => {
            out.push(1u8);
            push_be_u64(out, n as u64);
        },
    }
    assert(out@ =~= start + round_encoding(r));
}

/// Appends the encoding of a value identifier, or of nil, to `out`.
pub fn push_value_id(out: &mut Vec<u8>, v: NilOrVal<BaseValueId>)
    ensures
        final(out)@ == old(out)@ + value_id_encoding(v),
{
    let ghost start = out@;
    match v {
        NilOrVal::Nil => {
            out.push(0u8);
            push_be_u64(out, 0);
        },
        NilOrVal::Val(id) => {
            out.push(1u8);
            push_be_u64(out, id.0);
        },
    }
    assert(out@ =~= start + value_id_encoding(v));
}

/// Appends the bytes of `src` to `out`.
pub fn push_all(out: &mut Vec<u8>, src: &Vec<u8>)
    ensures
        final(out)@ == old(out)@ + src@,
{
    let ghost start = out@;
    let mut i: usize = 0;
    while i < src.len()
        invariant
            i <= src@.len(),
            out@ == start + src@.take(i as int),
        decreases src@.len() - i,
    {
        out.push(src[i]);
        assert(src@.take(i as int + 1) =~= src@.take(i as int).push(src@[i as int]));
        i = i + 1;
    }
    assert(src@.take(src@.len() as int) =~= src@);
}

/// Appends the encoding of an optional signed extension to `out`.
pub fn push_extension(out: &mut Vec<u8>, e: &Option<SignedMessage<Extension>>)
    ensures
        final(out)@ == old(out)@ + extension_encoding(*e),
{
    let ghost start = out@;
    match e {
        Option::None => {
            out.push(0u8);
        },
        Option::Some(se) => {
            out.push(1u8);
            let data = bytes_to_vec(&se.message.data);
            push_be_u64(out, data.len() as u64);
            push_all(out, &data);
            push_all(out, &se.signature.0);
        },
    }
    assert(out@ =~= start + extension_encoding(*e));
}

impl BaseVote {
    /// The canonical byte encoding of this vote, the bytes that are signed.
    pub open spec fn encoding(self) -> Seq<u8> {
        vote_type_encoding(self.vote_type) + be_bytes(self.height.0) + round_encoding(self.round)
            + value_id_encoding(self.value_id) + be_bytes(self.voter.0 as u64)
            + extension_encoding(self.extension)
    }

    /// Encodes this vote.
    pub fn to_bytes(&self) -> (r: Vec<u8>)
        ensures
            r@ == self.encoding(),
    {
        let mut out: Vec<u8> = Vec::new();
        match self.vote_type {
            VoteType::Prevote => out.push(0u8),
            VoteType::Precommit => out.push(1u8),
        }
        push_be_u64(&mut out, self.height.0);
        push_round(&mut out, self.round);
        push_value_id(&mut out, self.value_id);
        push_be_u64(&mut out, self.voter.0 as u64);
        push_extension(&mut out, &self.extension);
        assert(out@ =~= self.encoding());
        out
    }

    /// This vote with `extension` attached, in place of any earlier one.
    pub fn extend(self, extension: SignedMessage<Extension>) -> (r: BaseVote)
        ensures
            r == (BaseVote { extension: Some(extension), ..self }),
    {
        BaseVote { extension: Some(extension), ..self }
    }
}

/// A vote that carries a signed extension is encoded, and so signed, over
/// other bytes than the same vote without an extension.
pub proof fn lemma_extension_changes_signed_bytes(vote: BaseVote, ext: SignedMessage<Extension>)
    ensures
        (BaseVote { extension: Some(ext), ..vote }).encoding() != (BaseVote {
            extension: None,
            ..vote
        }).encoding(),
{
    let with_ext = BaseVote { extension: Some(ext), ..vote };
    let without = BaseVote { extension: None, ..vote };
    let prefix = vote_type_encoding(vote.vote_type) + be_bytes(vote.height.0) + round_encoding(
        vote.round,
    ) + value_id_encoding(vote.value_id) + be_bytes(vote.voter.0 as u64);
    assert(prefix.len() == 35);
    assert(with_ext.encoding() == prefix + extension_encoding(Some(ext)));
    assert(without.encoding() == prefix + extension_encoding(None));
    assert(with_ext.encoding()[35] == 1u8);
    assert(without.encoding()[35] == 0u8);
}

} // verus!
