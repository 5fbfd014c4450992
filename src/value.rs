//! Candidate values, their identifiers and their canonical byte encoding:
//! eight bytes, most significant first.
use vstd::prelude::*;

use crate::buffer::{bytes_content, bytes_from_vec, bytes_to_vec};

verus! {

/// A 64-bit payload proposed for agreement.
#[derive(Copy, Clone, PartialEq, Eq, Structural, Debug, Ord, PartialOrd)]
pub struct BaseValue(pub u64);

/// The identifier of a [`BaseValue`]; equal to the value itself.
#[derive(Copy, Clone, PartialEq, Eq, Structural, Debug, Ord, PartialOrd)]
pub struct BaseValueId(pub u64);

/// The byte of `x` at position `i` of its big-endian encoding (`i < 8`).
pub open spec fn be_byte(x: u64, i: int) -> u8 {
    ((x >> ((7 - i) * 8) as u64) & 0xff) as u8
}

/// The eight bytes of `x`, most significant first.
pub open spec fn be_bytes(x: u64) -> Seq<u8> {
    Seq::new(8, |i: int| be_byte(x, i))
}

/// The integer that eight bytes encode, most significant first.
pub open spec fn from_be(s: Seq<u8>) -> u64
    recommends
        s.len() == 8,
{
    (s[0] as u64) << 56u64 | (s[1] as u64) << 48u64 | (s[2] as u64) << 40u64 | (s[3] as u64)
        << 32u64 | (s[4] as u64) << 24u64 | (s[5] as u64) << 16u64 | (s[6] as u64) << 8u64 | (
    s[7] as u64)
}

/// Decoding the encoding of any integer gives the integer back.
pub proof fn lemma_be_round_trip(x: u64)
    ensures
        from_be(be_bytes(x)) == x,
        be_bytes(x).len() == 8,
{
    let s = be_bytes(x);
    assert(s[0] == ((x >> 56u64) & 0xff) as u8);
    assert(s[1] == ((x >> 48u64) & 0xff) as u8);
    assert(s[2] == ((x >> 40u64) & 0xff) as u8);
    assert(s[3] == ((x >> 32u64) & 0xff) as u8);
    assert(s[4] == ((x >> 24u64) & 0xff) as u8);
    assert(s[5] == ((x >> 16u64) & 0xff) as u8);
    assert(s[6] == ((x >> 8u64) & 0xff) as u8);
    assert(s[7] == ((x >> 0u64) & 0xff) as u8);
    let (b0, b1, b2, b3, b4, b5, b6, b7) = (s[0], s[1], s[2], s[3], s[4], s[5], s[6], s[7]);
    assert((b0 as u64) << 56u64 | (b1 as u64) << 48u64 | (b2 as u64) << 40u64 | (b3 as u64)
        << 32u64 | (b4 as u64) << 24u64 | (b5 as u64) << 16u64 | (b6 as u64) << 8u64 | (
    b7 as u64) == x) by (bit_vector)
        requires
            b0 == ((x >> 56u64) & 0xff) as u8,
            b1 == ((x >> 48u64) & 0xff) as u8,
            b2 == ((x >> 40u64) & 0xff) as u8,
            b3 == ((x >> 32u64) & 0xff) as u8,
            b4 == ((x >> 24u64) & 0xff) as u8,
            b5 == ((x >> 16u64) & 0xff) as u8,
            b6 == ((x >> 8u64) & 0xff) as u8,
            b7 == ((x >> 0u64) & 0xff) as u8,
    ;
}

/// Appends the eight big-endian bytes of `x` to `out`.
pub fn push_be_u64(out: &mut Vec<u8>, x: u64)
    ensures
        final(out)@ == old(out)@ + be_bytes(x),
{
    let ghost start = out@;
    let mut i: u64 = 0;
    while i < 8
        invariant
            i <= 8,
            out@ == start + be_bytes(x).take(i as int),
        decreases 8 - i,
    {
        let shift: u64 = (7 - i) * 8;
        out.push(((x >> shift) & 0xff) as u8);
        proof {
            assert(be_bytes(x).take(i as int + 1) =~= be_bytes(x).take(i as int).push(
                be_byte(x, i as int),
            ));
        }
        i = i + 1;
    }
    proof {
        assert(be_bytes(x).take(8) =~= be_bytes(x));
    }
}

/// Reads the integer that the eight bytes of `s` encode, most significant first.
pub fn read_be_u64(s: &Vec<u8>) -> (r: u64)
    requires
        s@.len() == 8,
    ensures
        r == from_be(s@),
{
    (s[0] as u64) << 56u64 | (s[1] as u64) << 48u64 | (s[2] as u64) << 40u64 | (s[3] as u64)
        << 32u64 | (s[4] as u64) << 24u64 | (s[5] as u64) << 16u64 | (s[6] as u64) << 8u64 | (
    s[7] as u64)
}

impl BaseValue {
    /// The canonical byte encoding of this value.
    pub open spec fn encoding(self) -> Seq<u8> {
        be_bytes(self.0)
    }

    /// Encodes the value as eight bytes, most significant first.
    pub fn to_bytes(&self) -> (r: bytes::Bytes)
        ensures
            bytes_content(r) == self.encoding(),
            bytes_content(r).len() == 8,
            from_be(bytes_content(r)) == self.0,
    {
        let mut v: Vec<u8> = Vec::new();
        push_be_u64(&mut v, self.0);
        proof {
            lemma_be_round_trip(self.0);
        }
        bytes_from_vec(v)
    }

    /// Decodes a value from its eight-byte encoding.
    pub fn from_bytes(bytes: &bytes::Bytes) -> (r: Self)
        requires
            bytes_content(*bytes).len() == 8,
        ensures
            r.0 == from_be(bytes_content(*bytes)),
    {
        let v = bytes_to_vec(bytes);
        BaseValue(read_be_u64(&v))
    }

    /// The identifier of this value.
    pub fn id(&self) -> (r: BaseValueId)
        ensures
            r.0 == self.0,
    {
        BaseValueId(self.0)
    }
}

/// Decoding the byte encoding of any value gives the same value back.
pub proof fn lemma_value_round_trip(v: BaseValue)
    ensures
        v.encoding().len() == 8,
        BaseValue(from_be(v.encoding())) == v,
{
    lemma_be_round_trip(v.0);
}

} // verus!
