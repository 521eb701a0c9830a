//! Big-endian byte-order helpers.
//!
//! Every multi-byte integer on the TPM wire is big-endian. The spec
//! functions here give the byte image of a value and the value read from
//! bytes; the lemmas relate the two directions.

use vstd::prelude::*;

verus! {

/// The big-endian byte image of a 16-bit value.
pub open spec fn be16_bytes(v: u16) -> Seq<u8> {
    seq![(v >> 8) as u8, v as u8]
}

/// The big-endian byte image of a 32-bit value.
pub open spec fn be32_bytes(v: u32) -> Seq<u8> {
    seq![(v >> 24) as u8, (v >> 16) as u8, (v >> 8) as u8, v as u8]
}

/// The 16-bit value read big-endian from two bytes.
pub open spec fn be16_of(b0: u8, b1: u8) -> u16 {
    (b0 as u16) << 8 | (b1 as u16)
}

/// The 32-bit value read big-endian from four bytes.
pub open spec fn be32_of(b0: u8, b1: u8, b2: u8, b3: u8) -> u32 {
    (b0 as u32) << 24 | (b1 as u32) << 16 | (b2 as u32) << 8 | (b3 as u32)
}

/// The 32-bit value read big-endian at offset `i` of `s`.
pub open spec fn be32_at(s: Seq<u8>, i: int) -> u32
    recommends
        0 <= i,
        i + 4 <= s.len(),
{
    be32_of(s[i], s[i + 1], s[i + 2], s[i + 3])
}

/// Reading back the byte image of a 16-bit value gives the value.
pub proof fn lemma_be16_round_trip(v: u16)
    ensures
        be16_of(be16_bytes(v)[0], be16_bytes(v)[1]) == v,
{
    assert(be16_of((v >> 8) as u8, v as u8) == v) by (bit_vector);
}

/// The byte image of the value read from two bytes is those two bytes.
pub proof fn lemma_be16_extensive(b0: u8, b1: u8)
    ensures
        be16_bytes(be16_of(b0, b1)) =~= seq![b0, b1],
{
    assert((be16_of(b0, b1) >> 8) as u8 == b0 && be16_of(b0, b1) as u8 == b1) by (bit_vector);
}

/// The byte image of the value read from four bytes is those four bytes.
pub proof fn lemma_be32_extensive(b0: u8, b1: u8, b2: u8, b3: u8)
    ensures
        be32_bytes(be32_of(b0, b1, b2, b3)) =~= seq![b0, b1, b2, b3],
{
    assert((be32_of(b0, b1, b2, b3) >> 24) as u8 == b0 && (be32_of(b0, b1, b2, b3) >> 16) as u8
        == b1 && (be32_of(b0, b1, b2, b3) >> 8) as u8 == b2 && be32_of(b0, b1, b2, b3) as u8
        == b3) by (bit_vector);
}

/// Two equal 32-bit values have equal byte images, and conversely.
pub proof fn lemma_be32_injective(x: u32, y: u32)
    requires
        be32_bytes(x) == be32_bytes(y),
    ensures
        x == y,
{
    assert((x >> 24) as u8 == (y >> 24) as u8 && (x >> 16) as u8 == (y >> 16) as u8 && (x >> 8)
        as u8 == (y >> 8) as u8 && x as u8 == y as u8 ==> x == y) by (bit_vector);
    assert(be32_bytes(x)[0] == be32_bytes(y)[0]);
    assert(be32_bytes(x)[1] == be32_bytes(y)[1]);
    assert(be32_bytes(x)[2] == be32_bytes(y)[2]);
    assert(be32_bytes(x)[3] == be32_bytes(y)[3]);
}

/// Reads a 16-bit value big-endian from two bytes.
pub fn read_be16(b0: u8, b1: u8) -> (r: u16)
    ensures
        r == be16_of(b0, b1),
{
    (b0 as u16) << 8 | (b1 as u16)
}

/// Reads a 32-bit value big-endian from four bytes.
pub fn read_be32(b0: u8, b1: u8, b2: u8, b3: u8) -> (r: u32)
    ensures
        r == be32_of(b0, b1, b2, b3),
{
    (b0 as u32) << 24 | (b1 as u32) << 16 | (b2 as u32) << 8 | (b3 as u32)
}

/// Appends the big-endian bytes of a 16-bit value.
pub fn push_be16(out: &mut Vec<u8>, v: u16)
    ensures
        final(out)@ == old(out)@ + be16_bytes(v),
{
    out.push((v >> 8) as u8);
    out.push(v as u8);
    proof {
        assert(out@ =~= old(out)@ + be16_bytes(v));
    }
}

/// Appends the big-endian bytes of a 32-bit value.
pub fn push_be32(out: &mut Vec<u8>, v: u32)
    ensures
        final(out)@ == old(out)@ + be32_bytes(v),
{
    out.push((v >> 24) as u8);
    out.push((v >> 16) as u8);
    out.push((v >> 8) as u8);
    out.push(v as u8);
    proof {
        assert(out@ =~= old(out)@ + be32_bytes(v));
    }
}

/// Appends every byte of `src` to `out`, in order.
pub fn push_bytes(out: &mut Vec<u8>, src: &[u8])
    ensures
        final(out)@ == old(out)@ + src@,
{
    let mut i: usize = 0;
    while i < src.len()
        invariant
            i <= src@.len(),
            out@ == old(out)@ + src@.take(i as int),
        decreases src@.len() - i,
    {
        out.push(src[i]);
        i = i + 1;
        proof {
            assert(out@ =~= old(out)@ + src@.take(i as int));
        }
    }
    proof {
        assert(src@.take(src@.len() as int) =~= src@);
    }
}

} // verus!
