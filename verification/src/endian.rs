//! Big-endian encodings of the multi-byte header integers, with verified
//! conversions in both directions and round-trip lemmas.

use vstd::prelude::*;
use vstd::seq_lib::*;

verus! {

/// The four bytes of a `u32` in big-endian order.
pub open spec fn spec_u32_to_be_bytes(x: u32) -> Seq<u8> {
    seq![
        ((x >> 24) & 0xff) as u8,
        ((x >> 16) & 0xff) as u8,
        ((x >> 8) & 0xff) as u8,
        (x & 0xff) as u8,
    ]
}

/// The `u32` read from four bytes in big-endian order.
pub open spec fn spec_u32_from_be_bytes(s: Seq<u8>) -> u32
    recommends
        s.len() == 4,
{
    (s[0] as u32) << 24 | (s[1] as u32) << 16 | (s[2] as u32) << 8 | (s[3] as u32)
}

/// The eight bytes of a `u64` in big-endian order.
pub open spec fn spec_u64_to_be_bytes(x: u64) -> Seq<u8> {
    seq![
        ((x >> 56) & 0xff) as u8,
        ((x >> 48) & 0xff) as u8,
        ((x >> 40) & 0xff) as u8,
        ((x >> 32) & 0xff) as u8,
        ((x >> 24) & 0xff) as u8,
        ((x >> 16) & 0xff) as u8,
        ((x >> 8) & 0xff) as u8,
        (x & 0xff) as u8,
    ]
}

/// The `u64` read from eight bytes in big-endian order.
pub open spec fn spec_u64_from_be_bytes(s: Seq<u8>) -> u64
    recommends
        s.len() == 8,
{
    (s[0] as u64) << 56 | (s[1] as u64) << 48 | (s[2] as u64) << 40 | (s[3] as u64) << 32
        | (s[4] as u64) << 24 | (s[5] as u64) << 16 | (s[6] as u64) << 8 | (s[7] as u64)
}

/// Reading back the big-endian bytes of a `u32` gives the same number,
/// and re-encoding the number read from four bytes gives the same bytes.
pub proof fn lemma_u32_be_bytes_round_trip()
    ensures
        forall|x: u32| spec_u32_from_be_bytes(#[trigger] spec_u32_to_be_bytes(x)) == x,
        forall|s: Seq<u8>|
            s.len() == 4 ==> spec_u32_to_be_bytes(#[trigger] spec_u32_from_be_bytes(s)) == s,
{
    assert forall|x: u32| spec_u32_from_be_bytes(#[trigger] spec_u32_to_be_bytes(x)) == x by {
        let s = spec_u32_to_be_bytes(x);
        assert((((x >> 24) & 0xff) as u8 as u32) << 24 | (((x >> 16) & 0xff) as u8 as u32) << 16
            | (((x >> 8) & 0xff) as u8 as u32) << 8 | ((x & 0xff) as u8 as u32) == x)
            by (bit_vector);
    }
    assert forall|s: Seq<u8>|
        s.len() == 4 implies spec_u32_to_be_bytes(#[trigger] spec_u32_from_be_bytes(s)) == s by {
        let x = spec_u32_from_be_bytes(s);
        let b0 = s[0];
        let b1 = s[1];
        let b2 = s[2];
        let b3 = s[3];
        let y = (b0 as u32) << 24 | (b1 as u32) << 16 | (b2 as u32) << 8 | (b3 as u32);
        assert(((y >> 24) & 0xff) as u8 == b0 && ((y >> 16) & 0xff) as u8 == b1 && ((y >> 8)
            & 0xff) as u8 == b2 && (y & 0xff) as u8 == b3) by (bit_vector)
            requires
                y == (b0 as u32) << 24 | (b1 as u32) << 16 | (b2 as u32) << 8 | (b3 as u32),
        ;
        assert_seqs_equal!(spec_u32_to_be_bytes(spec_u32_from_be_bytes(s)) == s);
    }
}

/// Reading back the big-endian bytes of a `u64` gives the same number,
/// and re-encoding the number read from eight bytes gives the same bytes.
pub proof fn lemma_u64_be_bytes_round_trip()
    ensures
        forall|x: u64| spec_u64_from_be_bytes(#[trigger] spec_u64_to_be_bytes(x)) == x,
        forall|s: Seq<u8>|
            s.len() == 8 ==> spec_u64_to_be_bytes(#[trigger] spec_u64_from_be_bytes(s)) == s,
{
    assert forall|x: u64| spec_u64_from_be_bytes(#[trigger] spec_u64_to_be_bytes(x)) == x by {
        assert((((x >> 56) & 0xff) as u8 as u64) << 56 | (((x >> 48) & 0xff) as u8 as u64) << 48
            | (((x >> 40) & 0xff) as u8 as u64) << 40 | (((x >> 32) & 0xff) as u8 as u64) << 32
            | (((x >> 24) & 0xff) as u8 as u64) << 24 | (((x >> 16) & 0xff) as u8 as u64) << 16
            | (((x >> 8) & 0xff) as u8 as u64) << 8 | ((x & 0xff) as u8 as u64) == x)
            by (bit_vector);
    }
    assert forall|s: Seq<u8>|
        s.len() == 8 implies spec_u64_to_be_bytes(#[trigger] spec_u64_from_be_bytes(s)) == s by {
        let b0 = s[0];
        let b1 = s[1];
        let b2 = s[2];
        let b3 = s[3];
        let b4 = s[4];
        let b5 = s[5];
        let b6 = s[6];
        let b7 = s[7];
        let y = (b0 as u64) << 56 | (b1 as u64) << 48 | (b2 as u64) << 40 | (b3 as u64) << 32 | (
        b4 as u64) << 24 | (b5 as u64) << 16 | (b6 as u64) << 8 | (b7 as u64);
        assert(((y >> 56) & 0xff) as u8 == b0 && ((y >> 48) & 0xff) as u8 == b1 && ((y >> 40)
            & 0xff) as u8 == b2 && ((y >> 32) & 0xff) as u8 == b3 && ((y >> 24) & 0xff) as u8 == b4
            && ((y >> 16) & 0xff) as u8 == b5 && ((y >> 8) & 0xff) as u8 == b6 && (y
            & 0xff) as u8 == b7) by (bit_vector)
            requires
                y == (b0 as u64) << 56 | (b1 as u64) << 48 | (b2 as u64) << 40 | (b3 as u64) << 32
                    | (b4 as u64) << 24 | (b5 as u64) << 16 | (b6 as u64) << 8 | (b7 as u64),
        ;
        assert_seqs_equal!(spec_u64_to_be_bytes(spec_u64_from_be_bytes(s)) == s);
    }
}

/// Append the big-endian bytes of a `u32` to a buffer.
pub fn push_u32_be(buf: &mut Vec<u8>, x: u32)
    ensures
        final(buf)@ == old(buf)@ + spec_u32_to_be_bytes(x),
{
    buf.push(((x >> 24) & 0xff) as u8);
    buf.push(((x >> 16) & 0xff) as u8);
    buf.push(((x >> 8) & 0xff) as u8);
    buf.push((x & 0xff) as u8);
    proof {
        assert(buf@ =~= old(buf)@ + spec_u32_to_be_bytes(x));
    }
}

/// Append the big-endian bytes of a `u64` to a buffer.
pub fn push_u64_be(buf: &mut Vec<u8>, x: u64)
    ensures
        final(buf)@ == old(buf)@ + spec_u64_to_be_bytes(x),
{
    buf.push(((x >> 56) & 0xff) as u8);
    buf.push(((x >> 48) & 0xff) as u8);
    buf.push(((x >> 40) & 0xff) as u8);
    buf.push(((x >> 32) & 0xff) as u8);
    buf.push(((x >> 24) & 0xff) as u8);
    buf.push(((x >> 16) & 0xff) as u8);
    buf.push(((x >> 8) & 0xff) as u8);
    buf.push((x & 0xff) as u8);
    proof {
        assert(buf@ =~= old(buf)@ + spec_u64_to_be_bytes(x));
    }
}

/// Read a big-endian `u32` from four bytes of a slice.
pub fn read_u32_be(bytes: &[u8], offset: usize) -> (r: u32)
    requires
        offset + 4 <= bytes@.len(),
    ensures
        r == spec_u32_from_be_bytes(bytes@.subrange(offset as int, offset as int + 4)),
{
    let b0 = bytes[offset];
    let b1 = bytes[offset + 1];
    let b2 = bytes[offset + 2];
    let b3 = bytes[offset + 3];
    (b0 as u32) << 24 | (b1 as u32) << 16 | (b2 as u32) << 8 | (b3 as u32)
}

/// Read a big-endian `u64` from eight bytes of a slice.
pub fn read_u64_be(bytes: &[u8], offset: usize) -> (r: u64)
    requires
        offset + 8 <= bytes@.len(),
    ensures
        r == spec_u64_from_be_bytes(bytes@.subrange(offset as int, offset as int + 8)),
{
    let b0 = bytes[offset];
    let b1 = bytes[offset + 1];
    let b2 = bytes[offset + 2];
    let b3 = bytes[offset + 3];
    let b4 = bytes[offset + 4];
    let b5 = bytes[offset + 5];
    let b6 = bytes[offset + 6];
    let b7 = bytes[offset + 7];
    (b0 as u64) << 56 | (b1 as u64) << 48 | (b2 as u64) << 40 | (b3 as u64) << 32 | (b4 as u64)
        << 24 | (b5 as u64) << 16 | (b6 as u64) << 8 | (b7 as u64)
}

} // verus!
