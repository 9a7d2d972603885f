//! Big-endian encoding and decoding of fixed-width integers.

use vstd::prelude::*;

verus! {

/// The high byte of a 16-bit integer in big-endian order.
pub open spec fn spec_u16_hi(n: u16) -> u8 {
    (n / 256) as u8
}

/// The low byte of a 16-bit integer in big-endian order.
pub open spec fn spec_u16_lo(n: u16) -> u8 {
    (n % 256) as u8
}

/// The two big-endian bytes of a 16-bit integer.
pub open spec fn spec_u16_be(n: u16) -> Seq<u8> {
    seq![spec_u16_hi(n), spec_u16_lo(n)]
}

/// The 16-bit integer two big-endian bytes denote.
pub open spec fn spec_u16_of_bytes(hi: u8, lo: u8) -> u16 {
    (hi * 256 + lo) as u16
}

/// The 32-bit integer four big-endian bytes denote.
pub open spec fn spec_u32_of_bytes(b0: u8, b1: u8, b2: u8, b3: u8) -> u32 {
    (b0 * 0x100_0000 + b1 * 0x1_0000 + b2 * 0x100 + b3) as u32
}

/// Splitting a 16-bit integer into its big-endian bytes and reassembling
/// them yields the integer back.
pub proof fn lemma_u16_be_round_trip(n: u16)
    ensures
        spec_u16_of_bytes(spec_u16_hi(n), spec_u16_lo(n)) == n,
{
    assert((n / 256) * 256 + n % 256 == n) by (nonlinear_arith);
}

/// Encodes a 16-bit integer as its two big-endian bytes.
pub fn u16_to_vec(num: &u16) -> (r: Vec<u8>)
    ensures
        r@ == spec_u16_be(*num),
{
    let n: u16 = *num;
    let hi: u8 = (n >> 8) as u8;
    let lo: u8 = (n & 0x00FF) as u8;
    proof {
        assert(hi == spec_u16_hi(n) && lo == spec_u16_lo(n)) by {
            assert((n >> 8) as u8 == (n / 256) as u8) by (bit_vector);
            assert((n & 0x00FF) as u8 == (n % 256) as u8) by (bit_vector);
        };
    }
    let mut r: Vec<u8> = Vec::new();
    r.push(hi);
    r.push(lo);
    proof {
        assert(r@ =~= spec_u16_be(*num));
    }
    r
}

/// Decodes two big-endian bytes into a 16-bit integer.
pub fn u16_from_be(hi: u8, lo: u8) -> (r: u16)
    ensures
        r == spec_u16_of_bytes(hi, lo),
{
    (hi as u16) * 256 + (lo as u16)
}

/// Decodes four big-endian bytes into a 32-bit integer.
pub fn u32_from_be(b0: u8, b1: u8, b2: u8, b3: u8) -> (r: u32)
    ensures
        r == spec_u32_of_bytes(b0, b1, b2, b3),
{
    (b0 as u32) * 0x100_0000 + (b1 as u32) * 0x1_0000 + (b2 as u32) * 0x100 + (b3 as u32)
}

} // verus!
