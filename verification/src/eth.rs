//! Fixed-size Ethereum values (hashes, addresses, 256-bit integers), taken
//! from `ethereum-types` through the re-exports of `ethabi`.

use vstd::prelude::*;

verus! {

/// Byte `k` (0 = most significant) of the big-endian encoding of `v`.
pub open spec fn be_byte(v: u64, k: int) -> u8
    recommends
        0 <= k < 8,
{
    ((v >> ((7 - k) * 8) as u64) & 0xffu64) as u8
}

/// The `width` bytes of a fixed-size hash built from `v`: the big-endian
/// encoding of `v` in the last eight bytes, zeros before them.
pub open spec fn low_u64_be_bytes(v: u64, width: nat) -> Seq<u8>
    recommends
        width >= 8,
{
    Seq::new(width, |i: int| if i < width - 8 { 0u8 } else { be_byte(v, i - (width - 8)) })
}

/// The little-endian 64-bit limbs of the 256-bit integer one.
pub open spec fn uint_one_limbs() -> Seq<u64> {
    seq![1u64, 0u64, 0u64, 0u64]
}

/// `H256::from_low_u64_be` of `ethereum-types` (as `ethabi::Hash`): a 32-byte
/// hash whose last eight bytes are `v` in big-endian order and whose first
/// 24 bytes are zero.
#[verifier::external_body]
pub(crate) fn hash_from_low_u64_be(v: u64) -> (res: [u8; 32])
    ensures
        res@ == low_u64_be_bytes(v, 32),
{
    ethabi::Hash::from_low_u64_be(v).0
}

/// `H160::from_low_u64_be` of `ethereum-types` (as `ethabi::Address`): a
/// 20-byte address whose last eight bytes are `v` in big-endian order and
/// whose first 12 bytes are zero.
#[verifier::external_body]
pub(crate) fn address_from_low_u64_be(v: u64) -> (res: [u8; 20])
    ensures
        res@ == low_u64_be_bytes(v, 20),
{
    ethabi::Address::from_low_u64_be(v).0
}

/// `U256::one` of `ethereum-types` (as `ethabi::Uint`): its four
/// little-endian limbs are 1, 0, 0, 0.
#[verifier::external_body]
pub(crate) fn uint_one() -> (res: [u64; 4])
    ensures
        res@ == uint_one_limbs(),
{
    ethabi::Uint::one().0
}

/// The 32-byte hash of the integer 1: 31 zero bytes, then the byte 1.
pub proof fn lemma_hash_of_one()
    ensures
        low_u64_be_bytes(1, 32) == Seq::new(32, |i: int| if i == 31 { 1u8 } else { 0u8 }),
{
    assert(forall|s: u64| 8 <= s && s < 64 ==> (1u64 >> s) & 0xffu64 == 0u64) by (bit_vector);
    assert((1u64 >> 0u64) & 0xffu64 == 1u64) by (bit_vector);
    assert forall|k: int| 0 <= k < 8 implies be_byte(1, k) == (if k == 7 { 1u8 } else { 0u8 }) by {
        let s: u64 = ((7 - k) * 8) as u64;
        if k < 7 {
            assert(8 <= s && s < 64);
        }
    }
    assert(low_u64_be_bytes(1, 32) =~= Seq::new(32, |i: int| if i == 31 { 1u8 } else { 0u8 }));
}

/// The 20-byte address of the integer 1: 19 zero bytes, then the byte 1.
pub proof fn lemma_address_of_one()
    ensures
        low_u64_be_bytes(1, 20) == Seq::new(20, |i: int| if i == 19 { 1u8 } else { 0u8 }),
{
    assert(forall|s: u64| 8 <= s && s < 64 ==> (1u64 >> s) & 0xffu64 == 0u64) by (bit_vector);
    assert((1u64 >> 0u64) & 0xffu64 == 1u64) by (bit_vector);
    assert forall|k: int| 0 <= k < 8 implies be_byte(1, k) == (if k == 7 { 1u8 } else { 0u8 }) by {
        let s: u64 = ((7 - k) * 8) as u64;
        if k < 7 {
            assert(8 <= s && s < 64);
        }
    }
    assert(low_u64_be_bytes(1, 20) =~= Seq::new(20, |i: int| if i == 19 { 1u8 } else { 0u8 }));
}

} // verus!
