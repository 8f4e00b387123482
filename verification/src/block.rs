//! The mock block that the harness hands to the indexer.

use vstd::prelude::*;
use crate::eth::{address_from_low_u64_be, hash_from_low_u64_be, low_u64_be_bytes, uint_one, uint_one_limbs};

verus! {

/// The header values that the mock block sets, as plain bytes and limbs.
pub struct MockBlockHeader {
    pub parent_hash: [u8; 32],
    pub uncles_hash: [u8; 32],
    pub author: [u8; 20],
    pub state_root: [u8; 32],
    pub transactions_root: [u8; 32],
    pub receipts_root: [u8; 32],
    /// Little-endian 64-bit limbs of a 256-bit integer.
    pub gas_used: [u64; 4],
    /// Little-endian 64-bit limbs of a 256-bit integer.
    pub gas_limit: [u64; 4],
    pub extra_data: Vec<u8>,
    /// Little-endian 64-bit limbs of a 256-bit integer.
    pub timestamp: [u64; 4],
    /// Little-endian 64-bit limbs of a 256-bit integer.
    pub difficulty: [u64; 4],
    pub seal_fields: Vec<Vec<u8>>,
    pub uncles: Vec<[u8; 32]>,
}

/// What the harness puts in each hash, root and address field.
pub open spec fn mock_hash() -> Seq<u8> {
    low_u64_be_bytes(1, 32)
}

/// The header that [`mock_block_header`] builds: every hash and root is the
/// hash of the integer 1, the author is the address of 1, every 256-bit
/// quantity is one, the extra data is empty, there is one empty seal field
/// and one uncle, whose hash is again the hash of 1.
pub open spec fn is_mock_header(h: MockBlockHeader) -> bool {
    &&& h.parent_hash@ == mock_hash()
    &&& h.uncles_hash@ == mock_hash()
    &&& h.author@ == low_u64_be_bytes(1, 20)
    &&& h.state_root@ == mock_hash()
    &&& h.transactions_root@ == mock_hash()
    &&& h.receipts_root@ == mock_hash()
    &&& h.gas_used@ == uint_one_limbs()
    &&& h.gas_limit@ == uint_one_limbs()
    &&& h.extra_data@ == Seq::<u8>::empty()
    &&& h.timestamp@ == uint_one_limbs()
    &&& h.difficulty@ == uint_one_limbs()
    &&& h.seal_fields@.len() == 1
    &&& h.seal_fields@[0]@ == Seq::<u8>::empty()
    &&& h.uncles@.len() == 1
    &&& h.uncles@[0]@ == mock_hash()
}

/// Builds the header of the mock block.
pub fn mock_block_header() -> (h: MockBlockHeader)
    ensures
        is_mock_header(h),
{
    let mut seal_fields: Vec<Vec<u8>> = Vec::new();
    seal_fields.push(Vec::new());
    let mut uncles: Vec<[u8; 32]> = Vec::new();
    uncles.push(hash_from_low_u64_be(1));
    MockBlockHeader {
        parent_hash: hash_from_low_u64_be(1),
        uncles_hash: hash_from_low_u64_be(1),
        author: address_from_low_u64_be(1),
        state_root: hash_from_low_u64_be(1),
        transactions_root: hash_from_low_u64_be(1),
        receipts_root: hash_from_low_u64_be(1),
        gas_used: uint_one(),
        gas_limit: uint_one(),
        extra_data: Vec::new(),
        timestamp: uint_one(),
        difficulty: uint_one(),
        seal_fields,
        uncles,
    }
}

/// The whole mock block as the indexer gets it: its header values, the
/// header fields that it leaves absent, its transactions and the triggers
/// it is handed over with (of which there are none).
pub struct MockBlock {
    pub header: MockBlockHeader,
    pub hash: Option<[u8; 32]>,
    pub number: Option<u64>,
    /// Little-endian 64-bit limbs of a 256-bit integer.
    pub base_fee_per_gas: Option<[u64; 4]>,
    pub logs_bloom: Option<[u8; 256]>,
    /// Little-endian 64-bit limbs of a 256-bit integer.
    pub total_difficulty: Option<[u64; 4]>,
    /// Little-endian 64-bit limbs of a 256-bit integer.
    pub size: Option<[u64; 4]>,
    pub mix_hash: Option<[u8; 32]>,
    pub nonce: Option<[u8; 8]>,
    /// Hashes of the block's transactions.
    pub transaction_hashes: Vec<[u8; 32]>,
    /// Number of triggers that come with the block.
    pub n_triggers: usize,
}

/// The block that [`mock_block`] builds: the mock header, no hash, number,
/// base fee, logs bloom, total difficulty, size, mix hash or nonce, no
/// transactions and no triggers.
pub open spec fn is_mock_block(b: MockBlock) -> bool {
    &&& is_mock_header(b.header)
    &&& b.hash is None
    &&& b.number is None
    &&& b.base_fee_per_gas is None
    &&& b.logs_bloom is None
    &&& b.total_difficulty is None
    &&& b.size is None
    &&& b.mix_hash is None
    &&& b.nonce is None
    &&& b.transaction_hashes@.len() == 0
    &&& b.n_triggers == 0
}

/// Builds the mock block.
pub fn mock_block() -> (b: MockBlock)
    ensures
        is_mock_block(b),
        is_mock_header(b.header),
{
    MockBlock {
        header: mock_block_header(),
        hash: None,
        number: None,
        base_fee_per_gas: None,
        logs_bloom: None,
        total_difficulty: None,
        size: None,
        mix_hash: None,
        nonce: None,
        transaction_hashes: Vec::new(),
        n_triggers: 0,
    }
}

/// Two headers that are each the mock header agree on every value.
pub open spec fn same_header(a: MockBlockHeader, b: MockBlockHeader) -> bool {
    &&& a.parent_hash@ == b.parent_hash@
    &&& a.uncles_hash@ == b.uncles_hash@
    &&& a.author@ == b.author@
    &&& a.state_root@ == b.state_root@
    &&& a.transactions_root@ == b.transactions_root@
    &&& a.receipts_root@ == b.receipts_root@
    &&& a.gas_used@ == b.gas_used@
    &&& a.gas_limit@ == b.gas_limit@
    &&& a.extra_data@ == b.extra_data@
    &&& a.timestamp@ == b.timestamp@
    &&& a.difficulty@ == b.difficulty@
    &&& a.seal_fields@.len() == b.seal_fields@.len()
    &&& forall|i: int| 0 <= i < a.seal_fields@.len() ==> (#[trigger] a.seal_fields@[i])@ == b.seal_fields@[i]@
    &&& a.uncles@.len() == b.uncles@.len()
    &&& forall|i: int| 0 <= i < a.uncles@.len() ==> (#[trigger] a.uncles@[i])@ == b.uncles@[i]@
}

/// The block that [`mock_block`] builds carries exactly the header that
/// [`mock_block_header`] builds: every value the same, and in particular one
/// uncle, the hash of 1, as parent, uncle, state, transactions and receipts
/// hash.
pub proof fn lemma_mock_block_carries_mock_header(b: MockBlock, h: MockBlockHeader)
    requires
        is_mock_block(b),
        is_mock_header(h),
    ensures
        same_header(b.header, h),
        b.header.uncles@.len() == 1,
        b.header.uncles@[0]@ == Seq::new(32, |i: int| if i == 31 { 1u8 } else { 0u8 }),
        b.header.parent_hash@ == Seq::new(32, |i: int| if i == 31 { 1u8 } else { 0u8 }),
{
    crate::eth::lemma_hash_of_one();
}

/// Every hash and root of the mock header is 31 zero bytes and then the byte
/// 1, its author 19 zero bytes and then 1, and its one uncle the same hash.
pub proof fn lemma_mock_header_bytes(h: MockBlockHeader)
    requires
        is_mock_header(h),
    ensures
        h.parent_hash@ == Seq::new(32, |i: int| if i == 31 { 1u8 } else { 0u8 }),
        h.uncles_hash@ == Seq::new(32, |i: int| if i == 31 { 1u8 } else { 0u8 }),
        h.state_root@ == Seq::new(32, |i: int| if i == 31 { 1u8 } else { 0u8 }),
        h.transactions_root@ == Seq::new(32, |i: int| if i == 31 { 1u8 } else { 0u8 }),
        h.receipts_root@ == Seq::new(32, |i: int| if i == 31 { 1u8 } else { 0u8 }),
        h.uncles@.len() == 1,
        h.uncles@[0]@ == Seq::new(32, |i: int| if i == 31 { 1u8 } else { 0u8 }),
        h.author@ == Seq::new(20, |i: int| if i == 19 { 1u8 } else { 0u8 }),
{
    crate::eth::lemma_hash_of_one();
    crate::eth::lemma_address_of_one();
}

} // verus!
