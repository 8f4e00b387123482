use subgraph_debug::block::mock_block_header;

fn hash_of_one() -> [u8; 32] {
    let mut h = [0u8; 32];
    h[31] = 1;
    h
}

#[test]
fn mock_block_hashes_are_the_hash_of_one() {
    let h = mock_block_header();
    assert_eq!(h.parent_hash, hash_of_one());
    assert_eq!(h.uncles_hash, hash_of_one());
    assert_eq!(h.state_root, hash_of_one());
    assert_eq!(h.transactions_root, hash_of_one());
    assert_eq!(h.receipts_root, hash_of_one());
    assert_eq!(h.uncles, vec![hash_of_one()]);
}

#[test]
fn mock_block_author_is_the_address_of_one() {
    let h = mock_block_header();
    let mut a = [0u8; 20];
    a[19] = 1;
    assert_eq!(h.author, a);
}

#[test]
fn mock_block_quantities_are_one() {
    let h = mock_block_header();
    assert_eq!(h.gas_used, [1u64, 0, 0, 0]);
    assert_eq!(h.gas_limit, [1u64, 0, 0, 0]);
    assert_eq!(h.timestamp, [1u64, 0, 0, 0]);
    assert_eq!(h.difficulty, [1u64, 0, 0, 0]);
}

#[test]
fn mock_block_extra_data_and_seal_fields() {
    let h = mock_block_header();
    assert!(h.extra_data.is_empty());
    assert_eq!(h.seal_fields, vec![Vec::<u8>::new()]);
}

#[test]
fn mock_block_leaves_optional_fields_absent() {
    let b = subgraph_debug::block::mock_block();
    assert!(b.hash.is_none());
    assert!(b.number.is_none());
    assert!(b.base_fee_per_gas.is_none());
    assert!(b.logs_bloom.is_none());
    assert!(b.total_difficulty.is_none());
    assert!(b.size.is_none());
    assert!(b.mix_hash.is_none());
    assert!(b.nonce.is_none());
    assert!(b.transaction_hashes.is_empty());
    assert_eq!(b.n_triggers, 0);
    assert_eq!(b.header.parent_hash, hash_of_one());
}
