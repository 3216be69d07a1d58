use incomplete_block::{
    smallest_block_size_for_chunks, try_smallest_block_size_for_chunks, AccountId, BlockNumber,
    ExecutedOperations, IncompleteBlock, U256, ZkSyncOp,
};

fn op(chunks: usize) -> ExecutedOperations {
    ExecutedOperations::OnChain(ZkSyncOp { chunks })
}

fn build(transactions: Vec<ExecutedOperations>, sizes: &[usize]) -> IncompleteBlock {
    IncompleteBlock::new_from_available_block_sizes(
        BlockNumber(1),
        AccountId(2),
        transactions,
        (10, 12),
        sizes,
        U256::from_u64(4_000_000),
        U256::from_u64(2_000_000),
        1_431_648_000,
    )
}

#[test]
fn selects_smallest_fitting_tier() {
    // 12 + 20 + 5 = 37 chunks; the smallest tier of [10, 50, 100] that fits is 50.
    let block = build(vec![op(12), op(20), op(5)], &[10, 50, 100]);
    assert_eq!(block.block_chunks_size, 50);
}

#[test]
fn empty_payload_selects_smallest_tier() {
    let block = build(vec![], &[10, 50, 100]);
    assert_eq!(block.block_chunks_size, 10);
}

#[test]
fn noop_payload_uses_zero_chunks_and_selects_smallest_tier() {
    let block = build(
        vec![ExecutedOperations::NoOp, ExecutedOperations::NoOp],
        &[10, 50, 100],
    );
    assert_eq!(block.chunks_used(), 0);
    assert_eq!(block.block_chunks_size, 10);
}

#[test]
fn chunks_used_sums_only_wrapped_operations() {
    let block = build(
        vec![op(5), ExecutedOperations::NoOp, op(7), ExecutedOperations::NoOp, op(1)],
        &[100],
    );
    assert_eq!(block.chunks_used(), 13);
    assert_eq!(block.block_chunks_size, 100);
}

#[test]
fn oversized_payload_has_no_tier() {
    // 120 chunks cannot fit: the largest supported tier is only 50.
    assert_eq!(try_smallest_block_size_for_chunks(120, &[10, 50]), None);
}

#[test]
fn tier_boundaries_are_inclusive() {
    assert_eq!(smallest_block_size_for_chunks(10, &[10, 50]), 10);
    assert_eq!(smallest_block_size_for_chunks(11, &[10, 50]), 50);
    assert_eq!(smallest_block_size_for_chunks(0, &[10]), 10);
    assert_eq!(try_smallest_block_size_for_chunks(37, &[10, 50, 100]), Some(50));
    assert_eq!(try_smallest_block_size_for_chunks(51, &[10, 50]), None);
}

#[test]
fn direct_construction_keeps_supplied_capacity() {
    // Ten operations of 5 chunks each, far more than the declared capacity
    // of 1: direct construction stores the caller's capacity unchecked.
    let transactions: Vec<ExecutedOperations> = (0..10).map(|_| op(5)).collect();
    let block = IncompleteBlock::new(
        BlockNumber(9),
        AccountId(7),
        transactions,
        (3, 8),
        1,
        U256::from_u64(11),
        U256::from_u64(22),
        777,
    );
    assert_eq!(block.block_chunks_size, 1);
    assert_eq!(block.chunks_used(), 50);
    assert_eq!(block.block_number, BlockNumber(9));
    assert_eq!(block.fee_account, AccountId(7));
    assert_eq!(block.processed_priority_ops, (3, 8));
    assert_eq!(block.commit_gas_limit, U256::from_u64(11));
    assert_eq!(block.verify_gas_limit, U256::from_u64(22));
    assert_eq!(block.timestamp, 777);
}

#[test]
fn sized_construction_preserves_payload_and_metadata() {
    let block = build(vec![op(3), ExecutedOperations::NoOp, op(4)], &[5, 8, 20]);
    assert_eq!(block.block_chunks_size, 8);
    assert_eq!(block.block_number, BlockNumber(1));
    assert_eq!(block.fee_account, AccountId(2));
    assert_eq!(
        block.block_transactions,
        vec![op(3), ExecutedOperations::NoOp, op(4)]
    );
    assert_eq!(block.processed_priority_ops, (10, 12));
    assert_eq!(block.commit_gas_limit, U256::from_u64(4_000_000));
    assert_eq!(block.verify_gas_limit, U256::from_u64(2_000_000));
    assert_eq!(block.timestamp, 1_431_648_000);
}

#[test]
fn clone_preserves_every_field() {
    let block = build(vec![op(12), op(20), op(5)], &[10, 50, 100]);
    let copy = block.clone();
    assert_eq!(copy, block);
}

#[test]
fn get_executed_op_distinguishes_placeholders() {
    assert_eq!(ExecutedOperations::NoOp.get_executed_op(), None);
    let wrapped = op(5);
    assert_eq!(wrapped.get_executed_op(), Some(&ZkSyncOp { chunks: 5 }));
    assert_eq!(ZkSyncOp { chunks: 5 }.chunks(), 5);
}

#[test]
fn u256_from_u64_fills_low_limb() {
    let v = U256::from_u64(123);
    assert_eq!(v.limbs, [123, 0, 0, 0]);
}
