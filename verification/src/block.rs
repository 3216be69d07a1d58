//! The sealed, but not yet finalized, block: identity, payload, declared
//! on-chain capacity, and the two construction paths.

use vstd::prelude::*;

use crate::sizing::{
    first_fit, has_fit, lemma_first_fit_is_a_fit, lemma_zero_usage_selects_first,
    smallest_block_size_for_chunks,
};
use crate::types::{
    chunks_used_of, lemma_noop_ops_use_no_chunks, op_chunks, AccountId, BlockNumber,
    ExecutedOperations, U256,
};

verus! {

/// A sealed block: its transaction set is final, but the cryptographic
/// commitment (root hash) has not been computed yet. The value is immutable
/// once returned by a constructor.
#[derive(Debug, PartialEq)]
pub struct IncompleteBlock {
    /// Block ID: the position of this block in the chain of blocks.
    pub block_number: BlockNumber,
    /// ID of the account to which the fees collected in this block go.
    pub fee_account: AccountId,
    /// Every operation executed in the block, in execution order. The order
    /// is commitment-relevant and is preserved exactly.
    pub block_transactions: Vec<ExecutedOperations>,
    /// IDs of the first unprocessed priority operation before and after this
    /// block.
    pub processed_priority_ops: (u64, u64),
    /// The on-chain capacity, in chunks, that this block will be committed
    /// under. The size-inferred constructor picks the smallest supported
    /// capacity that holds the payload; the direct constructor stores the
    /// caller's choice unchecked.
    pub block_chunks_size: usize,
    /// Gas ceiling for the future commit transaction; passed through opaquely.
    pub commit_gas_limit: U256,
    /// Gas ceiling for the future verify transaction; passed through opaquely.
    pub verify_gas_limit: U256,
    /// Sealing time, in unix seconds.
    pub timestamp: u64,
}

/// Law (all-placeholder payload): a payload of placeholder operations only
/// uses zero chunks, so size-inferred selection over a non-empty tier list
/// picks the list's first tier.
pub proof fn lemma_noop_payload_selects_smallest_tier(
    ops: Seq<ExecutedOperations>,
    sizes: Seq<usize>,
)
    requires
        forall|i: int| 0 <= i < ops.len() ==> ops[i] is NoOp,
        sizes.len() > 0,
    ensures
        chunks_used_of(ops) == 0,
        has_fit(chunks_used_of(ops) as int, sizes),
        first_fit(chunks_used_of(ops) as int, sizes) == sizes[0],
{
    lemma_noop_ops_use_no_chunks(ops);
    lemma_zero_usage_selects_first(sizes);
}

impl Clone for IncompleteBlock {
    /// An exact copy of the block: every field is preserved, the payload
    /// element for element.
    fn clone(&self) -> (r: Self)
        ensures
            r.block_number == self.block_number,
            r.fee_account == self.fee_account,
            r.block_transactions@ == self.block_transactions@,
            r.processed_priority_ops == self.processed_priority_ops,
            r.block_chunks_size == self.block_chunks_size,
            r.commit_gas_limit == self.commit_gas_limit,
            r.verify_gas_limit == self.verify_gas_limit,
            r.timestamp == self.timestamp,
    {
        let r = Self {
            block_number: self.block_number,
            fee_account: self.fee_account,
            block_transactions: self.block_transactions.clone(),
            processed_priority_ops: self.processed_priority_ops,
            block_chunks_size: self.block_chunks_size,
            commit_gas_limit: self.commit_gas_limit,
            verify_gas_limit: self.verify_gas_limit,
            timestamp: self.timestamp,
        };
        proof {
            assert(r.block_transactions@ =~= self.block_transactions@);
        }
        r
    }
}

impl IncompleteBlock {
    /// Total chunk usage of this block's payload.
    pub open spec fn spec_chunks_used(&self) -> nat {
        chunks_used_of(self.block_transactions@)
    }

    /// Creates a sealed block from an already-decided capacity. No validation
    /// is performed on any input: the caller-supplied capacity is stored
    /// unchanged even when it is smaller than the payload's actual usage.
    pub fn new(
        block_number: BlockNumber,
        fee_account: AccountId,
        block_transactions: Vec<ExecutedOperations>,
        processed_priority_ops: (u64, u64),
        block_chunks_size: usize,
        commit_gas_limit: U256,
        verify_gas_limit: U256,
        timestamp: u64,
    ) -> (r: Self)
        ensures
            r.block_number == block_number,
            r.fee_account == fee_account,
            r.block_transactions == block_transactions,
            r.processed_priority_ops == processed_priority_ops,
            r.block_chunks_size == block_chunks_size,
            r.commit_gas_limit == commit_gas_limit,
            r.verify_gas_limit == verify_gas_limit,
            r.timestamp == timestamp,
    {
        Self {
            block_number,
            fee_account,
            block_transactions,
            processed_priority_ops,
            block_chunks_size,
            commit_gas_limit,
            verify_gas_limit,
            timestamp,
        }
    }

    /// Creates a sealed block, choosing the smallest supported capacity that
    /// holds all the executed operations. The supported capacities must offer
    /// at least one tier that holds the payload; the process-fatal no-fit
    /// case is reported by [`crate::sizing::try_smallest_block_size_for_chunks`].
    pub fn new_from_available_block_sizes(
        block_number: BlockNumber,
        fee_account: AccountId,
        block_transactions: Vec<ExecutedOperations>,
        processed_priority_ops: (u64, u64),
        available_block_chunks_sizes: &[usize],
        commit_gas_limit: U256,
        verify_gas_limit: U256,
        timestamp: u64,
    ) -> (r: Self)
        requires
            chunks_used_of(block_transactions@) <= usize::MAX,
            has_fit(chunks_used_of(block_transactions@) as int, available_block_chunks_sizes@),
        ensures
            r.block_number == block_number,
            r.fee_account == fee_account,
            r.block_transactions == block_transactions,
            r.processed_priority_ops == processed_priority_ops,
            r.block_chunks_size == first_fit(
                chunks_used_of(block_transactions@) as int,
                available_block_chunks_sizes@,
            ),
            r.block_chunks_size >= r.spec_chunks_used(),
            r.commit_gas_limit == commit_gas_limit,
            r.verify_gas_limit == verify_gas_limit,
            r.timestamp == timestamp,
    {
        let mut block = Self {
            block_number,
            fee_account,
            block_transactions,
            processed_priority_ops,
            block_chunks_size: 0,
            commit_gas_limit,
            verify_gas_limit,
            timestamp,
        };
        block.block_chunks_size = block.smallest_block_size(available_block_chunks_sizes);
        proof {
            lemma_first_fit_is_a_fit(
                block.spec_chunks_used() as int,
                available_block_chunks_sizes@,
            );
        }
        block
    }

    /// Total chunk usage of this block's payload, as an executable sum.
    pub fn chunks_used(&self) -> (r: usize)
        requires
            self.spec_chunks_used() <= usize::MAX,
        ensures
            r == self.spec_chunks_used(),
    {
        let ops = &self.block_transactions;
        let n = ops.len();
        let mut total: usize = 0;
        let mut k: usize = 0;
        proof {
            assert(ops@.skip(0) =~= ops@);
        }
        while k < n
            invariant
                0 <= k <= n,
                n == ops@.len(),
                chunks_used_of(ops@) <= usize::MAX,
                total + chunks_used_of(ops@.skip(k as int)) == chunks_used_of(ops@),
            decreases n - k,
        {
            proof {
                assert(ops@.skip(k as int).drop_first() =~= ops@.skip(k as int + 1));
                assert(chunks_used_of(ops@.skip(k as int)) == op_chunks(ops@[k as int])
                    + chunks_used_of(ops@.skip(k as int + 1)));
            }
            match ops[k].get_executed_op() {
                Some(op) => {
                    total = total + op.chunks();
                },
                None => {},
            }
            k = k + 1;
        }
        proof {
            assert(ops@.skip(n as int) =~= Seq::<ExecutedOperations>::empty());
        }
        total
    }

    /// The smallest supported capacity that holds this block's payload.
    fn smallest_block_size(&self, available_block_sizes: &[usize]) -> (r: usize)
        requires
            self.spec_chunks_used() <= usize::MAX,
            has_fit(self.spec_chunks_used() as int, available_block_sizes@),
        ensures
            r == first_fit(self.spec_chunks_used() as int, available_block_sizes@),
    {
        let chunks_used = self.chunks_used();
        smallest_block_size_for_chunks(chunks_used, available_block_sizes)
    }
}

} // verus!
