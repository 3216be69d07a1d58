//! Plain value types that make up a sealed block's payload and identity.

use vstd::prelude::*;

verus! {

/// Position of a block in the chain of blocks, assigned by the sequencer.
#[derive(Clone, Copy, Debug, PartialEq, Eq, Structural)]
pub struct BlockNumber(pub u32);

/// Identifier of the account credited with the fees collected in a block.
#[derive(Clone, Copy, Debug, PartialEq, Eq, Structural)]
pub struct AccountId(pub u32);

/// A 256-bit unsigned integer, carried opaquely as four 64-bit limbs in
/// little-endian order. The block only passes these values through; it never
/// computes with them.
#[derive(Clone, Copy, Debug, PartialEq, Eq)]
pub struct U256 {
    /// The limbs, least significant first.
    pub limbs: [u64; 4],
}

impl U256 {
    /// The value `v` widened to 256 bits: low limb `v`, high limbs zero.
    pub fn from_u64(v: u64) -> (r: U256)
        ensures
            r == (U256 { limbs: [v, 0u64, 0u64, 0u64] }),
    {
        U256 { limbs: [v, 0, 0, 0] }
    }
}

/// A concrete on-chain operation. How many chunks an operation costs is
/// decided by an external per-operation-kind table; this model only reads
/// the resulting cost.
#[derive(Clone, Copy, Debug, PartialEq, Eq, Structural)]
pub struct ZkSyncOp {
    /// On-chain verification cost of this operation, in chunks.
    pub chunks: usize,
}

impl ZkSyncOp {
    /// Chunk cost of this operation.
    pub fn chunks(&self) -> (r: usize)
        ensures
            r == self.chunks,
    {
        self.chunks
    }
}

/// An operation included in a sealed block, in execution order: either a
/// placeholder that carries no on-chain operation record (and so contributes
/// no chunks), or a wrapper around a concrete on-chain operation.
#[derive(Clone, Copy, Debug, PartialEq, Eq, Structural)]
pub enum ExecutedOperations {
    /// A priority operation placeholder with no wrapped on-chain record.
    NoOp,
    /// A wrapped concrete on-chain operation.
    OnChain(ZkSyncOp),
}

impl ExecutedOperations {
    /// The wrapped on-chain operation, if this operation carries one.
    pub fn get_executed_op(&self) -> (r: Option<&ZkSyncOp>)
        ensures
            match *self {
                ExecutedOperations::NoOp => r is None,
                ExecutedOperations::OnChain(op) => r is Some && *r->0 == op,
            },
    {
        match self {
            ExecutedOperations::NoOp => None,
            ExecutedOperations::OnChain(op) => Some(op),
        }
    }
}

/// Chunk cost that a single operation contributes to its block: zero for a
/// placeholder, the wrapped operation's cost otherwise.
pub open spec fn op_chunks(op: ExecutedOperations) -> nat {
    match op {
        ExecutedOperations::NoOp => 0,
        ExecutedOperations::OnChain(z) => z.chunks as nat,
    }
}

/// Total chunk usage of an operation sequence: the sum of the chunk costs of
/// every wrapped on-chain operation in it.
pub open spec fn chunks_used_of(ops: Seq<ExecutedOperations>) -> nat
    decreases ops.len(),
{
    if ops.len() == 0 {
        0
    } else {
        op_chunks(ops[0]) + chunks_used_of(ops.drop_first())
    }
}

/// A sequence of placeholder operations uses no chunks at all.
pub proof fn lemma_noop_ops_use_no_chunks(ops: Seq<ExecutedOperations>)
    requires
        forall|i: int| 0 <= i < ops.len() ==> ops[i] is NoOp,
    ensures
        chunks_used_of(ops) == 0,
    decreases ops.len(),
{
    if ops.len() > 0 {
        lemma_noop_ops_use_no_chunks(ops.drop_first());
    }
}

} // verus!
