//! Model of a sealed, but not yet finalized, rollup block.
//!
//! A sealed block holds the exact ordered operation payload packed by the
//! sequencer, the on-chain capacity slot (in chunks) it will be committed
//! under, gas ceilings for the later commit and verify transactions, and the
//! sealing timestamp. The heart of the library is the capacity-selection
//! policy: given the ordered list of capacities the rollup contract supports,
//! pick the smallest one that still fits everything that was packed.

pub mod block;
pub mod sizing;
pub mod time;
pub mod types;

pub use block::IncompleteBlock;
pub use sizing::{smallest_block_size_for_chunks, try_smallest_block_size_for_chunks};
pub use time::{UtcDateTime, MAX_UTC_TIMESTAMP};
pub use types::{AccountId, BlockNumber, ExecutedOperations, U256, ZkSyncOp};
