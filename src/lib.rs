//! Decision logic of a light-client wallet synchronizer: scan ranges and their
//! chunking, the block cache, the retry policy, fee reconciliation, the
//! transaction history materializer and the sync engine's state machine, plus
//! the Sapling key operations offered to host applications.
pub mod block_cache;
pub mod codecs;
pub mod engine;
pub mod error;
pub mod fees;
pub mod materialize;
pub mod retry;
pub mod sapling;
pub mod scan;
pub mod transparent;
