//! Classification and routing of block-import outcomes for a chain
//! synchronisation worker.
//!
//! The crate holds the decisions of the worker: how a batch is ordered before
//! it is handed to the chain, how the chain's verdict becomes a peer-scoring
//! signal, when the chain head is recomputed, and how concurrent imports of
//! one block are kept apart. The calls into the chain and the channels are
//! performed by the caller, which hands their results back as plain values.

pub mod text;
pub mod primitives;
pub mod rejection;
pub mod classifier;
pub mod duplicate_cache;
pub mod messages;
pub mod worker;

pub use crate::duplicate_cache::{DuplicateCache, DuplicateCacheHandle};
pub use crate::primitives::ProcessId;
pub use crate::worker::Worker;
