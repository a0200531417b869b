//! The signals that leave the worker.

use vstd::prelude::*;
use crate::primitives::{ChainId, Epoch, Hash256, PeerAction, PeerId};

verus! {

/// Which sync a processed batch belongs to.
#[derive(Clone, Debug, PartialEq)]
pub enum SyncRequestType {
    /// A batch of the range sync, by its epoch and its chain.
    RangeSync(Epoch, ChainId),
    /// A batch of the backfill sync, by its epoch.
    BackFillSync(Epoch),
}

/// The outcome of a batch, as the sync coordinator learns it.
#[derive(Clone, Debug, PartialEq)]
pub enum BatchProcessResult {
    /// The batch was accepted; the flag tells whether any block was imported.
    Success(bool),
    /// The batch failed.
    Failed {
        /// Whether any block was imported before the failure.
        imported_blocks: bool,
        /// The penalty for the peer that sent the batch, if it is at fault.
        peer_action: Option<PeerAction>,
    },
}

/// A message to the sync coordinator.
#[derive(Clone, Debug, PartialEq)]
pub enum SyncMessage {
    /// A batch has been processed.
    BatchProcessed { sync_type: SyncRequestType, result: BatchProcessResult },
    /// The chain of ancestors that ends in `chain_head`, sent by `peer_id`,
    /// could not be imported.
    ParentLookupFailed { peer_id: PeerId, chain_head: Hash256 },
}

/// A message to the queue of work that waits for a block.
#[derive(Clone, Debug, PartialEq)]
pub enum ReprocessQueueMessage {
    /// The block with this root has been imported.
    BlockImported(Hash256),
}

} // verus!
