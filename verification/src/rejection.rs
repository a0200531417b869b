//! What the chain reports when it refuses blocks, and the classified form
//! that leaves the worker.

use vstd::prelude::*;
use crate::primitives::{Hash256, PeerAction, Slot};

verus! {

/// Why the chain refused a block on forward import.
#[derive(Clone, Debug, PartialEq)]
pub enum BlockError {
    /// The parent of the block is not known to the chain.
    ParentUnknown { parent_root: Hash256 },
    /// The block is already part of the chain.
    BlockIsAlreadyKnown,
    /// The slot of the block lies after the present slot.
    FutureSlot { present_slot: Slot, block_slot: Slot },
    /// The block would revert a finalized slot, or an earlier one.
    WouldRevertFinalizedSlot { block_slot: Slot, finalized_slot: Slot },
    /// The block is the genesis block.
    GenesisBlock,
    /// The chain itself failed; `description` is how it renders the fault.
    BeaconChainError { description: String },
    /// Any other reason for which a block is invalid; `description` is how
    /// the chain renders it.
    Invalid { description: String },
}

/// Why the chain refused a batch of historical blocks.
#[derive(Clone, Debug, PartialEq)]
pub enum HistoricalBlockError {
    /// A block's root is not the one expected at its slot.
    MismatchedBlockRoot { block_root: Hash256, expected_block_root: Hash256 },
    /// A signature in the batch is invalid.
    InvalidSignature,
    /// The set of signatures to verify could not be built.
    SignatureSet { description: String },
    /// The cache of validator keys could not be read in time.
    ValidatorPubkeyCacheTimeout,
    /// The chain has no anchor, so no historical import is needed.
    NoAnchorInfo,
    /// An index into the batch was out of bounds.
    IndexOutOfBounds,
    /// A block's slot lies outside the range that is being filled.
    BlockOutOfRange { slot: Slot, oldest_block_slot: Slot },
}

/// A fault of the chain on historical import.
#[derive(Clone, Debug, PartialEq)]
pub enum BeaconChainError {
    /// One of the faults specific to historical blocks.
    HistoricalBlockError(HistoricalBlockError),
    /// Any other fault of the chain; `description` is how the chain renders it.
    Other { description: String },
}

/// What the chain answers to the import of a segment.
#[derive(Clone, Debug, PartialEq)]
pub enum ChainSegmentResult {
    /// Every block was accepted; `imported_blocks` of them were new.
    Successful { imported_blocks: usize },
    /// A block was refused after `imported_blocks` blocks had been imported.
    Failed { imported_blocks: usize, error: BlockError },
}

/// A failed import, classified: the cause in words, and the penalty that the
/// sending peer receives, if any.
#[derive(Clone, Debug, PartialEq)]
pub struct ChainSegmentFailed {
    /// The cause, for a human reader.
    pub message: String,
    /// The penalty for the peer; `None` where the peer is not at fault.
    pub peer_action: Option<PeerAction>,
}

/// How loudly an event is reported.
#[derive(Clone, Copy, Debug, PartialEq, Eq, Structural)]
pub enum LogLevel {
    Debug,
    Warning,
}

} // verus!
