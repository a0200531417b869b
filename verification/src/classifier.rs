//! The mapping from a refusal of the chain to a penalty and a cause.

use vstd::prelude::*;
use crate::primitives::{PeerAction, Slot};
use crate::rejection::{
    BeaconChainError, BlockError, ChainSegmentFailed, HistoricalBlockError, LogLevel,
};
use crate::text::{abbreviated_root, decimal, push_abbreviated_root, push_decimal};

verus! {

/// Number of slots that a block may lie ahead of the present slot before its
/// refusal is reported as a warning.
pub const FUTURE_SLOT_TOLERANCE: u64 = 1;

/// The refusals on forward import that are no failure of the batch.
pub open spec fn is_benign(error: BlockError) -> bool {
    error is BlockIsAlreadyKnown || error is WouldRevertFinalizedSlot || error is GenesisBlock
}

/// The penalty that a refusal on forward import brings to the sending peer.
pub open spec fn block_error_peer_action(error: BlockError) -> Option<PeerAction> {
    match error {
        BlockError::ParentUnknown { .. } => Some(PeerAction::LowToleranceError),
        BlockError::FutureSlot { .. } => Some(PeerAction::LowToleranceError),
        _ => None,
    }
}

/// The cause of a failure on forward import, in words.
pub open spec fn block_error_message(error: BlockError) -> Seq<char> {
    match error {
        BlockError::ParentUnknown { parent_root } => "Block has an unknown parent: "@
            + abbreviated_root(parent_root@),
        BlockError::FutureSlot { present_slot, block_slot } => "Block with slot "@ + decimal(
            block_slot as nat,
        ) + " is higher than the current slot "@ + decimal(present_slot as nat),
        BlockError::BeaconChainError { description } => "Internal error whilst processing block: "@
            + description@,
        BlockError::Invalid { description } => "Peer sent invalid block. Reason: "@
            + description@,
        _ => Seq::empty(),
    }
}

/// The penalty that a refusal of a historical batch brings to the sending peer.
pub open spec fn historical_peer_action(error: BeaconChainError) -> Option<PeerAction> {
    match error {
        BeaconChainError::HistoricalBlockError(
            HistoricalBlockError::MismatchedBlockRoot { .. },
        ) => Some(PeerAction::LowToleranceError),
        BeaconChainError::HistoricalBlockError(HistoricalBlockError::InvalidSignature) => Some(
            PeerAction::LowToleranceError,
        ),
        BeaconChainError::HistoricalBlockError(HistoricalBlockError::SignatureSet { .. }) => Some(
            PeerAction::LowToleranceError,
        ),
        _ => None,
    }
}

/// The cause of a failure of a historical batch, in words.
pub open spec fn historical_message(error: BeaconChainError) -> Seq<char> {
    match error {
        BeaconChainError::HistoricalBlockError(e) => match e {
            HistoricalBlockError::MismatchedBlockRoot { .. } => "mismatched_block_root"@,
            HistoricalBlockError::InvalidSignature => "invalid_signature"@,
            HistoricalBlockError::SignatureSet { .. } => "invalid_signature"@,
            HistoricalBlockError::ValidatorPubkeyCacheTimeout => "pubkey_cache_timeout"@,
            HistoricalBlockError::NoAnchorInfo => "no_anchor_info"@,
            HistoricalBlockError::IndexOutOfBounds => "logic_error"@,
            HistoricalBlockError::BlockOutOfRange { .. } => "unexpected_error"@,
        },
        BeaconChainError::Other { description } => description@,
    }
}

/// Whether a block at `block_slot` lies further ahead of `present_slot` than
/// the tolerance allows.
pub open spec fn beyond_tolerance(present_slot: Slot, block_slot: Slot) -> bool {
    block_slot > present_slot + FUTURE_SLOT_TOLERANCE
}

/// How loudly the refusal of a block from a future slot is reported: as a
/// warning where the block lies beyond the tolerance, else for debugging only.
/// The penalty does not depend on it.
pub fn future_slot_log_level(present_slot: Slot, block_slot: Slot) -> (level: LogLevel)
    ensures
        level == if beyond_tolerance(present_slot, block_slot) {
            LogLevel::Warning
        } else {
            LogLevel::Debug
        },
{
    if block_slot > present_slot.saturating_add(FUTURE_SLOT_TOLERANCE) {
        LogLevel::Warning
    } else {
        LogLevel::Debug
    }
}

/// Classifies a refusal on forward import: a benign one is no failure, every
/// other one is a failure with its penalty and its cause.
pub fn handle_failed_chain_segment(error: BlockError) -> (r: Result<(), ChainSegmentFailed>)
    ensures
        r is Ok <==> is_benign(error),
        r matches Err(failed) ==> failed.peer_action == block_error_peer_action(error)
            && failed.message@ == block_error_message(error),
{
    match error {
        BlockError::ParentUnknown { parent_root } => {
            let mut message = String::from_str("Block has an unknown parent: ");
            push_abbreviated_root(&mut message, &parent_root.bytes);
            Err(ChainSegmentFailed { message, peer_action: Some(PeerAction::LowToleranceError) })
        },
        BlockError::BlockIsAlreadyKnown => Ok(()),
        BlockError::FutureSlot { present_slot, block_slot } => {
            let mut message = String::from_str("Block with slot ");
            push_decimal(&mut message, block_slot);
            message.append(" is higher than the current slot ");
            push_decimal(&mut message, present_slot);
            Err(ChainSegmentFailed { message, peer_action: Some(PeerAction::LowToleranceError) })
        },
        BlockError::WouldRevertFinalizedSlot { .. } => Ok(()),
        BlockError::GenesisBlock => Ok(()),
        BlockError::BeaconChainError { description } => {
            let message = String::from_str("Internal error whilst processing block: ").concat(
                description.as_str(),
            );
            Err(ChainSegmentFailed { message, peer_action: None })
        },
        BlockError::Invalid { description } => {
            let message = String::from_str("Peer sent invalid block. Reason: ").concat(
                description.as_str(),
            );
            Err(ChainSegmentFailed { message, peer_action: None })
        },
    }
}

/// Classifies a refusal of a historical batch: always a failure, with its
/// penalty and its cause.
pub fn handle_failed_historical_batch(error: BeaconChainError) -> (failed: ChainSegmentFailed)
    ensures
        failed.peer_action == historical_peer_action(error),
        failed.message@ == historical_message(error),
{
    match error {
        BeaconChainError::HistoricalBlockError(e) => match e {
            HistoricalBlockError::MismatchedBlockRoot { .. } => ChainSegmentFailed {
                message: String::from_str("mismatched_block_root"),
                peer_action: Some(PeerAction::LowToleranceError),
            },
            HistoricalBlockError::InvalidSignature
            | HistoricalBlockError::SignatureSet { .. } => ChainSegmentFailed {
                message: String::from_str("invalid_signature"),
                peer_action: Some(PeerAction::LowToleranceError),
            },
            HistoricalBlockError::ValidatorPubkeyCacheTimeout => ChainSegmentFailed {
                message: String::from_str("pubkey_cache_timeout"),
                peer_action: None,
            },
            HistoricalBlockError::NoAnchorInfo => ChainSegmentFailed {
                message: String::from_str("no_anchor_info"),
                peer_action: None,
            },
            HistoricalBlockError::IndexOutOfBounds => ChainSegmentFailed {
                message: String::from_str("logic_error"),
                peer_action: None,
            },
            HistoricalBlockError::BlockOutOfRange { .. } => ChainSegmentFailed {
                message: String::from_str("unexpected_error"),
                peer_action: None,
            },
        },
        BeaconChainError::Other { description } => ChainSegmentFailed {
            message: description,
            peer_action: None,
        },
    }
}

/// A block from a future slot is a failure with the low-tolerance penalty,
/// whether or not it lies within the tolerance: only the log level differs.
pub proof fn future_slot_penalised_within_and_beyond_tolerance(present_slot: Slot, block_slot: Slot)
    ensures
        !is_benign(BlockError::FutureSlot { present_slot, block_slot }),
        block_error_peer_action(BlockError::FutureSlot { present_slot, block_slot }) == Some(
            PeerAction::LowToleranceError,
        ),
{
}

/// No classification ever yields a penalty other than the low-tolerance one.
pub proof fn penalties_never_escalate(forward: BlockError, historical: BeaconChainError)
    ensures
        block_error_peer_action(forward) is Some ==> block_error_peer_action(forward) == Some(
            PeerAction::LowToleranceError,
        ),
        historical_peer_action(historical) is Some ==> historical_peer_action(historical) == Some(
            PeerAction::LowToleranceError,
        ),
{
}

} // verus!
