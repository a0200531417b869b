//! The worker: it orders a unit of work for the chain, and turns the chain's
//! answer into the signals that are owed.
//!
//! The worker never calls the chain. Each unit of work takes two steps: the
//! first says what the chain is to be asked, the second takes the answer and
//! says what is to be sent, and whether the head of the chain is to be
//! recomputed.

use vstd::prelude::*;
use crate::classifier::{
    block_error_message, block_error_peer_action, handle_failed_chain_segment,
    handle_failed_historical_batch, historical_message, historical_peer_action, is_benign,
};
use crate::duplicate_cache::{
    after_claim, after_release, claim_succeeds, DuplicateCache, DuplicateCacheHandle,
};
use crate::messages::{BatchProcessResult, ReprocessQueueMessage, SyncMessage, SyncRequestType};
use crate::primitives::{ChainId, Epoch, Hash256, PeerId, ProcessId, Slot};
use crate::rejection::{BeaconChainError, BlockError, ChainSegmentFailed, ChainSegmentResult};

verus! {

/// The outcome of a forward import: how many blocks were imported, whether
/// the batch failed, and whether the head of the chain is to be recomputed.
#[derive(Debug, PartialEq)]
pub struct SegmentImport {
    pub imported_blocks: usize,
    pub result: Result<(), ChainSegmentFailed>,
    pub run_fork_choice: bool,
}

/// A forward import that waits for the chain's answer.
#[derive(Clone, Debug, PartialEq)]
pub enum PendingSegment {
    /// A batch of the range sync.
    RangeBatch { chain_id: ChainId, epoch: Epoch },
    /// The ancestors of `chain_head`, sent by `peer_id`.
    ParentLookup { peer_id: PeerId, chain_head: Hash256 },
}

/// A historical import that waits for the chain's answer.
#[derive(Clone, Debug, PartialEq)]
pub struct PendingBackfill {
    pub epoch: Epoch,
}

/// What the chain is to be asked for a batch.
#[derive(Debug, PartialEq)]
pub enum BatchImport<B> {
    /// Import `blocks`, in this order, as one segment.
    ChainSegment { blocks: Vec<B>, pending: PendingSegment },
    /// Import `blocks`, in this order, as historical blocks.
    HistoricalBatch { blocks: Vec<B>, pending: PendingBackfill },
}

/// What is owed once a forward import has been answered.
#[derive(Debug, PartialEq)]
pub struct SegmentSignals {
    /// Whether the head of the chain is to be recomputed.
    pub run_fork_choice: bool,
    /// The message to the sync coordinator, if one is owed.
    pub message: Option<SyncMessage>,
}

/// What is to be done with a block that was requested directly.
#[derive(Debug)]
pub enum RpcBlockImport {
    /// Import the block, then finish with the handle.
    Import { handle: DuplicateCacheHandle },
    /// Another source is importing the block: answer with `response` and do
    /// not ask the chain.
    AlreadyImporting { response: Result<Hash256, BlockError> },
}

/// What is owed once the import of a directly requested block is answered.
#[derive(Debug, PartialEq)]
pub struct RpcBlockSignals {
    /// The notice for the work that waited for this block, if it was imported.
    pub reprocess: Option<ReprocessQueueMessage>,
    /// The answer to the requester.
    pub response: Result<Hash256, BlockError>,
}

/// The number of blocks that the chain reports as imported.
pub open spec fn segment_imported(result: ChainSegmentResult) -> usize {
    match result {
        ChainSegmentResult::Successful { imported_blocks } => imported_blocks,
        ChainSegmentResult::Failed { imported_blocks, .. } => imported_blocks,
    }
}

/// Whether a forward import counts as failed: the chain refused a block for a
/// reason that is not benign.
pub open spec fn segment_failed(result: ChainSegmentResult) -> bool {
    match result {
        ChainSegmentResult::Successful { .. } => false,
        ChainSegmentResult::Failed { error, .. } => !is_benign(error),
    }
}

/// The outcome of a forward import as the sync coordinator learns it.
pub open spec fn segment_batch_result(result: ChainSegmentResult) -> BatchProcessResult {
    match result {
        ChainSegmentResult::Failed { imported_blocks, error } if !is_benign(error) => {
            BatchProcessResult::Failed {
                imported_blocks: imported_blocks > 0,
                peer_action: block_error_peer_action(error),
            }
        },
        _ => BatchProcessResult::Success(segment_imported(result) > 0),
    }
}

/// The outcome of a historical import as the sync coordinator learns it.
pub open spec fn backfill_batch_result(
    result: Result<usize, BeaconChainError>,
) -> BatchProcessResult {
    match result {
        Ok(imported_blocks) => BatchProcessResult::Success(imported_blocks > 0),
        Err(error) => BatchProcessResult::Failed {
            imported_blocks: false,
            peer_action: historical_peer_action(error),
        },
    }
}

/// The signals owed for a forward import that waited as `pending`.
pub open spec fn segment_signals(
    pending: PendingSegment,
    result: ChainSegmentResult,
) -> SegmentSignals {
    SegmentSignals {
        run_fork_choice: segment_imported(result) > 0,
        message: match pending {
            PendingSegment::RangeBatch { chain_id, epoch } => Some(
                SyncMessage::BatchProcessed {
                    sync_type: SyncRequestType::RangeSync(epoch, chain_id),
                    result: segment_batch_result(result),
                },
            ),
            PendingSegment::ParentLookup { peer_id, chain_head } => if segment_failed(result) {
                Some(SyncMessage::ParentLookupFailed { peer_id, chain_head })
            } else {
                None
            },
        },
    }
}

/// Returns the items of `items` in reverse order.
pub fn reversed<B>(items: Vec<B>) -> (turned: Vec<B>)
    ensures
        turned@ == items@.reverse(),
{
    let mut items = items;
    let ghost all = items@;
    let mut turned: Vec<B> = Vec::new();
    while items.len() > 0
        invariant
            items@.len() + turned@.len() == all.len(),
            items@ == all.subrange(0, items@.len() as int),
            forall|i: int| 0 <= i < turned@.len() ==> turned@[i] == all[all.len() - 1 - i],
        decreases items@.len(),
    {
        let last = items.pop();
        match last {
            Some(item) => {
                turned.push(item);
            },
            None => {},
        }
    }
    proof {
        assert(turned@ =~= all.reverse());
    }
    turned
}

/// The part of a node that imports blocks on behalf of the sync.
#[derive(Clone, Copy, Debug)]
pub struct Worker {}

impl Worker {
    /// A worker.
    pub fn new() -> Worker {
        Worker {  }
    }

    /// First step for a block that was requested directly: claims the root of
    /// the block. Where the claim succeeds the block is to be imported; where
    /// another source holds it, the requester is told at once that the block
    /// is already known, and the chain is not asked.
    pub fn process_rpc_block(
        &self,
        block_root: Hash256,
        duplicate_cache: &mut DuplicateCache,
    ) -> (step: RpcBlockImport)
        ensures
            final(duplicate_cache)@ == after_claim(old(duplicate_cache)@, block_root@),
            step is Import <==> claim_succeeds(old(duplicate_cache)@, block_root@),
            step matches RpcBlockImport::Import { handle } ==> handle@ == block_root@,
            step matches RpcBlockImport::AlreadyImporting { response } ==> response == Err::<
                Hash256,
                BlockError,
            >(BlockError::BlockIsAlreadyKnown),
    {
        match duplicate_cache.check_and_insert(block_root) {
            Some(handle) => RpcBlockImport::Import { handle },
            None => RpcBlockImport::AlreadyImporting {
                response: Err(BlockError::BlockIsAlreadyKnown),
            },
        }
    }

    /// Second step for a block that was requested directly: takes the chain's
    /// answer, releases the claim, and says what is owed. The requester gets
    /// the answer as it is; the waiting work is told of the block only where
    /// it was imported.
    pub fn finish_rpc_block(
        &self,
        handle: DuplicateCacheHandle,
        block_result: Result<Hash256, BlockError>,
        duplicate_cache: &mut DuplicateCache,
    ) -> (signals: RpcBlockSignals)
        ensures
            final(duplicate_cache)@ == after_release(old(duplicate_cache)@, handle@),
            signals.response == block_result,
            signals.reprocess == match block_result {
                Ok(root) => Some(ReprocessQueueMessage::BlockImported(root)),
                Err(_) => None,
            },
    {
        duplicate_cache.release(handle);
        let reprocess = match &block_result {
            Ok(root) => Some(ReprocessQueueMessage::BlockImported(*root)),
            Err(_) => None,
        };
        RpcBlockSignals { reprocess, response: block_result }
    }

    /// First step for a batch: says which import the chain is to be asked
    /// for, and with which blocks in which order.
    pub fn process_chain_segment<B>(&self, process_id: ProcessId, downloaded_blocks: Vec<B>) -> (step:
        BatchImport<B>)
        ensures
            match process_id {
                ProcessId::RangeBatchId(chain_id, epoch) => step == (BatchImport::ChainSegment {
                    blocks: downloaded_blocks,
                    pending: PendingSegment::RangeBatch { chain_id, epoch },
                }),
                ProcessId::BackSyncBatchId(epoch) => step == (BatchImport::HistoricalBatch {
                    blocks: downloaded_blocks,
                    pending: PendingBackfill { epoch },
                }),
                ProcessId::ParentLookup(peer_id, chain_head) => step matches BatchImport::ChainSegment {
                    blocks,
                    pending,
                } && blocks@ == downloaded_blocks@.reverse() && pending == (
                PendingSegment::ParentLookup { peer_id, chain_head }),
            },
    {
        match process_id {
            ProcessId::RangeBatchId(chain_id, epoch) => BatchImport::ChainSegment {
                blocks: downloaded_blocks,
                pending: PendingSegment::RangeBatch { chain_id, epoch },
            },
            ProcessId::BackSyncBatchId(epoch) => BatchImport::HistoricalBatch {
                blocks: downloaded_blocks,
                pending: PendingBackfill { epoch },
            },
            ProcessId::ParentLookup(peer_id, chain_head) => BatchImport::ChainSegment {
                blocks: reversed(downloaded_blocks),
                pending: PendingSegment::ParentLookup { peer_id, chain_head },
            },
        }
    }

    /// Second step for a forward import: takes the chain's answer and says
    /// what is owed to the sync coordinator and whether the head is to be
    /// recomputed.
    pub fn finish_chain_segment(&self, pending: PendingSegment, result: ChainSegmentResult) -> (signals:
        SegmentSignals)
        ensures
            signals == segment_signals(pending, result),
    {
        let import = self.process_blocks(result);
        let message = match pending {
            PendingSegment::RangeBatch { chain_id, epoch } => {
                let result = match import.result {
                    Ok(()) => BatchProcessResult::Success(import.imported_blocks > 0),
                    Err(failed) => BatchProcessResult::Failed {
                        imported_blocks: import.imported_blocks > 0,
                        peer_action: failed.peer_action,
                    },
                };
                Some(
                    SyncMessage::BatchProcessed {
                        sync_type: SyncRequestType::RangeSync(epoch, chain_id),
                        result,
                    },
                )
            },
            PendingSegment::ParentLookup { peer_id, chain_head } => match import.result {
                Ok(()) => None,
                Err(_) => Some(SyncMessage::ParentLookupFailed { peer_id, chain_head }),
            },
        };
        SegmentSignals { run_fork_choice: import.run_fork_choice, message }
    }

    /// Second step for a historical import: takes the chain's answer and
    /// gives the message for the sync coordinator. The head of the chain is
    /// never recomputed for it.
    pub fn finish_backfill_batch(
        &self,
        pending: PendingBackfill,
        result: Result<usize, BeaconChainError>,
    ) -> (message: SyncMessage)
        ensures
            message == (SyncMessage::BatchProcessed {
                sync_type: SyncRequestType::BackFillSync(pending.epoch),
                result: backfill_batch_result(result),
            }),
    {
        let (imported_blocks, outcome) = self.process_backfill_blocks(result);
        let result = match outcome {
            Ok(()) => BatchProcessResult::Success(imported_blocks > 0),
            Err(failed) => BatchProcessResult::Failed {
                imported_blocks: false,
                peer_action: failed.peer_action,
            },
        };
        SyncMessage::BatchProcessed {
            sync_type: SyncRequestType::BackFillSync(pending.epoch),
            result,
        }
    }

    /// Folds the chain's answer to a forward import: the count of imported
    /// blocks, the classified failure if there is one, and the recomputation
    /// of the head, which is due whenever a block was imported, also where
    /// the batch failed after it.
    pub fn process_blocks(&self, result: ChainSegmentResult) -> (import: SegmentImport)
        ensures
            import.imported_blocks == segment_imported(result),
            import.run_fork_choice == (segment_imported(result) > 0),
            import.result is Err <==> segment_failed(result),
            import.result matches Err(failed) ==> result matches ChainSegmentResult::Failed {
                error,
                ..
            } && failed.peer_action == block_error_peer_action(error) && failed.message@
                == block_error_message(error),
    {
        match result {
            ChainSegmentResult::Successful { imported_blocks } => SegmentImport {
                imported_blocks,
                result: Ok(()),
                run_fork_choice: imported_blocks > 0,
            },
            ChainSegmentResult::Failed { imported_blocks, error } => SegmentImport {
                imported_blocks,
                result: handle_failed_chain_segment(error),
                run_fork_choice: imported_blocks > 0,
            },
        }
    }

    /// Folds the chain's answer to a historical import: the count of imported
    /// blocks, which is zero where the batch was refused, and the classified
    /// failure if there is one.
    pub fn process_backfill_blocks(&self, result: Result<usize, BeaconChainError>) -> (outcome: (
        usize,
        Result<(), ChainSegmentFailed>,
    ))
        ensures
            match result {
                Ok(imported_blocks) => outcome.0 == imported_blocks && outcome.1 is Ok,
                Err(error) => outcome.0 == 0 && (outcome.1 matches Err(failed)
                    && failed.peer_action == historical_peer_action(error) && failed.message@
                    == historical_message(error)),
            },
    {
        match result {
            Ok(imported_blocks) => (imported_blocks, Ok(())),
            Err(error) => (0, Err(handle_failed_historical_batch(error))),
        }
    }
}

/// The flag of a batch outcome tells whether the chain imported any block,
/// whether the batch succeeded or failed part of the way.
pub proof fn outcome_flag_tells_of_import(result: ChainSegmentResult)
    ensures
        match segment_batch_result(result) {
            BatchProcessResult::Success(imported_any) => !segment_failed(result) && imported_any
                == (segment_imported(result) > 0),
            BatchProcessResult::Failed { imported_blocks, .. } => segment_failed(result)
                && imported_blocks == (segment_imported(result) > 0),
        },
{
}

/// The head is recomputed exactly when a block was imported, whatever became
/// of the batch and whoever asked for it.
pub proof fn head_recomputed_exactly_on_progress(pending: PendingSegment, result: ChainSegmentResult)
    ensures
        segment_signals(pending, result).run_fork_choice == (segment_imported(result) > 0),
{
}

/// A batch of the range sync is always answered with one message; a parent
/// lookup is answered only where it failed, and then with the peer and the
/// block that it was asked for.
pub proof fn coordinator_hears_of_every_failure(pending: PendingSegment, result: ChainSegmentResult)
    ensures
        pending is RangeBatch ==> segment_signals(pending, result).message is Some,
        pending matches PendingSegment::ParentLookup { peer_id, chain_head } ==> segment_signals(
            pending,
            result,
        ).message == if segment_failed(result) {
            Some(SyncMessage::ParentLookupFailed { peer_id, chain_head })
        } else {
            None
        },
{
}

/// A failed historical import never reports imported blocks, and a
/// successful one reports them exactly when the chain imported some.
pub proof fn backfill_outcome_flag(result: Result<usize, BeaconChainError>)
    ensures
        match backfill_batch_result(result) {
            BatchProcessResult::Success(imported_any) => result matches Ok(n) && imported_any == (n
                > 0),
            BatchProcessResult::Failed { imported_blocks, peer_action } => result matches Err(e)
                && !imported_blocks && peer_action == historical_peer_action(e),
        },
{
}

/// A batch that comes newest first goes to the chain oldest first: where the
/// slots do not rise along `blocks`, they do not fall along its reverse.
pub proof fn reversed_lookup_is_ascending<B>(blocks: Seq<B>, slot_of: spec_fn(B) -> Slot)
    requires
        forall|i: int, j: int|
            0 <= i <= j < blocks.len() ==> slot_of(#[trigger] blocks[i]) >= slot_of(
                #[trigger] blocks[j],
            ),
    ensures
        blocks.reverse().len() == blocks.len(),
        forall|i: int, j: int|
            0 <= i <= j < blocks.len() ==> slot_of(#[trigger] blocks.reverse()[i]) <= slot_of(
                #[trigger] blocks.reverse()[j],
            ),
{
    assert forall|i: int, j: int| 0 <= i <= j < blocks.len() implies slot_of(
        #[trigger] blocks.reverse()[i],
    ) <= slot_of(#[trigger] blocks.reverse()[j]) by {
        assert(blocks.reverse()[i] == blocks[blocks.len() - 1 - i]);
        assert(blocks.reverse()[j] == blocks[blocks.len() - 1 - j]);
    }
}

/// While the first request for a block is in flight, a second request for it
/// is not handed to the chain; once the first has finished, a request for the
/// block is handed to the chain again.
pub proof fn second_request_waits_for_first(held: Set<Seq<u8>>, block_root: Seq<u8>)
    requires
        claim_succeeds(held, block_root),
    ensures
        !claim_succeeds(after_claim(held, block_root), block_root),
        claim_succeeds(
            after_release(after_claim(after_claim(held, block_root), block_root), block_root),
            block_root,
        ),
{
}

} // verus!
