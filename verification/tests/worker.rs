use block_import::duplicate_cache::DuplicateCache;
use block_import::messages::{
    BatchProcessResult, ReprocessQueueMessage, SyncMessage, SyncRequestType,
};
use block_import::primitives::{Hash256, PeerAction, PeerId, ProcessId};
use block_import::rejection::{
    BeaconChainError, BlockError, ChainSegmentFailed, ChainSegmentResult, HistoricalBlockError,
};
use block_import::worker::{
    reversed, BatchImport, PendingBackfill, PendingSegment, RpcBlockImport, SegmentSignals, Worker,
};

fn root(n: u8) -> Hash256 {
    Hash256::new([n; 32])
}

fn peer() -> PeerId {
    PeerId { bytes: vec![0x12, 0x20, 0xaa] }
}

#[test]
fn reversed_turns_a_vector_round() {
    assert_eq!(reversed(vec![1u32, 2, 3, 4]), vec![4, 3, 2, 1]);
    assert_eq!(reversed(Vec::<u32>::new()), Vec::<u32>::new());
    assert_eq!(reversed(vec![String::from("a")]), vec![String::from("a")]);
}

#[test]
fn parent_lookup_batch_is_imported_oldest_first() {
    let worker = Worker::new();
    let step = worker.process_chain_segment(
        ProcessId::ParentLookup(peer(), root(9)),
        vec!["B3", "B2", "B1"],
    );
    assert_eq!(
        step,
        BatchImport::ChainSegment {
            blocks: vec!["B1", "B2", "B3"],
            pending: PendingSegment::ParentLookup { peer_id: peer(), chain_head: root(9) },
        }
    );
}

#[test]
fn range_batch_keeps_its_order() {
    let worker = Worker::new();
    let step = worker.process_chain_segment(ProcessId::RangeBatchId(7, 12), vec![1u64, 2, 3]);
    assert_eq!(
        step,
        BatchImport::ChainSegment {
            blocks: vec![1, 2, 3],
            pending: PendingSegment::RangeBatch { chain_id: 7, epoch: 12 },
        }
    );
}

#[test]
fn backfill_batch_goes_to_historical_import_in_order() {
    let worker = Worker::new();
    let step = worker.process_chain_segment(ProcessId::BackSyncBatchId(4), vec![1u64, 2, 3]);
    assert_eq!(
        step,
        BatchImport::HistoricalBatch { blocks: vec![1, 2, 3], pending: PendingBackfill { epoch: 4 } }
    );
}

#[test]
fn forward_import_failing_at_third_block_with_unknown_parent() {
    let worker = Worker::new();
    let result = ChainSegmentResult::Failed {
        imported_blocks: 2,
        error: BlockError::ParentUnknown { parent_root: root(0x11) },
    };
    let import = worker.process_blocks(result.clone());
    assert_eq!(import.imported_blocks, 2);
    assert!(import.run_fork_choice);
    assert_eq!(
        import.result,
        Err(ChainSegmentFailed {
            message: String::from("Block has an unknown parent: 0x1111\u{2026}1111"),
            peer_action: Some(PeerAction::LowToleranceError),
        })
    );
    let signals =
        worker.finish_chain_segment(PendingSegment::RangeBatch { chain_id: 3, epoch: 8 }, result);
    assert_eq!(
        signals,
        SegmentSignals {
            run_fork_choice: true,
            message: Some(SyncMessage::BatchProcessed {
                sync_type: SyncRequestType::RangeSync(8, 3),
                result: BatchProcessResult::Failed {
                    imported_blocks: true,
                    peer_action: Some(PeerAction::LowToleranceError),
                },
            }),
        }
    );
}

#[test]
fn forward_import_failing_at_first_block_does_not_touch_the_head() {
    let worker = Worker::new();
    let signals = worker.finish_chain_segment(
        PendingSegment::RangeBatch { chain_id: 3, epoch: 8 },
        ChainSegmentResult::Failed {
            imported_blocks: 0,
            error: BlockError::Invalid { description: String::from("StateRootMismatch") },
        },
    );
    assert_eq!(
        signals,
        SegmentSignals {
            run_fork_choice: false,
            message: Some(SyncMessage::BatchProcessed {
                sync_type: SyncRequestType::RangeSync(8, 3),
                result: BatchProcessResult::Failed { imported_blocks: false, peer_action: None },
            }),
        }
    );
}

#[test]
fn forward_import_success_recomputes_head_only_with_new_blocks() {
    let worker = Worker::new();
    let some = worker.finish_chain_segment(
        PendingSegment::RangeBatch { chain_id: 1, epoch: 2 },
        ChainSegmentResult::Successful { imported_blocks: 5 },
    );
    assert_eq!(
        some,
        SegmentSignals {
            run_fork_choice: true,
            message: Some(SyncMessage::BatchProcessed {
                sync_type: SyncRequestType::RangeSync(2, 1),
                result: BatchProcessResult::Success(true),
            }),
        }
    );
    let none = worker.finish_chain_segment(
        PendingSegment::RangeBatch { chain_id: 1, epoch: 2 },
        ChainSegmentResult::Successful { imported_blocks: 0 },
    );
    assert_eq!(
        none,
        SegmentSignals {
            run_fork_choice: false,
            message: Some(SyncMessage::BatchProcessed {
                sync_type: SyncRequestType::RangeSync(2, 1),
                result: BatchProcessResult::Success(false),
            }),
        }
    );
}

#[test]
fn benign_refusal_counts_as_success_with_what_was_imported() {
    let worker = Worker::new();
    let signals = worker.finish_chain_segment(
        PendingSegment::RangeBatch { chain_id: 1, epoch: 2 },
        ChainSegmentResult::Failed { imported_blocks: 3, error: BlockError::BlockIsAlreadyKnown },
    );
    assert_eq!(
        signals,
        SegmentSignals {
            run_fork_choice: true,
            message: Some(SyncMessage::BatchProcessed {
                sync_type: SyncRequestType::RangeSync(2, 1),
                result: BatchProcessResult::Success(true),
            }),
        }
    );
    let import = worker.process_blocks(ChainSegmentResult::Failed {
        imported_blocks: 0,
        error: BlockError::GenesisBlock,
    });
    assert_eq!(import.imported_blocks, 0);
    assert_eq!(import.result, Ok(()));
    assert!(!import.run_fork_choice);
}

#[test]
fn parent_lookup_failure_names_peer_and_target() {
    let worker = Worker::new();
    let signals = worker.finish_chain_segment(
        PendingSegment::ParentLookup { peer_id: peer(), chain_head: root(9) },
        ChainSegmentResult::Failed {
            imported_blocks: 1,
            error: BlockError::FutureSlot { present_slot: 100, block_slot: 102 },
        },
    );
    assert_eq!(
        signals,
        SegmentSignals {
            run_fork_choice: true,
            message: Some(SyncMessage::ParentLookupFailed { peer_id: peer(), chain_head: root(9) }),
        }
    );
}

#[test]
fn parent_lookup_success_sends_nothing() {
    let worker = Worker::new();
    let signals = worker.finish_chain_segment(
        PendingSegment::ParentLookup { peer_id: peer(), chain_head: root(9) },
        ChainSegmentResult::Successful { imported_blocks: 3 },
    );
    assert_eq!(signals, SegmentSignals { run_fork_choice: true, message: None });
    let benign = worker.finish_chain_segment(
        PendingSegment::ParentLookup { peer_id: peer(), chain_head: root(9) },
        ChainSegmentResult::Failed {
            imported_blocks: 0,
            error: BlockError::WouldRevertFinalizedSlot { block_slot: 1, finalized_slot: 32 },
        },
    );
    assert_eq!(benign, SegmentSignals { run_fork_choice: false, message: None });
}

#[test]
fn backfill_of_three_blocks_that_all_succeed() {
    let worker = Worker::new();
    let step = worker.process_chain_segment(ProcessId::BackSyncBatchId(6), vec![10u64, 11, 12]);
    let pending = match step {
        BatchImport::HistoricalBatch { blocks, pending } => {
            assert_eq!(blocks, vec![10, 11, 12]);
            pending
        }
        BatchImport::ChainSegment { .. } => panic!("a backfill batch is no forward import"),
    };
    assert_eq!(worker.process_backfill_blocks(Ok(3)), (3, Ok(())));
    let message = worker.finish_backfill_batch(pending, Ok(3));
    assert_eq!(
        message,
        SyncMessage::BatchProcessed {
            sync_type: SyncRequestType::BackFillSync(6),
            result: BatchProcessResult::Success(true),
        }
    );
}

#[test]
fn backfill_that_imports_nothing_reports_no_import() {
    let worker = Worker::new();
    let message = worker.finish_backfill_batch(PendingBackfill { epoch: 6 }, Ok(0));
    assert_eq!(
        message,
        SyncMessage::BatchProcessed {
            sync_type: SyncRequestType::BackFillSync(6),
            result: BatchProcessResult::Success(false),
        }
    );
}

#[test]
fn backfill_failure_carries_the_penalty_and_no_import() {
    let worker = Worker::new();
    let bad = BeaconChainError::HistoricalBlockError(HistoricalBlockError::InvalidSignature);
    assert_eq!(
        worker.process_backfill_blocks(Err(bad.clone())),
        (
            0,
            Err(ChainSegmentFailed {
                message: String::from("invalid_signature"),
                peer_action: Some(PeerAction::LowToleranceError),
            })
        )
    );
    assert_eq!(
        worker.finish_backfill_batch(PendingBackfill { epoch: 1 }, Err(bad)),
        SyncMessage::BatchProcessed {
            sync_type: SyncRequestType::BackFillSync(1),
            result: BatchProcessResult::Failed {
                imported_blocks: false,
                peer_action: Some(PeerAction::LowToleranceError),
            },
        }
    );
    let internal = BeaconChainError::HistoricalBlockError(HistoricalBlockError::NoAnchorInfo);
    assert_eq!(
        worker.finish_backfill_batch(PendingBackfill { epoch: 1 }, Err(internal)),
        SyncMessage::BatchProcessed {
            sync_type: SyncRequestType::BackFillSync(1),
            result: BatchProcessResult::Failed { imported_blocks: false, peer_action: None },
        }
    );
}

#[test]
fn rpc_block_is_imported_and_announced() {
    let worker = Worker::new();
    let mut cache = DuplicateCache::new();
    let handle = match worker.process_rpc_block(root(5), &mut cache) {
        RpcBlockImport::Import { handle } => handle,
        RpcBlockImport::AlreadyImporting { .. } => panic!("the root was free"),
    };
    assert_eq!(handle.root(), root(5));
    assert!(cache.contains(&root(5)));
    let signals = worker.finish_rpc_block(handle, Ok(root(5)), &mut cache);
    assert_eq!(signals.reprocess, Some(ReprocessQueueMessage::BlockImported(root(5))));
    assert_eq!(signals.response, Ok(root(5)));
    assert!(!cache.contains(&root(5)));
}

#[test]
fn rpc_block_failure_is_answered_but_not_announced() {
    let worker = Worker::new();
    let mut cache = DuplicateCache::new();
    let handle = match worker.process_rpc_block(root(5), &mut cache) {
        RpcBlockImport::Import { handle } => handle,
        RpcBlockImport::AlreadyImporting { .. } => panic!("the root was free"),
    };
    let refusal = BlockError::ParentUnknown { parent_root: root(4) };
    let signals = worker.finish_rpc_block(handle, Err(refusal.clone()), &mut cache);
    assert_eq!(signals.reprocess, None);
    assert_eq!(signals.response, Err(refusal));
    assert!(!cache.contains(&root(5)));
}

#[test]
fn second_rpc_request_in_flight_is_already_known() {
    let worker = Worker::new();
    let mut cache = DuplicateCache::new();
    let first = worker.process_rpc_block(root(5), &mut cache);
    let second = worker.process_rpc_block(root(5), &mut cache);
    let handle = match first {
        RpcBlockImport::Import { handle } => handle,
        RpcBlockImport::AlreadyImporting { .. } => panic!("the root was free"),
    };
    match second {
        RpcBlockImport::AlreadyImporting { response } => {
            assert_eq!(response, Err(BlockError::BlockIsAlreadyKnown))
        }
        RpcBlockImport::Import { .. } => panic!("the root was claimed"),
    }
    assert!(cache.contains(&root(5)));
    worker.finish_rpc_block(handle, Ok(root(5)), &mut cache);
    assert!(matches!(
        worker.process_rpc_block(root(5), &mut cache),
        RpcBlockImport::Import { .. }
    ));
}

#[test]
fn empty_batches_are_handed_on_empty() {
    let worker = Worker::new();
    let lookup =
        worker.process_chain_segment(ProcessId::ParentLookup(peer(), root(1)), Vec::<u8>::new());
    assert_eq!(
        lookup,
        BatchImport::ChainSegment {
            blocks: vec![],
            pending: PendingSegment::ParentLookup { peer_id: peer(), chain_head: root(1) },
        }
    );
    let range = worker.process_chain_segment(ProcessId::RangeBatchId(0, 0), Vec::<u8>::new());
    assert_eq!(
        range,
        BatchImport::ChainSegment {
            blocks: vec![],
            pending: PendingSegment::RangeBatch { chain_id: 0, epoch: 0 },
        }
    );
}

#[test]
fn parent_lookup_of_descending_slots_reaches_the_chain_ascending() {
    let worker = Worker::new();
    let slots: Vec<u64> = vec![40, 39, 39, 31, 7];
    match worker.process_chain_segment(ProcessId::ParentLookup(peer(), root(1)), slots) {
        BatchImport::ChainSegment { blocks, .. } => {
            assert_eq!(blocks, vec![7, 31, 39, 39, 40]);
            assert!(blocks.windows(2).all(|w| w[0] <= w[1]));
        }
        BatchImport::HistoricalBatch { .. } => panic!("a parent lookup is a forward import"),
    }
}
