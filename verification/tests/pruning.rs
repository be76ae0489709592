use archive_pruner::builder::{PruneConfig, PrunerBuilder, MAINNET_PRUNE_DELETE_LIMIT};
use archive_pruner::events::{FinishedExExHeight, PrunerEvent};
use archive_pruner::limiter::PruneLimiter;
use archive_pruner::provider::ProviderRw;
use archive_pruner::prune_types::{
    PruneInterruptReason, PruneMode, PruneModes, PruneProgress, PrunePurpose, PruneSegment,
};
use archive_pruner::pruner::Pruner;
use archive_pruner::segments::{Segment, SegmentSet};
use archive_pruner::static_files::StaticFileStore;

fn no_consumers() -> tokio::sync::watch::Receiver<FinishedExExHeight> {
    tokio::sync::watch::channel(FinishedExExHeight::NoExExs).1
}

#[test]
fn is_pruning_needed() {
    let (finished_exex_height_tx, finished_exex_height_rx) =
        tokio::sync::watch::channel(FinishedExExHeight::NoExExs);

    let mut pruner = Pruner::new(vec![], 5, 0, None, finished_exex_height_rx, 0);

    // No last pruned block number was set before
    let first_block_number = 1;
    assert!(!pruner.is_pruning_needed(first_block_number));
    pruner.previous_tip_block_number = Some(first_block_number);

    // Tip block number delta is >= than min block interval
    let second_block_number = first_block_number + pruner.min_block_interval as u64;
    assert!(pruner.is_pruning_needed(second_block_number));
    pruner.previous_tip_block_number = Some(second_block_number);

    // Tip block number delta is < than min block interval
    assert!(!pruner.is_pruning_needed(second_block_number));

    // Tip block number delta is >= than min block interval
    let third_block_number = second_block_number + pruner.min_block_interval as u64;
    assert!(pruner.is_pruning_needed(third_block_number));

    // Not all ExExs have emitted a `FinishedHeight` event yet
    finished_exex_height_tx.send(FinishedExExHeight::NotReady).unwrap();
    assert!(!pruner.is_pruning_needed(third_block_number));

    // Adjust tip block number to the finished ExEx height that doesn't reach the threshold
    finished_exex_height_tx.send(FinishedExExHeight::Height(second_block_number)).unwrap();
    assert!(!pruner.is_pruning_needed(third_block_number));

    // Adjust tip block number to the finished ExEx height that reaches the threshold
    finished_exex_height_tx.send(FinishedExExHeight::Height(third_block_number)).unwrap();
    assert!(pruner.is_pruning_needed(third_block_number));
}

#[test]
fn prune_target_block_modes() {
    assert_eq!(
        PruneMode::Full.prune_target_block(10, PrunePurpose::User),
        Some((10, PruneMode::Full))
    );
    assert_eq!(PruneMode::Distance(15).prune_target_block(10, PrunePurpose::User), None);
    assert_eq!(
        PruneMode::Distance(4).prune_target_block(10, PrunePurpose::User),
        Some((6, PruneMode::Distance(4)))
    );
    assert_eq!(
        PruneMode::Before(7).prune_target_block(10, PrunePurpose::User),
        Some((6, PruneMode::Before(7)))
    );
    assert_eq!(PruneMode::Before(11).prune_target_block(10, PrunePurpose::User), None);
    assert_eq!(
        PruneMode::Before(11).prune_target_block(10, PrunePurpose::StaticFile),
        Some((10, PruneMode::Before(11)))
    );
    assert_eq!(PruneMode::Before(0).prune_target_block(10, PrunePurpose::User), None);
}

#[test]
fn limiter_budget_and_deadline() {
    let mut limiter = PruneLimiter::new().set_deleted_entries_limit(10);
    assert_eq!(limiter.deleted_entries_limit_left(), Some(10));
    assert!(!limiter.is_limit_reached(0));
    limiter.increment_deleted_entries_count_by(4);
    assert_eq!(limiter.deleted_entries_limit_left(), Some(6));
    limiter.increment_deleted_entries_count_by(6);
    assert!(limiter.is_deleted_entries_limit_reached());
    assert!(limiter.is_limit_reached(0));

    let timed = PruneLimiter::new().set_time_limit(100);
    assert!(!timed.is_time_limit_reached(99));
    assert!(timed.is_time_limit_reached(100));
    assert!(timed.is_limit_reached(250));
    assert!(!timed.is_deleted_entries_limit_reached());
}

#[test]
fn segment_set_canonical_order() {
    let modes = PruneModes {
        sender_recovery: Some(PruneMode::Full),
        transaction_lookup: None,
        receipts: Some(PruneMode::Distance(128)),
        account_history: Some(PruneMode::Distance(64)),
        storage_history: None,
        receipts_log_filter: vec![(7, PruneMode::Before(100))],
    };
    let segments = SegmentSet::from_components(modes).into_vec();
    let ids: Vec<PruneSegment> = segments.iter().map(|s| s.segment()).collect();
    assert_eq!(
        ids,
        vec![
            PruneSegment::Headers,
            PruneSegment::Transactions,
            PruneSegment::Receipts,
            PruneSegment::Sidecars,
            PruneSegment::AccountHistory,
            PruneSegment::Receipts,
            PruneSegment::ContractLogs,
            PruneSegment::SenderRecovery,
        ]
    );
}

#[test]
fn builder_defaults() {
    let builder = PrunerBuilder::default();
    assert_eq!(builder.block_interval, 5);
    assert_eq!(builder.delete_limit, MAINNET_PRUNE_DELETE_LIMIT);
    assert_eq!(builder.timeout_millis, None);
    assert_eq!(builder.recent_sidecars_kept_blocks, 0);

    let config = PruneConfig {
        block_interval: 7,
        segments: PruneModes::none(),
        recent_sidecars_kept_blocks: 100,
    };
    let pruner = PrunerBuilder::new(config).delete_limit(50).timeout(100).build();
    assert_eq!(pruner.min_block_interval, 7);
    assert_eq!(pruner.delete_limit, 50);
    assert_eq!(pruner.timeout_millis, Some(100));
    assert_eq!(pruner.recent_sidecars_kept_blocks, 100);
    assert_eq!(pruner.previous_tip_block_number, None);
    // The four static-file segments are always present.
    assert_eq!(pruner.segments.len(), 4);
}

fn history_pruner(entries: u64, delete_limit: usize) -> (Pruner, ProviderRw) {
    let pruner = Pruner::new(
        vec![Segment::AccountHistory(PruneMode::Full)],
        5,
        delete_limit,
        None,
        no_consumers(),
        0,
    );
    let mut provider = ProviderRw::new(StaticFileStore::new());
    for block in 1..=entries {
        provider.tables.account_history.push_entry(block);
    }
    (pruner, provider)
}

#[test]
fn run_at_genesis_records_tip_only() {
    // Scenario: genesis state, a five-block interval, and no consumers.
    let mut pruner = Pruner::new(vec![], 5, 100, None, no_consumers(), 0);
    let mut provider = ProviderRw::new(StaticFileStore::new());
    let out = pruner.run(&mut provider, 3);
    assert_eq!(out.progress, PruneProgress::Finished);
    assert!(out.segments.is_empty());
    assert_eq!(pruner.previous_tip_block_number, Some(3));

    let out = pruner.run(&mut provider, 8);
    assert_eq!(pruner.previous_tip_block_number, Some(8));
    assert_eq!(out.progress, PruneProgress::Finished);
}

#[test]
fn run_not_ready_changes_nothing() {
    let (mut pruner, mut provider) = history_pruner(20, 100);
    let out = pruner.run_with_finished_height(&mut provider, 8, FinishedExExHeight::NoExExs);
    assert_eq!(out.progress, PruneProgress::Finished);
    assert_eq!(pruner.previous_tip_block_number, Some(8));
    let checkpoint_after_first = provider.get_prune_checkpoint(PruneSegment::AccountHistory);
    assert!(checkpoint_after_first.is_some());

    // With consumers not ready, no work happens and the previous tip stays.
    let out = pruner.run_with_finished_height(&mut provider, 13, FinishedExExHeight::NotReady);
    assert_eq!(out.progress, PruneProgress::Finished);
    assert!(out.segments.is_empty());
    assert_eq!(pruner.previous_tip_block_number, Some(8));
    assert_eq!(provider.get_prune_checkpoint(PruneSegment::AccountHistory), checkpoint_after_first);
}

#[test]
fn run_caps_tip_at_finished_height() {
    let (mut pruner, mut provider) = history_pruner(20, 100);
    pruner.previous_tip_block_number = Some(8);
    // With the tip capped at 10, only two blocks have passed since the
    // previous tip, so a five-block interval does not call for pruning.
    assert!(!pruner.is_pruning_needed_at_finished_height(13, FinishedExExHeight::Height(10)));
    let out = pruner.run_with_finished_height(&mut provider, 13, FinishedExExHeight::Height(10));
    // Effective tip is 10, and it is recorded as the previous tip.
    assert_eq!(pruner.previous_tip_block_number, Some(10));
    assert_eq!(out.progress, PruneProgress::Finished);
    let cp = provider.get_prune_checkpoint(PruneSegment::AccountHistory).unwrap();
    assert_eq!(cp.block_number, Some(10));
    // Entries above the effective tip survive.
    assert_eq!(provider.tables.account_history.entries, (11..=20).collect::<Vec<u64>>());
}

#[test]
fn delete_limit_interrupts_segment() {
    // Scenario: a delete limit of 100 against a segment holding 250 entries.
    let (mut pruner, mut provider) = history_pruner(250, 100);
    let out = pruner.run_with_finished_height(&mut provider, 250, FinishedExExHeight::NoExExs);
    assert_eq!(out.segments.len(), 1);
    let (segment, segment_output) = &out.segments[0];
    assert_eq!(*segment, PruneSegment::AccountHistory);
    assert_eq!(segment_output.pruned, 100);
    assert_eq!(
        segment_output.progress,
        PruneProgress::HasMoreData(PruneInterruptReason::DeletedEntriesLimitReached)
    );
    assert_eq!(
        out.progress,
        PruneProgress::HasMoreData(PruneInterruptReason::DeletedEntriesLimitReached)
    );
    // The checkpoint records the highest fully pruned block.
    let cp = provider.get_prune_checkpoint(PruneSegment::AccountHistory).unwrap();
    assert_eq!(cp.block_number, Some(100));
    assert_eq!(cp.prune_mode, PruneMode::Full);
    assert_eq!(provider.tables.account_history.entries.len(), 150);
}

#[test]
fn zero_delete_limit_interrupts_run() {
    let (mut pruner, mut provider) = history_pruner(10, 0);
    let out = pruner.run_with_finished_height(&mut provider, 10, FinishedExExHeight::NoExExs);
    // The delete budget was exhausted before any segment ran.
    assert_eq!(
        out.progress,
        PruneProgress::HasMoreData(PruneInterruptReason::DeletedEntriesLimitReached)
    );
    assert!(out.segments.is_empty());
    assert_eq!(provider.tables.account_history.entries.len(), 10);
}

#[test]
fn zero_timeout_interrupts_run() {
    let (mut pruner, mut provider) = history_pruner(10, 100);
    pruner.timeout_millis = Some(0);
    let out = pruner.run_with_finished_height(&mut provider, 10, FinishedExExHeight::NoExExs);
    // The deadline passed before any segment ran; nothing was deleted.
    assert_eq!(out.progress, PruneProgress::HasMoreData(PruneInterruptReason::TimeLimitReached));
    assert!(out.segments.is_empty());
    assert_eq!(provider.tables.account_history.entries.len(), 10);
}

#[test]
fn checkpoints_advance_monotonically() {
    let (mut pruner, mut provider) = history_pruner(0, 1000);
    for block in 1..=50u64 {
        provider.tables.account_history.push_entry(block);
    }
    let _ = pruner.run_with_finished_height(&mut provider, 30, FinishedExExHeight::NoExExs);
    let first = provider
        .get_prune_checkpoint(PruneSegment::AccountHistory)
        .unwrap()
        .block_number
        .unwrap();
    let _ = pruner.run_with_finished_height(&mut provider, 50, FinishedExExHeight::NoExExs);
    let second = provider
        .get_prune_checkpoint(PruneSegment::AccountHistory)
        .unwrap()
        .block_number
        .unwrap();
    assert!(first <= second);
    assert_eq!(first, 30);
    assert_eq!(second, 50);
}

#[test]
fn static_file_segments_prune_database_mirrors() {
    // Blocks 1..=3 are archived in static files; their database mirrors
    // become prunable up to the highest archived block.
    let mut service = archive_pruner::service::StaticFileService::new(StaticFileStore::new());
    let mut start_tx = 0;
    for number in 1..=3u64 {
        let block = archive_pruner::service::SealedBlockRecord {
            number,
            hash: number,
            body: vec![number],
            sidecars: None,
        };
        let _ = service.log_transactions(&block, start_tx, 0);
        start_tx += 1;
    }
    let mut provider = ProviderRw::new(service.store);
    for b in 1..=3u64 {
        provider.tables.headers.push_entry(b);
        provider.tables.transactions.push_entry(b);
        provider.tables.sidecars.push_entry(b);
    }
    let mut pruner = PrunerBuilder::default()
        .finished_exex_height(no_consumers())
        .build();
    let out = pruner.run(&mut provider, 3);
    assert_eq!(out.progress, PruneProgress::Finished);
    assert!(provider.tables.headers.entries.is_empty());
    assert!(provider.tables.transactions.entries.is_empty());
    assert!(provider.tables.sidecars.entries.is_empty());
    let cp = provider.get_prune_checkpoint(PruneSegment::Headers).unwrap();
    assert_eq!(cp.block_number, Some(3));
    assert_eq!(cp.prune_mode, PruneMode::Before(4));
    // The receipt file is empty, so the receipts mirror was skipped.
    assert!(provider.get_prune_checkpoint(PruneSegment::Receipts).is_none());
}

#[test]
fn events_fan_out() {
    let (mut pruner, mut provider) = history_pruner(5, 100);
    let mut events = pruner.events();
    let _ = pruner.run_with_finished_height(&mut provider, 5, FinishedExExHeight::NoExExs);
    match events.try_recv().unwrap() {
        PrunerEvent::Started { tip_block_number } => assert_eq!(tip_block_number, 5),
        other => panic!("expected a start event, got {:?}", other),
    }
    match events.try_recv().unwrap() {
        PrunerEvent::Finished { tip_block_number, stats, .. } => {
            assert_eq!(tip_block_number, 5);
            assert_eq!(stats.len(), 1);
            assert_eq!(stats[0].0, PruneSegment::AccountHistory);
            assert_eq!(stats[0].1, 5);
        }
        other => panic!("expected a finish event, got {:?}", other),
    }
}

#[test]
fn ancient_sidecar_sweep_removes_partitions_below_boundary() {
    // Scenario: a million blocks of sidecars kept, a tip at 2.5 million, and
    // partitions from genesis to two million present on disk.
    let mut pruner = Pruner::new(vec![], 5, 100, None, no_consumers(), 1_000_000);
    let mut provider = ProviderRw::new(StaticFileStore::new());
    for start in [0u64, 500_000, 1_000_000, 1_500_000, 2_000_000] {
        provider.static_files.sidecar_partitions.push(start);
    }
    let removed = pruner.prune_ancient_sidecars(&mut provider, 2_500_000);
    // Partitions strictly below the fixed range of block 1.5 million go,
    // newest first; the gauge tracks the block above the last deletion.
    assert_eq!(removed, vec![1_000_000, 500_000, 0]);
    assert_eq!(provider.static_files.sidecar_partitions, vec![1_500_000, 2_000_000]);
    assert_eq!(pruner.oldest_sidecars_height, 500_000);

    // Running the sweep again is a no-op.
    let removed_again = pruner.prune_ancient_sidecars(&mut provider, 2_500_000);
    assert!(removed_again.is_empty());
    assert_eq!(provider.static_files.sidecar_partitions, vec![1_500_000, 2_000_000]);
    assert_eq!(pruner.oldest_sidecars_height, 500_000);
}

#[test]
fn ancient_sidecar_sweep_stops_at_gap() {
    let mut pruner = Pruner::new(vec![], 5, 100, None, no_consumers(), 500_000);
    let mut provider = ProviderRw::new(StaticFileStore::new());
    // Partition at 500_000 exists, genesis partition exists, but the one at
    // 1_000_000 is already gone.
    for start in [0u64, 500_000] {
        provider.static_files.sidecar_partitions.push(start);
    }
    let removed = pruner.prune_ancient_sidecars(&mut provider, 2_000_000);
    // Boundary is 1_500_000; partition 1_000_000 is missing, so the sweep
    // stops at the gap and deletes nothing.
    assert!(removed.is_empty());
    assert_eq!(provider.static_files.sidecar_partitions, vec![0, 500_000]);
}

#[test]
fn sweep_disabled_when_no_blocks_kept() {
    let mut pruner = Pruner::new(vec![], 5, 100, None, no_consumers(), 0);
    let mut provider = ProviderRw::new(StaticFileStore::new());
    provider.static_files.sidecar_partitions.push(0);
    let removed = pruner.prune_ancient_sidecars(&mut provider, 2_000_000);
    assert!(removed.is_empty());
    assert_eq!(provider.static_files.sidecar_partitions, vec![0]);
}
