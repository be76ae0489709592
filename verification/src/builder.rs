//! Builder for the pruner: collects the retention knobs and instantiates
//! the canonical segment set.

use vstd::prelude::*;

use crate::events::{no_exexs_receiver, FinishedExExHeight};
use crate::pruner::Pruner;
use crate::prune_types::PruneModes;
use crate::segments::SegmentSet;

verus! {

/// Default minimum pruning interval, in blocks.
pub const DEFAULT_BLOCK_INTERVAL: usize = 5;

/// Default soft deadline for a prune run, in milliseconds, used when a
/// timeout is enabled.
pub const DEFAULT_TIMEOUT_MILLIS: u64 = 100;

/// Per-run delete budget of the mainnet chain configuration.
pub const MAINNET_PRUNE_DELETE_LIMIT: usize = 20000;

/// Pruning configuration as read from the node's configuration file.
#[derive(Clone, Debug, PartialEq, Eq)]
pub struct PruneConfig {
    /// Minimum pruning interval measured in blocks.
    pub block_interval: usize,
    /// Retention configuration for every prunable segment.
    pub segments: PruneModes,
    /// The number of recent blocks whose sidecar partitions are kept.
    pub recent_sidecars_kept_blocks: usize,
}

/// Contains the information required to build a pruner.
pub struct PrunerBuilder {
    /// Minimum pruning interval measured in blocks.
    pub block_interval: usize,
    /// Retention configuration for every prunable segment.
    pub segments: PruneModes,
    /// The delete limit for the pruner, per run.
    pub delete_limit: usize,
    /// Soft deadline a prune run may take before timing out, in
    /// milliseconds.
    pub timeout_millis: Option<u64>,
    /// The finished height of all extension consumers.
    pub finished_exex_height: tokio::sync::watch::Receiver<FinishedExExHeight>,
    /// The number of recent blocks whose sidecar partitions are kept.
    pub recent_sidecars_kept_blocks: usize,
}

impl PrunerBuilder {
    /// Creates a new builder from the given configuration.
    pub fn new(pruner_config: PruneConfig) -> (r: PrunerBuilder)
        ensures
            r.block_interval == pruner_config.block_interval,
            r.segments == pruner_config.segments,
            r.recent_sidecars_kept_blocks == pruner_config.recent_sidecars_kept_blocks,
            r.delete_limit == MAINNET_PRUNE_DELETE_LIMIT,
            r.timeout_millis is None,
    {
        let PruneConfig { block_interval, segments, recent_sidecars_kept_blocks } = pruner_config;
        PrunerBuilder::default().block_interval(block_interval).segments(
            segments,
        ).recent_sidecars_kept_blocks(recent_sidecars_kept_blocks)
    }

    /// Sets the minimum pruning interval measured in blocks.
    pub fn block_interval(self, block_interval: usize) -> (r: PrunerBuilder)
        ensures
            r == (PrunerBuilder { block_interval, ..self }),
    {
        PrunerBuilder { block_interval, ..self }
    }

    /// Sets the retention configuration for every prunable segment.
    pub fn segments(self, segments: PruneModes) -> (r: PrunerBuilder)
        ensures
            r == (PrunerBuilder { segments, ..self }),
    {
        PrunerBuilder { segments, ..self }
    }

    /// Sets the delete limit for the pruner, per run.
    pub fn delete_limit(self, prune_delete_limit: usize) -> (r: PrunerBuilder)
        ensures
            r == (PrunerBuilder { delete_limit: prune_delete_limit, ..self }),
    {
        PrunerBuilder { delete_limit: prune_delete_limit, ..self }
    }

    /// Sets the soft deadline for the pruner, per run, in milliseconds.
    ///
    /// Account- and storage-history segments treat the deadline as a soft
    /// limit and may overrun it.
    pub fn timeout(self, timeout_millis: u64) -> (r: PrunerBuilder)
        ensures
            r == (PrunerBuilder { timeout_millis: Some(timeout_millis), ..self }),
    {
        PrunerBuilder { timeout_millis: Some(timeout_millis), ..self }
    }

    /// Sets the receiver for the finished height of all extension
    /// consumers.
    pub fn finished_exex_height(
        self,
        finished_exex_height: tokio::sync::watch::Receiver<FinishedExExHeight>,
    ) -> (r: PrunerBuilder)
        ensures
            r.block_interval == self.block_interval,
            r.segments == self.segments,
            r.delete_limit == self.delete_limit,
            r.timeout_millis == self.timeout_millis,
            r.recent_sidecars_kept_blocks == self.recent_sidecars_kept_blocks,
    {
        PrunerBuilder { finished_exex_height, ..self }
    }

    /// Sets the number of recent blocks whose sidecar partitions are kept.
    pub fn recent_sidecars_kept_blocks(self, recent_sidecars_kept_blocks: usize) -> (
        r: PrunerBuilder)
        ensures
            r == (PrunerBuilder { recent_sidecars_kept_blocks, ..self }),
    {
        PrunerBuilder { recent_sidecars_kept_blocks, ..self }
    }

    /// Builds a pruner from the current configuration, with the canonical
    /// ordered segment set instantiated from the retention modes.
    pub fn build(self) -> (r: Pruner)
        ensures
            r.segments@ == SegmentSet::spec_from_components(self.segments),
            r.min_block_interval == self.block_interval,
            r.previous_tip_block_number is None,
            r.delete_limit == self.delete_limit,
            r.timeout_millis == self.timeout_millis,
            r.recent_sidecars_kept_blocks == self.recent_sidecars_kept_blocks,
            r.oldest_sidecars_height == 0,
    {
        let PrunerBuilder {
            block_interval,
            segments,
            delete_limit,
            timeout_millis,
            finished_exex_height,
            recent_sidecars_kept_blocks,
        } = self;
        let segment_set = SegmentSet::from_components(segments);
        Pruner::new(
            segment_set.into_vec(),
            block_interval,
            delete_limit,
            timeout_millis,
            finished_exex_height,
            recent_sidecars_kept_blocks,
        )
    }
}

impl Default for PrunerBuilder {
    /// The default configuration: a five-block interval, no retention
    /// configured, the mainnet delete limit, no timeout, no consumers, and
    /// the sidecar sweep disabled.
    fn default() -> (r: PrunerBuilder)
        ensures
            r.block_interval == DEFAULT_BLOCK_INTERVAL,
            r.segments.sender_recovery is None,
            r.segments.transaction_lookup is None,
            r.segments.receipts is None,
            r.segments.account_history is None,
            r.segments.storage_history is None,
            r.segments.receipts_log_filter@.len() == 0,
            r.delete_limit == MAINNET_PRUNE_DELETE_LIMIT,
            r.timeout_millis is None,
            r.recent_sidecars_kept_blocks == 0,
    {
        PrunerBuilder {
            block_interval: DEFAULT_BLOCK_INTERVAL,
            segments: PruneModes::none(),
            delete_limit: MAINNET_PRUNE_DELETE_LIMIT,
            timeout_millis: None,
            finished_exex_height: no_exexs_receiver(),
            recent_sidecars_kept_blocks: 0,
        }
    }
}

} // verus!
