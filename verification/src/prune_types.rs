//! Prune segments, retention modes, checkpoints, and per-run outputs.

use vstd::prelude::*;

verus! {

/// A logical unit of prunable data with its own checkpoint and retention
/// policy.
#[derive(Clone, Copy, Debug, PartialEq, Eq, Structural)]
pub enum PruneSegment {
    /// Recovered transaction senders.
    SenderRecovery,
    /// Transaction-hash to transaction-number lookup entries.
    TransactionLookup,
    /// Transaction receipts.
    Receipts,
    /// Receipts kept for configured log filters.
    ContractLogs,
    /// Account change history.
    AccountHistory,
    /// Storage change history.
    StorageHistory,
    /// Block headers mirrored in the database.
    Headers,
    /// Transactions mirrored in the database.
    Transactions,
    /// Blob sidecars mirrored in the database.
    Sidecars,
}

/// Distinguishes multiple configurations of the same segment kind.
#[derive(Clone, Copy, Debug, PartialEq, Eq, Structural)]
pub enum PrunePurpose {
    /// Pruning requested by user retention configuration.
    User,
    /// Pruning of database data that already lives in static files.
    StaticFile,
}

impl PrunePurpose {
    /// True for the static-file purpose.
    pub open spec fn spec_is_static_file(self) -> bool {
        self is StaticFile
    }

    /// Returns true if this is the static-file purpose.
    pub fn is_static_file(self) -> (r: bool)
        ensures
            r == self.spec_is_static_file(),
    {
        match self {
            PrunePurpose::StaticFile => true,
            PrunePurpose::User => false,
        }
    }
}

/// Declarative retention policy for one prune segment.
#[derive(Clone, Copy, Debug, PartialEq, Eq, Structural)]
pub enum PruneMode {
    /// Prune everything up to the tip.
    Full,
    /// Keep this many most recent blocks of history behind the tip.
    Distance(u64),
    /// Prune all blocks strictly before the given block.
    Before(u64),
}

/// The highest block eligible for deletion on this run, if any.
///
/// `Distance(d)` prunes up to `tip - d`, and yields nothing while the chain is
/// shorter than `d` blocks. `Before(n)` prunes up to `n - 1` once the tip has
/// reached `n`; for the static-file purpose it also accepts `n == tip + 1`, so
/// database data mirrored in static files can be pruned to the tip itself.
pub open spec fn prune_target_block_spec(
    mode: PruneMode,
    tip: u64,
    purpose: PrunePurpose,
) -> Option<u64> {
    match mode {
        PruneMode::Full => Some(tip),
        PruneMode::Distance(d) => if d > tip {
            None
        } else {
            Some((tip - d) as u64)
        },
        PruneMode::Before(n) => if n > 0 && n - 1 == tip && purpose.spec_is_static_file() {
            Some(tip)
        } else if n > tip || n == 0 {
            None
        } else {
            Some((n - 1) as u64)
        },
    }
}

impl PruneMode {
    /// Returns the inclusive upper bound of the block range eligible for
    /// deletion on this run, together with the mode itself, or `None` when
    /// this mode permits no pruning at the given tip.
    pub fn prune_target_block(self, tip: u64, purpose: PrunePurpose) -> (r: Option<(u64, PruneMode)>)
        ensures
            r matches Some(p) ==> prune_target_block_spec(self, tip, purpose) == Some(p.0)
                && p.1 == self,
            r is None <==> prune_target_block_spec(self, tip, purpose) is None,
            r matches Some(p) ==> p.0 <= tip,
    {
        match self {
            PruneMode::Full => Some((tip, self)),
            PruneMode::Distance(d) => {
                if d > tip {
                    None
                } else {
                    Some((tip - d, self))
                }
            }
            PruneMode::Before(n) => {
                if n > 0 && n - 1 == tip && purpose.is_static_file() {
                    Some((tip, self))
                } else if n > tip || n == 0 {
                    None
                } else {
                    Some((n - 1, self))
                }
            }
        }
    }
}

/// Persisted record of how far a segment has been pruned.
#[derive(Clone, Copy, Debug, PartialEq, Eq, Structural)]
pub struct PruneCheckpoint {
    /// Highest pruned block, `None` when nothing was pruned yet.
    pub block_number: Option<u64>,
    /// Highest pruned transaction number, for transaction-indexed segments.
    pub tx_number: Option<u64>,
    /// The mode the segment was last pruned with.
    pub prune_mode: PruneMode,
}

/// Checkpoint data produced by one segment invocation, before the prune mode
/// is attached.
#[derive(Clone, Copy, Debug, PartialEq, Eq, Structural)]
pub struct SegmentOutputCheckpoint {
    /// Highest pruned block.
    pub block_number: Option<u64>,
    /// Highest pruned transaction number.
    pub tx_number: Option<u64>,
}

impl SegmentOutputCheckpoint {
    /// Attaches a prune mode, forming a persistable checkpoint.
    pub fn as_prune_checkpoint(self, prune_mode: PruneMode) -> (r: PruneCheckpoint)
        ensures
            r.block_number == self.block_number,
            r.tx_number == self.tx_number,
            r.prune_mode == prune_mode,
    {
        PruneCheckpoint { block_number: self.block_number, tx_number: self.tx_number, prune_mode }
    }
}

/// Why a segment stopped before reaching its target block.
#[derive(Clone, Copy, Debug, PartialEq, Eq, Structural)]
pub enum PruneInterruptReason {
    /// The global delete budget was exhausted.
    DeletedEntriesLimitReached,
    /// The soft deadline passed.
    TimeLimitReached,
    /// The segment ran out of data it could prune in one batch.
    EndOfSegment,
}

/// Whether pruning of a segment, or a whole run, is complete.
#[derive(Clone, Copy, Debug, PartialEq, Eq, Structural)]
pub enum PruneProgress {
    /// Everything eligible was pruned.
    Finished,
    /// More data remains, for the given reason.
    HasMoreData(PruneInterruptReason),
}

/// Result of pruning one segment.
#[derive(Clone, Copy, Debug, PartialEq, Eq, Structural)]
pub struct SegmentOutput {
    /// Number of entries deleted.
    pub pruned: usize,
    /// Checkpoint to persist, if the segment advanced.
    pub checkpoint: Option<SegmentOutputCheckpoint>,
    /// Whether this segment is done at its current target.
    pub progress: PruneProgress,
}

/// Result of one pruner run.
#[derive(Clone, Debug, PartialEq, Eq)]
pub struct PrunerOutput {
    /// Overall progress: `HasMoreData` if any segment was interrupted.
    pub progress: PruneProgress,
    /// Per-segment outputs, in segment-iteration order.
    pub segments: Vec<(PruneSegment, SegmentOutput)>,
}

/// Sum of the deleted-entry counts over per-segment outputs.
pub open spec fn sum_pruned(outputs: Seq<(PruneSegment, SegmentOutput)>) -> int
    decreases outputs.len(),
{
    if outputs.len() == 0 {
        0
    } else {
        sum_pruned(outputs.drop_last()) + outputs.last().1.pruned
    }
}

/// Pruning configuration for every part of the data that can be pruned.
#[derive(Clone, Debug, PartialEq, Eq)]
pub struct PruneModes {
    /// Retention for recovered senders.
    pub sender_recovery: Option<PruneMode>,
    /// Retention for the transaction lookup table.
    pub transaction_lookup: Option<PruneMode>,
    /// Retention for receipts.
    pub receipts: Option<PruneMode>,
    /// Retention for account history.
    pub account_history: Option<PruneMode>,
    /// Retention for storage history.
    pub storage_history: Option<PruneMode>,
    /// Per-address retention for receipts kept for log filters; the address is
    /// carried as its numeric account id.
    pub receipts_log_filter: Vec<(u64, PruneMode)>,
}

impl PruneModes {
    /// Configuration that prunes nothing.
    pub fn none() -> (r: PruneModes)
        ensures
            r.sender_recovery is None,
            r.transaction_lookup is None,
            r.receipts is None,
            r.account_history is None,
            r.storage_history is None,
            r.receipts_log_filter@.len() == 0,
    {
        PruneModes {
            sender_recovery: None,
            transaction_lookup: None,
            receipts: None,
            account_history: None,
            storage_history: None,
            receipts_log_filter: Vec::new(),
        }
    }
}

} // verus!
