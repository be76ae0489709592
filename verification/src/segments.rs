//! The prune segments: the polymorphic unit of prunable data, and the
//! builder for the canonical ordered segment set.

use vstd::prelude::*;

use crate::limiter::PruneLimiter;
use crate::provider::ProviderRw;
use crate::prune_types::{
    prune_target_block_spec, PruneCheckpoint, PruneMode, PruneModes, PruneProgress, PrunePurpose,
    PruneSegment, PruneInterruptReason, SegmentOutput, SegmentOutputCheckpoint,
};
use crate::static_files::{StaticFileSegment, StaticFileStore};

verus! {

/// Input to one segment invocation.
#[derive(Clone, Copy, Debug, PartialEq, Eq, Structural)]
pub struct PruneInput {
    /// The checkpoint left by the previous run of this segment, if any.
    pub previous_checkpoint: Option<PruneCheckpoint>,
    /// Inclusive upper bound of the block range eligible for deletion.
    pub to_block: u64,
    /// Snapshot of the budget at entry to the segment.
    pub limiter: PruneLimiter,
}

/// One prunable unit: a database history table or the database mirror of a
/// static-file segment.
///
/// The segment list is closed, so the polymorphic capability of the segments
/// is captured as a tagged variant rather than an open interface.
#[derive(Clone, Debug, PartialEq, Eq)]
pub enum Segment {
    /// Database headers already persisted in static files.
    StaticFileHeaders,
    /// Database transactions already persisted in static files.
    StaticFileTransactions,
    /// Database receipts already persisted in static files.
    StaticFileReceipts,
    /// Database sidecars already persisted in static files.
    StaticFileSidecars,
    /// Account change history, with its retention mode.
    AccountHistory(PruneMode),
    /// Storage change history, with its retention mode.
    StorageHistory(PruneMode),
    /// Receipts pruned by user retention, with its retention mode.
    UserReceipts(PruneMode),
    /// Receipts kept for log filters, with per-address retention modes; each
    /// address is carried as its numeric account id.
    ReceiptsByLogs(Vec<(u64, PruneMode)>),
    /// The transaction-hash lookup table, with its retention mode.
    TransactionLookup(PruneMode),
    /// Recovered senders, with its retention mode.
    SenderRecovery(PruneMode),
}

/// The prune target over a log-filter configuration: the least target over
/// the per-address modes, paired with the mode that attains it.
pub open spec fn lowest_filter_target_spec(
    filter: Seq<(u64, PruneMode)>,
    tip: u64,
) -> Option<(u64, PruneMode)>
    decreases filter.len(),
{
    if filter.len() == 0 {
        None
    } else {
        let rest = lowest_filter_target_spec(filter.drop_last(), tip);
        let entry = filter.last();
        match prune_target_block_spec(entry.1, tip, PrunePurpose::User) {
            Some(t) => match rest {
                Some(r) => if t < r.0 {
                    Some((t, entry.1))
                } else {
                    Some(r)
                },
                None => Some((t, entry.1)),
            },
            None => rest,
        }
    }
}

impl Segment {
    /// The stable identity of this segment.
    pub open spec fn spec_segment(self) -> PruneSegment {
        match self {
            Segment::StaticFileHeaders => PruneSegment::Headers,
            Segment::StaticFileTransactions => PruneSegment::Transactions,
            Segment::StaticFileReceipts => PruneSegment::Receipts,
            Segment::StaticFileSidecars => PruneSegment::Sidecars,
            Segment::AccountHistory(_) => PruneSegment::AccountHistory,
            Segment::StorageHistory(_) => PruneSegment::StorageHistory,
            Segment::UserReceipts(_) => PruneSegment::Receipts,
            Segment::ReceiptsByLogs(_) => PruneSegment::ContractLogs,
            Segment::TransactionLookup(_) => PruneSegment::TransactionLookup,
            Segment::SenderRecovery(_) => PruneSegment::SenderRecovery,
        }
    }

    /// Returns the stable identity of this segment.
    pub fn segment(&self) -> (r: PruneSegment)
        ensures
            r == self.spec_segment(),
    {
        match self {
            Segment::StaticFileHeaders => PruneSegment::Headers,
            Segment::StaticFileTransactions => PruneSegment::Transactions,
            Segment::StaticFileReceipts => PruneSegment::Receipts,
            Segment::StaticFileSidecars => PruneSegment::Sidecars,
            Segment::AccountHistory(_) => PruneSegment::AccountHistory,
            Segment::StorageHistory(_) => PruneSegment::StorageHistory,
            Segment::UserReceipts(_) => PruneSegment::Receipts,
            Segment::ReceiptsByLogs(_) => PruneSegment::ContractLogs,
            Segment::TransactionLookup(_) => PruneSegment::TransactionLookup,
            Segment::SenderRecovery(_) => PruneSegment::SenderRecovery,
        }
    }

    /// The purpose of this segment.
    pub open spec fn spec_purpose(self) -> PrunePurpose {
        match self {
            Segment::StaticFileHeaders
            | Segment::StaticFileTransactions
            | Segment::StaticFileReceipts
            | Segment::StaticFileSidecars => PrunePurpose::StaticFile,
            _ => PrunePurpose::User,
        }
    }

    /// Returns the purpose of this segment.
    pub fn purpose(&self) -> (r: PrunePurpose)
        ensures
            r == self.spec_purpose(),
    {
        match self {
            Segment::StaticFileHeaders
            | Segment::StaticFileTransactions
            | Segment::StaticFileReceipts
            | Segment::StaticFileSidecars => PrunePurpose::StaticFile,
            _ => PrunePurpose::User,
        }
    }

    /// The retention mode of this segment, given the current static-file
    /// tier.
    ///
    /// Static-file segments prune database data up to the highest block
    /// their segment file holds, so their mode is derived from the store.
    /// The log-filter segment carries one mode per address and reports none
    /// here; its target is computed by [`Segment::prune_target`].
    pub open spec fn spec_mode(self, store: StaticFileStore) -> Option<PruneMode> {
        match self {
            Segment::StaticFileHeaders => spec_static_file_mode(
                store.spec_highest_block(StaticFileSegment::Headers),
            ),
            Segment::StaticFileTransactions => spec_static_file_mode(
                store.spec_highest_block(StaticFileSegment::Transactions),
            ),
            Segment::StaticFileReceipts => spec_static_file_mode(
                store.spec_highest_block(StaticFileSegment::Receipts),
            ),
            Segment::StaticFileSidecars => spec_static_file_mode(
                store.spec_highest_block(StaticFileSegment::Sidecars),
            ),
            Segment::AccountHistory(m) => Some(m),
            Segment::StorageHistory(m) => Some(m),
            Segment::UserReceipts(m) => Some(m),
            Segment::ReceiptsByLogs(_) => None,
            Segment::TransactionLookup(m) => Some(m),
            Segment::SenderRecovery(m) => Some(m),
        }
    }

    /// Returns the retention mode of this segment, or `None` when the
    /// segment is disabled for this run.
    pub fn mode(&self, store: &StaticFileStore) -> (r: Option<PruneMode>)
        ensures
            r == self.spec_mode(*store),
    {
        match self {
            Segment::StaticFileHeaders => static_file_mode(
                store.get_highest_static_file_block(StaticFileSegment::Headers),
            ),
            Segment::StaticFileTransactions => static_file_mode(
                store.get_highest_static_file_block(StaticFileSegment::Transactions),
            ),
            Segment::StaticFileReceipts => static_file_mode(
                store.get_highest_static_file_block(StaticFileSegment::Receipts),
            ),
            Segment::StaticFileSidecars => static_file_mode(
                store.get_highest_static_file_block(StaticFileSegment::Sidecars),
            ),
            Segment::AccountHistory(m) => Some(*m),
            Segment::StorageHistory(m) => Some(*m),
            Segment::UserReceipts(m) => Some(*m),
            Segment::ReceiptsByLogs(_) => None,
            Segment::TransactionLookup(m) => Some(*m),
            Segment::SenderRecovery(m) => Some(*m),
        }
    }

    /// The prune target of this segment at the given tip: the inclusive
    /// highest block eligible for deletion, with the mode that selected it.
    pub open spec fn spec_prune_target(self, store: StaticFileStore, tip: u64) -> Option<
        (u64, PruneMode),
    > {
        match self {
            Segment::ReceiptsByLogs(filter) => lowest_filter_target_spec(filter@, tip),
            _ => match self.spec_mode(store) {
                Some(m) => match prune_target_block_spec(m, tip, self.spec_purpose()) {
                    Some(t) => Some((t, m)),
                    None => None,
                },
                None => None,
            },
        }
    }

    /// Returns the prune target of this segment at the given tip, or `None`
    /// when nothing may be pruned on this run.
    pub fn prune_target(&self, store: &StaticFileStore, tip: u64) -> (r: Option<(u64, PruneMode)>)
        ensures
            r == self.spec_prune_target(*store, tip),
            r matches Some(p) ==> p.0 <= tip,
    {
        match self {
            Segment::ReceiptsByLogs(filter) => {
                let mut best: Option<(u64, PruneMode)> = None;
                let mut i: usize = 0;
                while i < filter.len()
                    invariant
                        i <= filter@.len(),
                        best == lowest_filter_target_spec(filter@.subrange(0, i as int), tip),
                        best matches Some(p) ==> p.0 <= tip,
                    decreases filter@.len() - i,
                {
                    let entry = filter[i];
                    let target = entry.1.prune_target_block(tip, PrunePurpose::User);
                    proof {
                        assert(filter@.subrange(0, i + 1int).drop_last() == filter@.subrange(
                            0,
                            i as int,
                        ));
                        assert(filter@.subrange(0, i + 1int).last() == filter@[i as int]);
                    }
                    match target {
                        Some(t) => {
                            match best {
                                Some(b) => {
                                    if t.0 < b.0 {
                                        best = Some((t.0, entry.1));
                                    }
                                }
                                None => {
                                    best = Some((t.0, entry.1));
                                }
                            }
                        }
                        None => {}
                    }
                    i += 1;
                }
                proof {
                    assert(filter@.subrange(0, filter@.len() as int) == filter@);
                }
                best
            }
            _ => {
                match self.mode(store) {
                    Some(m) => {
                        match m.prune_target_block(tip, self.purpose()) {
                            Some(p) => Some(p),
                            None => None,
                        }
                    }
                    None => None,
                }
            }
        }
    }
}

/// Mode of a static-file segment given the highest block its file holds:
/// everything the file holds may be pruned from the database.
pub open spec fn spec_static_file_mode(highest: Option<u64>) -> Option<PruneMode> {
    match highest {
        Some(b) => if b < u64::MAX {
            Some(PruneMode::Before((b + 1) as u64))
        } else {
            None
        },
        None => None,
    }
}

/// Exec counterpart of [`spec_static_file_mode`].
fn static_file_mode(highest: Option<u64>) -> (r: Option<PruneMode>)
    ensures
        r == spec_static_file_mode(highest),
{
    match highest {
        Some(b) => {
            if b < u64::MAX {
                Some(PruneMode::Before(b + 1))
            } else {
                None
            }
        }
        None => None,
    }
}

/// Collection of [`Segment`]s, iterated in insertion order.
#[derive(Clone, Debug, PartialEq, Eq)]
pub struct SegmentSet {
    inner: Vec<Segment>,
}

impl SegmentSet {
    /// The segments, in iteration order.
    pub closed spec fn view(self) -> Seq<Segment> {
        self.inner@
    }

    /// Returns an empty collection.
    pub fn new() -> (r: SegmentSet)
        ensures
            r@.len() == 0,
    {
        SegmentSet { inner: Vec::new() }
    }

    /// Adds a new segment to the collection.
    pub fn segment(self, segment: Segment) -> (r: SegmentSet)
        ensures
            r@ == self@.push(segment),
    {
        let mut inner = self.inner;
        inner.push(segment);
        SegmentSet { inner }
    }

    /// Adds a new segment to the collection if it is `Some`.
    pub fn segment_opt(self, segment: Option<Segment>) -> (r: SegmentSet)
        ensures
            segment matches Some(s) ==> r@ == self@.push(s),
            segment is None ==> r@ == self@,
    {
        match segment {
            Some(s) => self.segment(s),
            None => self,
        }
    }

    /// Consumes the collection and returns the segments in order.
    pub fn into_vec(self) -> (r: Vec<Segment>)
        ensures
            r@ == self@,
    {
        self.inner
    }

    /// The canonical ordered segment set for a retention configuration:
    /// the four static-file segments first, then the history segments, the
    /// receipt segments, the transaction lookup, and sender recovery.
    pub open spec fn spec_from_components(prune_modes: PruneModes) -> Seq<Segment> {
        let base = seq![
            Segment::StaticFileHeaders,
            Segment::StaticFileTransactions,
            Segment::StaticFileReceipts,
            Segment::StaticFileSidecars,
        ];
        let s1 = match prune_modes.account_history {
            Some(m) => base.push(Segment::AccountHistory(m)),
            None => base,
        };
        let s2 = match prune_modes.storage_history {
            Some(m) => s1.push(Segment::StorageHistory(m)),
            None => s1,
        };
        let s3 = match prune_modes.receipts {
            Some(m) => s2.push(Segment::UserReceipts(m)),
            None => s2,
        };
        let s4 = if prune_modes.receipts_log_filter@.len() > 0 {
            s3.push(Segment::ReceiptsByLogs(prune_modes.receipts_log_filter))
        } else {
            s3
        };
        let s5 = match prune_modes.transaction_lookup {
            Some(m) => s4.push(Segment::TransactionLookup(m)),
            None => s4,
        };
        match prune_modes.sender_recovery {
            Some(m) => s5.push(Segment::SenderRecovery(m)),
            None => s5,
        }
    }

    /// Creates the canonical ordered segment set from a retention
    /// configuration.
    pub fn from_components(prune_modes: PruneModes) -> (r: SegmentSet)
        ensures
            r@ == Self::spec_from_components(prune_modes),
    {
        let PruneModes {
            sender_recovery,
            transaction_lookup,
            receipts,
            account_history,
            storage_history,
            receipts_log_filter,
        } = prune_modes;
        let ghost modes = prune_modes;
        let filter_empty = receipts_log_filter.len() == 0;
        let r = SegmentSet::new()
            .segment(Segment::StaticFileHeaders)
            .segment(Segment::StaticFileTransactions)
            .segment(Segment::StaticFileReceipts)
            .segment(Segment::StaticFileSidecars)
            .segment_opt(
                match account_history {
                    Some(m) => Some(Segment::AccountHistory(m)),
                    None => None,
                },
            )
            .segment_opt(
                match storage_history {
                    Some(m) => Some(Segment::StorageHistory(m)),
                    None => None,
                },
            )
            .segment_opt(
                match receipts {
                    Some(m) => Some(Segment::UserReceipts(m)),
                    None => None,
                },
            )
            .segment_opt(
                if filter_empty {
                    None
                } else {
                    Some(Segment::ReceiptsByLogs(receipts_log_filter))
                },
            )
            .segment_opt(
                match transaction_lookup {
                    Some(m) => Some(Segment::TransactionLookup(m)),
                    None => None,
                },
            )
            .segment_opt(
                match sender_recovery {
                    Some(m) => Some(Segment::SenderRecovery(m)),
                    None => None,
                },
            );
        proof {
            assert(r@ =~= Self::spec_from_components(modes));
        }
        r
    }
}

impl Default for SegmentSet {
    /// Returns an empty collection.
    fn default() -> (r: SegmentSet)
        ensures
            r@.len() == 0,
    {
        SegmentSet::new()
    }
}

/// A target at or below the previous checkpoint would regress it, so the
/// segment refuses it and leaves everything untouched.
pub open spec fn spec_target_blocked(prev: Option<PruneCheckpoint>, to_block: u64) -> bool {
    match prev {
        Some(pc) => match pc.block_number {
            Some(pb) => pb >= to_block,
            None => false,
        },
        None => false,
    }
}

/// The number of entries one segment invocation deletes: every entry at or
/// below the target, capped by the budget left in the limiter.
pub open spec fn spec_prune_count(limiter: PruneLimiter, entries: Seq<u64>, to_block: u64) -> int {
    let eligible = crate::sorted::count_le(entries, to_block);
    match limiter.spec_deleted_entries_limit_left() {
        Some(left) => if left < eligible {
            left
        } else {
            eligible
        },
        None => eligible,
    }
}

/// The exact result of one segment invocation over the entries of its table:
/// a blocked target deletes nothing; otherwise the eligible prefix is
/// deleted up to the budget, the checkpoint records the target when
/// everything eligible went (the last deleted block otherwise), and the
/// progress says whether eligible data remains.
pub open spec fn spec_segment_output(
    prev: Option<PruneCheckpoint>,
    entries: Seq<u64>,
    limiter: PruneLimiter,
    to_block: u64,
) -> SegmentOutput {
    if spec_target_blocked(prev, to_block) {
        SegmentOutput { pruned: 0, checkpoint: None, progress: PruneProgress::Finished }
    } else {
        let n = spec_prune_count(limiter, entries, to_block);
        let done = n == crate::sorted::count_le(entries, to_block);
        SegmentOutput {
            pruned: n as usize,
            checkpoint: if done {
                Some(SegmentOutputCheckpoint { block_number: Some(to_block), tx_number: None })
            } else if n > 0 {
                Some(
                    SegmentOutputCheckpoint {
                        block_number: Some(entries[n - 1]),
                        tx_number: None,
                    },
                )
            } else {
                None
            },
            progress: if done {
                PruneProgress::Finished
            } else {
                PruneProgress::HasMoreData(PruneInterruptReason::DeletedEntriesLimitReached)
            },
        }
    }
}

impl Segment {
    /// Prunes this segment's table up to `input.to_block`, within the budget
    /// left in `input.limiter`, deleting oldest entries first.
    ///
    /// The result is fixed exactly by [`spec_segment_output`]; in
    /// particular, the checkpoint in the output, when present, always lies
    /// above the previous checkpoint, and above every entry the table still
    /// holds.
    pub fn prune(&self, provider: &mut ProviderRw, input: PruneInput) -> (out: SegmentOutput)
        requires
            old(provider).wf(),
            input.previous_checkpoint == old(provider).checkpoints.spec_get(self.spec_segment()),
        ensures
            out == spec_segment_output(
                input.previous_checkpoint,
                old(provider).tables.spec_table(self.spec_segment()).entries@,
                input.limiter,
                input.to_block,
            ),
            final(provider).wf(),
            final(provider).checkpoints == old(provider).checkpoints,
            final(provider).static_files == old(provider).static_files,
            // Only this segment's table changes, and only by deleting a
            // prefix of eligible entries.
            final(provider).tables == old(provider).tables.spec_with_table(
                self.spec_segment(),
                final(provider).tables.spec_table(self.spec_segment()),
            ),
            out.pruned <= old(provider).tables.spec_table(self.spec_segment()).entries@.len(),
            final(provider).tables.spec_table(self.spec_segment()).entries@ == old(provider).tables.spec_table(self.spec_segment()).entries@.subrange(
                out.pruned as int,
                old(provider).tables.spec_table(self.spec_segment()).entries@.len() as int,
            ),
            forall|i: int|
                0 <= i < out.pruned ==> old(provider).tables.spec_table(
                    self.spec_segment(),
                ).entries@[i] <= input.to_block,
            // The budget is respected.
            input.limiter.spec_deleted_entries_limit_left() matches Some(left) ==> out.pruned
                <= left,
            // A new checkpoint strictly advances past the previous one and
            // past every remaining entry.
            out.checkpoint matches Some(c) ==> c.block_number matches Some(nb) && nb
                <= input.to_block,
            out.checkpoint matches Some(c) ==> (match input.previous_checkpoint {
                Some(pc) => match pc.block_number {
                    Some(pb) => c.block_number->Some_0 > pb,
                    None => true,
                },
                None => true,
            }),
            out.checkpoint matches Some(c) ==> forall|i: int|
                0 <= i < final(provider).tables.spec_table(self.spec_segment()).entries@.len()
                    ==> #[trigger] final(provider).tables.spec_table(
                    self.spec_segment(),
                ).entries@[i] > c.block_number->Some_0,
            // Finished means nothing eligible remains.
            out.progress is Finished ==> (final(provider).tables.spec_table(
                self.spec_segment(),
            ).entries@.len() == 0 || final(provider).tables.spec_table(
                self.spec_segment(),
            ).entries@[0] > input.to_block),
    {
        let seg = self.segment();
        // A target at or below the previous checkpoint would regress it;
        // nothing is eligible in that case.
        let blocked = match input.previous_checkpoint {
            Some(pc) => match pc.block_number {
                Some(pb) => pb >= input.to_block,
                None => false,
            },
            None => false,
        };
        if blocked {
            proof {
                assert(old(provider).tables.spec_with_table(seg, old(provider).tables.spec_table(seg))
                    =~= old(provider).tables);
                assert(old(provider).tables.spec_table(seg).entries@.subrange(
                    0,
                    old(provider).tables.spec_table(seg).entries@.len() as int,
                ) =~= old(provider).tables.spec_table(seg).entries@);
            }
            return SegmentOutput { pruned: 0, checkpoint: None, progress: PruneProgress::Finished };
        }
        let budget = match input.limiter.deleted_entries_limit_left() {
            Some(left) => left,
            None => usize::MAX,
        };
        let (pruned, last_removed) = prune_table_of(provider, seg, input.to_block, budget);
        let first_left = first_entry(provider, seg);
        let done = match first_left {
            Some(b) => b > input.to_block,
            None => true,
        };
        proof {
            let old_entries = old(provider).tables.spec_table(seg).entries@;
            let new_entries = provider.tables.spec_table(seg).entries@;
            crate::sorted::lemma_count_le_prefix(old_entries, input.to_block);
            if pruned > 0 {
                crate::provider::lemma_prefix_removal_bound(old_entries, pruned as int);
            }
            let eligible = crate::sorted::count_le(old_entries, input.to_block);
            // The deleted prefix lies within the eligible prefix.
            assert(pruned <= eligible) by {
                if pruned > eligible {
                    assert(old_entries[eligible] <= input.to_block);
                    assert(old_entries[eligible] > input.to_block);
                }
            }
            // So the count is exactly the eligible prefix, capped by the
            // budget left in the limiter.
            assert(pruned == spec_prune_count(input.limiter, old_entries, input.to_block)) by {
                match input.limiter.spec_deleted_entries_limit_left() {
                    Some(left) => {
                        assert(budget == left);
                    }
                    None => {
                        assert(budget == usize::MAX);
                        if pruned != eligible {
                            assert(pruned == budget);
                            assert(eligible <= old_entries.len());
                        }
                    }
                }
            }
            // Done exactly when the whole eligible prefix went.
            assert(done == (pruned == eligible)) by {
                if pruned < eligible {
                    assert(old_entries[pruned as int] <= input.to_block);
                    assert(new_entries[0] == old_entries[pruned as int]);
                }
                if pruned == eligible {
                    if new_entries.len() > 0 {
                        assert(new_entries[0] == old_entries[pruned as int]);
                        assert(old_entries[pruned as int] > input.to_block);
                    }
                }
            }
            if done {
                // Remaining entries all exceed the target.
                assert forall|i: int| 0 <= i < new_entries.len() implies #[trigger] new_entries[i]
                    > input.to_block by {
                    if i > 0 {
                        assert(new_entries[0] < new_entries[i]);
                    }
                }
            }
            // Only a prefix of one table was deleted, so the relation between
            // tables and checkpoints is preserved.
            assert forall|s: PruneSegment, i: int|
                0 <= i < provider.tables.spec_table(s).entries@.len() && provider.checkpoint_block(
                    s,
                ) is Some implies #[trigger] provider.tables.spec_table(s).entries@[i]
                > provider.checkpoint_block(s)->Some_0 by {
                if s == seg {
                    assert(provider.tables.spec_table(s).entries@[i] == old_entries[i + pruned]);
                } else {
                    assert(provider.tables.spec_table(s) == old(provider).tables.spec_table(s));
                }
            }
        }
        let checkpoint = if done {
            Some(SegmentOutputCheckpoint { block_number: Some(input.to_block), tx_number: None })
        } else {
            match last_removed {
                Some(lb) => Some(SegmentOutputCheckpoint { block_number: Some(lb), tx_number: None }),
                None => None,
            }
        };
        let progress = if done {
            PruneProgress::Finished
        } else {
            PruneProgress::HasMoreData(PruneInterruptReason::DeletedEntriesLimitReached)
        };
        SegmentOutput { pruned, checkpoint, progress }
    }
}

/// Prunes the table of `seg` up to `to_block` within `budget`, returning the
/// number of deleted entries and the last deleted entry.
fn prune_table_of(provider: &mut ProviderRw, seg: PruneSegment, to_block: u64, budget: usize) -> (r:
    (usize, Option<u64>))
    requires
        old(provider).wf(),
    ensures
        final(provider).tables.wf(),
        final(provider).checkpoints == old(provider).checkpoints,
        final(provider).static_files == old(provider).static_files,
        final(provider).tables == old(provider).tables.spec_with_table(
            seg,
            final(provider).tables.spec_table(seg),
        ),
        final(provider).tables.spec_table(seg).entries@ == old(provider).tables.spec_table(
            seg,
        ).entries@.subrange(
            r.0 as int,
            old(provider).tables.spec_table(seg).entries@.len() as int,
        ),
        r.0 <= budget,
        r.0 <= old(provider).tables.spec_table(seg).entries@.len(),
        old(provider).tables.spec_table(seg).entries@.len() <= usize::MAX,
        forall|i: int|
            0 <= i < r.0 ==> old(provider).tables.spec_table(seg).entries@[i] <= to_block,
        r.0 < budget ==> (final(provider).tables.spec_table(seg).entries@.len() == 0 || final(provider).tables.spec_table(seg).entries@[0] > to_block),
        r.0 == budget || r.0 == crate::sorted::count_le(
            old(provider).tables.spec_table(seg).entries@,
            to_block,
        ),
        r.1 == (if r.0 > 0 {
            Some(old(provider).tables.spec_table(seg).entries@[r.0 - 1])
        } else {
            None::<u64>
        }),
{
    let r = match seg {
        PruneSegment::SenderRecovery => provider.tables.sender_recovery.prune(to_block, budget),
        PruneSegment::TransactionLookup => provider.tables.transaction_lookup.prune(
            to_block,
            budget,
        ),
        PruneSegment::Receipts => provider.tables.receipts.prune(to_block, budget),
        PruneSegment::ContractLogs => provider.tables.contract_logs.prune(to_block, budget),
        PruneSegment::AccountHistory => provider.tables.account_history.prune(to_block, budget),
        PruneSegment::StorageHistory => provider.tables.storage_history.prune(to_block, budget),
        PruneSegment::Headers => provider.tables.headers.prune(to_block, budget),
        PruneSegment::Transactions => provider.tables.transactions.prune(to_block, budget),
        PruneSegment::Sidecars => provider.tables.sidecars.prune(to_block, budget),
    };
    r
}

/// First entry of the table of `seg`, if any.
fn first_entry(provider: &ProviderRw, seg: PruneSegment) -> (r: Option<u64>)
    ensures
        r == (if provider.tables.spec_table(seg).entries@.len() > 0 {
            Some(provider.tables.spec_table(seg).entries@[0])
        } else {
            None::<u64>
        }),
{
    let table = match seg {
        PruneSegment::SenderRecovery => &provider.tables.sender_recovery,
        PruneSegment::TransactionLookup => &provider.tables.transaction_lookup,
        PruneSegment::Receipts => &provider.tables.receipts,
        PruneSegment::ContractLogs => &provider.tables.contract_logs,
        PruneSegment::AccountHistory => &provider.tables.account_history,
        PruneSegment::StorageHistory => &provider.tables.storage_history,
        PruneSegment::Headers => &provider.tables.headers,
        PruneSegment::Transactions => &provider.tables.transactions,
        PruneSegment::Sidecars => &provider.tables.sidecars,
    };
    if table.entries.len() > 0 {
        Some(table.entries[0])
    } else {
        None
    }
}

} // verus!
