//! The pruning routine: decides when to prune, walks the ordered segment
//! set under the per-run budget, sweeps ancient sidecar partitions, and
//! emits lifecycle events.

use vstd::prelude::*;

use crate::clock::elapsed_millis;
use crate::events::{
    current_finished_height, notify_event, pruner_event_channel, subscribe_events,
    FinishedExExHeight, PrunerEvent,
};
use crate::limiter::{PruneDeletedEntriesLimit, PruneLimiter};
use crate::provider::{
    checkpoints_monotone, cp_advances, total_table_entries, ProviderRw, PruneCheckpoints,
    PruneTables,
};
use crate::prune_types::{
    sum_pruned, PruneCheckpoint, PruneInterruptReason, PruneProgress, PruneSegment, PrunerOutput,
    SegmentOutput,
};
use crate::segments::{spec_segment_output, PruneInput, Segment};
use crate::static_files::{find_fixed_range, StaticFileStore, BLOCKS_PER_STATIC_FILE};

verus! {

/// The tip a run works against, after folding in the finished-consumer
/// height: data above what every consumer has processed must survive.
pub open spec fn adjusted_tip_spec(tip: u64, height: FinishedExExHeight) -> Option<u64> {
    match height {
        FinishedExExHeight::NoExExs => Some(tip),
        FinishedExExHeight::NotReady => None,
        FinishedExExHeight::Height(h) => if h < tip {
            Some(h)
        } else {
            Some(tip)
        },
    }
}

/// The partitions the ancient-sidecar sweep deletes, walking backwards from
/// the partition boundary `rs`: each prior partition that is present on
/// disk, stopping at the first gap.
pub open spec fn sweep_removed(parts: Seq<u64>, rs: u64) -> Seq<u64>
    decreases rs,
{
    if rs < BLOCKS_PER_STATIC_FILE {
        Seq::empty()
    } else if parts.contains((rs - BLOCKS_PER_STATIC_FILE) as u64) {
        seq![(rs - BLOCKS_PER_STATIC_FILE) as u64] + sweep_removed(
            parts,
            (rs - BLOCKS_PER_STATIC_FILE) as u64,
        )
    } else {
        Seq::empty()
    }
}

/// The sweep is idempotent: once its removals are applied, a second sweep
/// from the same boundary finds nothing to delete, because the partition
/// directly below the boundary is gone (or never existed).
pub proof fn lemma_ancient_sweep_idempotent(parts: Seq<u64>, after: Seq<u64>, rs: u64)
    requires
        forall|p: u64| #[trigger] after.contains(p) <==> parts.contains(p) && !sweep_removed(
            parts,
            rs,
        ).contains(p),
    ensures
        sweep_removed(after, rs).len() == 0,
{
    if rs >= BLOCKS_PER_STATIC_FILE {
        let c = (rs - BLOCKS_PER_STATIC_FILE) as u64;
        if parts.contains(c) {
            assert(sweep_removed(parts, rs)[0] == c);
            assert(sweep_removed(parts, rs).contains(c));
            assert(!after.contains(c));
        } else {
            assert(!after.contains(c));
        }
    }
}

/// How far the adjusted tip has advanced past the previous one; saturating,
/// so a chain revert counts as no advance.
pub open spec fn tip_delta_spec(previous_tip_block_number: Option<u64>, t: u64) -> int {
    let prev = match previous_tip_block_number {
        Some(p) => p,
        None => 0u64,
    };
    if t >= prev {
        t - prev
    } else {
        0int
    }
}

/// Whether pruning is due at `tip`, given the previous tip and the minimum
/// block interval. The subtraction saturates: a chain revert never forces a
/// prune.
pub open spec fn pruning_needed_spec(
    min_block_interval: usize,
    previous_tip_block_number: Option<u64>,
    tip: u64,
    height: FinishedExExHeight,
) -> bool {
    match adjusted_tip_spec(tip, height) {
        None => false,
        Some(t) => tip_delta_spec(previous_tip_block_number, t) >= min_block_interval,
    }
}

/// Ghost state of a pruning pass over the segment set: the entries of every
/// prunable table, the persisted checkpoints, the shared budget, and the
/// per-segment outputs so far.
pub struct PruneRunState {
    /// Entries of each prunable table.
    pub tables: Map<PruneSegment, Seq<u64>>,
    /// The persisted checkpoints.
    pub checkpoints: PruneCheckpoints,
    /// The shared budget.
    pub limiter: PruneLimiter,
    /// Per-segment outputs, in visit order.
    pub outputs: Seq<(PruneSegment, SegmentOutput)>,
}

/// The entries of every prunable table, as a total map.
pub open spec fn tables_model(t: PruneTables) -> Map<PruneSegment, Seq<u64>> {
    Map::total(|s: PruneSegment| t.spec_table(s).entries@)
}

/// The ghost state a pruning pass starts from.
pub open spec fn initial_run_state(provider: ProviderRw, limiter: PruneLimiter) -> PruneRunState {
    PruneRunState {
        tables: tables_model(provider.tables),
        checkpoints: provider.checkpoints,
        limiter,
        outputs: Seq::empty(),
    }
}

/// A fresh budget seeded with the delete limit and the optional deadline.
pub open spec fn spec_initial_limiter(
    delete_limit: usize,
    timeout_millis: Option<u64>,
) -> PruneLimiter {
    PruneLimiter {
        deleted_entries_limit: Some(PruneDeletedEntriesLimit { limit: delete_limit, deleted: 0 }),
        deadline_millis: timeout_millis,
    }
}

/// One visit of the pruning loop. A segment without a target is skipped
/// with no effect. Otherwise its table loses exactly the entries that
/// [`spec_segment_output`] accounts for, the returned checkpoint — and only
/// that — is persisted with the target's mode, the budget drops by the
/// pruned count, and the output is appended in visit order.
pub open spec fn spec_visit_segment(
    st: PruneRunState,
    sf: StaticFileStore,
    seg: Segment,
    tip: u64,
) -> PruneRunState {
    match seg.spec_prune_target(sf, tip) {
        None => st,
        Some(target) => {
            let sid = seg.spec_segment();
            let entries = st.tables[sid];
            let out = spec_segment_output(
                st.checkpoints.spec_get(sid),
                entries,
                st.limiter,
                target.0,
            );
            PruneRunState {
                tables: st.tables.insert(
                    sid,
                    entries.subrange(out.pruned as int, entries.len() as int),
                ),
                checkpoints: match out.checkpoint {
                    Some(c) => st.checkpoints.spec_set(
                        sid,
                        PruneCheckpoint {
                            block_number: c.block_number,
                            tx_number: c.tx_number,
                            prune_mode: target.1,
                        },
                    ),
                    None => st.checkpoints,
                },
                limiter: st.limiter.spec_incremented(out.pruned as int),
                outputs: st.outputs.push((sid, out)),
            }
        },
    }
}

/// The pruning loop over a run of segments, in order.
pub open spec fn spec_prune_fold(
    st: PruneRunState,
    sf: StaticFileStore,
    segments: Seq<Segment>,
    tip: u64,
) -> PruneRunState
    decreases segments.len(),
{
    if segments.len() == 0 {
        st
    } else {
        spec_prune_fold(spec_visit_segment(st, sf, segments[0], tip), sf, segments.drop_first(), tip)
    }
}

/// A run of segments extended by one more.
pub proof fn lemma_prune_fold_snoc(
    st: PruneRunState,
    sf: StaticFileStore,
    segments: Seq<Segment>,
    seg: Segment,
    tip: u64,
)
    ensures
        spec_prune_fold(st, sf, segments.push(seg), tip) == spec_visit_segment(
            spec_prune_fold(st, sf, segments, tip),
            sf,
            seg,
            tip,
        ),
    decreases segments.len(),
{
    if segments.len() == 0 {
        assert(segments.push(seg)[0] == seg);
        assert(segments.push(seg).drop_first() =~= Seq::<Segment>::empty());
        assert(spec_prune_fold(spec_visit_segment(st, sf, seg, tip), sf, Seq::<Segment>::empty(), tip)
            == spec_visit_segment(st, sf, seg, tip));
    } else {
        assert(segments.push(seg)[0] == segments[0]);
        assert(segments.push(seg).drop_first() =~= segments.drop_first().push(seg));
        lemma_prune_fold_snoc(spec_visit_segment(st, sf, segments[0], tip), sf, segments.drop_first(), seg, tip);
    }
}

/// The statistics of a run: the segments that deleted anything, with their
/// pruned counts and progress, in visit order.
pub open spec fn spec_stats(outputs: Seq<(PruneSegment, SegmentOutput)>) -> Seq<
    (PruneSegment, usize, PruneProgress),
>
    decreases outputs.len(),
{
    if outputs.len() == 0 {
        Seq::empty()
    } else {
        let rest = spec_stats(outputs.drop_last());
        if outputs.last().1.pruned > 0 {
            rest.push((outputs.last().0, outputs.last().1.pruned, outputs.last().1.progress))
        } else {
            rest
        }
    }
}

/// Overall progress of a run: the latest interruption a visited segment
/// reported, `Finished` if none.
pub open spec fn spec_overall_progress(outputs: Seq<(PruneSegment, SegmentOutput)>) -> PruneProgress
    decreases outputs.len(),
{
    if outputs.len() == 0 {
        PruneProgress::Finished
    } else {
        match outputs.last().1.progress {
            PruneProgress::HasMoreData(reason) => PruneProgress::HasMoreData(reason),
            PruneProgress::Finished => spec_overall_progress(outputs.drop_last()),
        }
    }
}

/// Which coordinate of the budget stopped the loop.
pub open spec fn spec_break_reason(limiter: PruneLimiter) -> PruneInterruptReason {
    if limiter.spec_is_deleted_entries_limit_reached() {
        PruneInterruptReason::DeletedEntriesLimitReached
    } else {
        PruneInterruptReason::TimeLimitReached
    }
}

/// What a pruning pass leaves behind, as a function of how many segments it
/// visited: the first `k` segments were visited strictly in order; tables,
/// checkpoints and per-segment outputs are exactly the fold of
/// [`spec_visit_segment`] over them; when segments remain unvisited the
/// overall progress reports which budget coordinate ran out, and with no
/// deadline configured only an exhausted delete budget can leave them.
pub open spec fn prune_run_post(
    segments: Seq<Segment>,
    provider0: ProviderRw,
    lim0: PruneLimiter,
    provider1: ProviderRw,
    out: PrunerOutput,
    tip: u64,
    k: int,
) -> bool {
    let fin = spec_prune_fold(
        initial_run_state(provider0, lim0),
        provider0.static_files,
        segments.subrange(0, k),
        tip,
    );
    &&& 0 <= k <= segments.len()
    &&& out.segments@ == fin.outputs
    &&& provider1.checkpoints == fin.checkpoints
    &&& forall|s: PruneSegment| #[trigger] provider1.tables.spec_table(s).entries@ == fin.tables[s]
    &&& out.progress == (if k < segments.len() {
        PruneProgress::HasMoreData(spec_break_reason(fin.limiter))
    } else {
        spec_overall_progress(fin.outputs)
    })
    &&& (k < segments.len() && lim0.deadline_millis is None)
        ==> fin.limiter.spec_is_deleted_entries_limit_reached()
}

/// Pruning routine. The main pruning logic happens in [`Pruner::run`].
pub struct Pruner {
    /// The prune segments, in iteration order.
    pub segments: Vec<Segment>,
    /// Minimum pruning interval measured in blocks. All prune segments are
    /// checked and, if needed, pruned, when the chain advances by this many
    /// blocks.
    pub min_block_interval: usize,
    /// Previous tip block number when the pruner was run. Even if no data
    /// was pruned, this block number is updated with the tip the pruner was
    /// called with.
    pub previous_tip_block_number: Option<u64>,
    /// Maximum total entries to prune per run.
    pub delete_limit: usize,
    /// Soft deadline for one run, in milliseconds.
    pub timeout_millis: Option<u64>,
    /// The finished height of all extension consumers.
    pub finished_exex_height: tokio::sync::watch::Receiver<FinishedExExHeight>,
    /// The number of recent blocks whose sidecar partitions are kept on
    /// disk; zero disables the ancient-sidecar sweep.
    pub recent_sidecars_kept_blocks: usize,
    /// Gauge tracking the block just above the last partition the ancient
    /// sweep deleted.
    pub oldest_sidecars_height: u64,
    /// Fan-out channel the lifecycle events are broadcast on.
    pub event_sender: tokio::sync::broadcast::Sender<PrunerEvent>,
}

impl Pruner {
    /// Creates a new pruner.
    pub fn new(
        segments: Vec<Segment>,
        min_block_interval: usize,
        delete_limit: usize,
        timeout_millis: Option<u64>,
        finished_exex_height: tokio::sync::watch::Receiver<FinishedExExHeight>,
        recent_sidecars_kept_blocks: usize,
    ) -> (r: Pruner)
        ensures
            r.segments == segments,
            r.min_block_interval == min_block_interval,
            r.previous_tip_block_number is None,
            r.delete_limit == delete_limit,
            r.timeout_millis == timeout_millis,
            r.recent_sidecars_kept_blocks == recent_sidecars_kept_blocks,
            r.oldest_sidecars_height == 0,
    {
        Pruner {
            segments,
            min_block_interval,
            previous_tip_block_number: None,
            delete_limit,
            timeout_millis,
            finished_exex_height,
            recent_sidecars_kept_blocks,
            oldest_sidecars_height: 0,
            event_sender: pruner_event_channel(),
        }
    }

    /// Listen for events on the pruner.
    pub fn events(&self) -> tokio::sync::broadcast::Receiver<PrunerEvent> {
        subscribe_events(&self.event_sender)
    }

    /// Adjusts the tip to the finished consumer height, so that no more data
    /// is pruned than every consumer has processed: `NoExExs` leaves the tip
    /// as given, `NotReady` forbids pruning, and `Height(h)` caps the tip at
    /// `h`.
    pub fn adjust_tip_block_number_to_finished_exex_height(
        tip_block_number: u64,
        height: FinishedExExHeight,
    ) -> (r: Option<u64>)
        ensures
            r == adjusted_tip_spec(tip_block_number, height),
    {
        match height {
            FinishedExExHeight::NoExExs => Some(tip_block_number),
            FinishedExExHeight::NotReady => None,
            FinishedExExHeight::Height(h) => {
                if h < tip_block_number {
                    Some(h)
                } else {
                    Some(tip_block_number)
                }
            }
        }
    }

    /// Whether pruning is due at `tip`, given the finished consumer height:
    /// true exactly when the adjusted tip has advanced at least
    /// `min_block_interval` blocks past the previous tip. While consumers
    /// are not ready, pruning is never due.
    pub fn is_pruning_needed_at_finished_height(
        &self,
        tip_block_number: u64,
        height: FinishedExExHeight,
    ) -> (r: bool)
        ensures
            r == pruning_needed_spec(
                self.min_block_interval,
                self.previous_tip_block_number,
                tip_block_number,
                height,
            ),
            height is NotReady ==> !r,
            // A tick whose adjusted tip lies less than the minimum interval
            // past the previous one never prunes.
            (adjusted_tip_spec(tip_block_number, height) matches Some(t) && tip_delta_spec(
                self.previous_tip_block_number,
                t,
            ) < self.min_block_interval) ==> !r,
    {
        let t = match Self::adjust_tip_block_number_to_finished_exex_height(
            tip_block_number,
            height,
        ) {
            Some(t) => t,
            None => {
                return false;
            }
        };
        let prev = match self.previous_tip_block_number {
            Some(p) => p,
            None => 0,
        };
        // Saturating subtraction: after a chain revert the tip may lie below
        // the previous tip, and then no pruning is needed.
        let delta = if t >= prev {
            t - prev
        } else {
            0
        };
        delta >= self.min_block_interval as u64
    }

    /// Returns `true` if pruning is needed at the provided tip block number,
    /// reading the current finished consumer height from its channel.
    ///
    /// The decision itself is specified on
    /// [`Pruner::is_pruning_needed_at_finished_height`], which this calls
    /// with whatever height the channel currently reports. Whatever that
    /// height is, the adjusted tip never exceeds the given one, so a true
    /// answer means the given tip itself has advanced at least the minimum
    /// interval past the previous tip.
    pub fn is_pruning_needed(&self, tip_block_number: u64) -> (r: bool)
        ensures
            r ==> tip_delta_spec(self.previous_tip_block_number, tip_block_number)
                >= self.min_block_interval,
    {
        let height = current_finished_height(&self.finished_exex_height);
        let needed = self.is_pruning_needed_at_finished_height(tip_block_number, height);
        proof {
            if needed {
                match adjusted_tip_spec(tip_block_number, height) {
                    Some(t) => {
                        assert(t <= tip_block_number);
                        assert(tip_delta_spec(self.previous_tip_block_number, t) <= tip_delta_spec(
                            self.previous_tip_block_number,
                            tip_block_number,
                        ));
                    }
                    None => {}
                }
            }
        }
        needed
    }

    /// Iterates the segments in configured order, pruning each toward its
    /// target under the shared budget.
    ///
    /// Returns the per-segment statistics of segments that deleted anything,
    /// the per-run output, and (for specification) how many segments were
    /// visited. The whole pass is exactly the fold of [`spec_visit_segment`]
    /// over the visited prefix — so the outputs appear in visit order, a
    /// checkpoint is persisted when and only when its segment returned one,
    /// and the limiter drops by exactly the deleted counts — and segments
    /// are left unvisited only when the budget ran out.
    #[verifier::rlimit(100)]
    pub fn prune_segments(
        &self,
        provider: &mut ProviderRw,
        tip_block_number: u64,
        limiter: &mut PruneLimiter,
        run_start: &std::time::Instant,
    ) -> (r: (Vec<(PruneSegment, usize, PruneProgress)>, PrunerOutput, Ghost<int>))
        requires
            old(provider).wf(),
        ensures
            final(provider).wf(),
            final(provider).static_files == old(provider).static_files,
            checkpoints_monotone(old(provider).checkpoints, final(provider).checkpoints),
            old(limiter).spec_deleted_entries_limit_left() matches Some(left) ==> sum_pruned(
                r.1.segments@,
            ) <= left,
            // The reported counts are truthful: exactly that many entries
            // left the tables.
            total_table_entries(old(provider).tables) - total_table_entries(final(provider).tables)
                == sum_pruned(r.1.segments@),
            r.1.progress is Finished ==> forall|i: int|
                0 <= i < r.1.segments@.len() ==> (#[trigger] r.1.segments@[i]).1.progress
                    is Finished,
            // The pass is exactly the fold of spec_visit_segment over the
            // first r.2@ visited segments.
            prune_run_post(
                self.segments@,
                *old(provider),
                *old(limiter),
                *final(provider),
                r.1,
                tip_block_number,
                r.2@,
            ),
            ({
                let fin = spec_prune_fold(
                    initial_run_state(*old(provider), *old(limiter)),
                    old(provider).static_files,
                    self.segments@.subrange(0, r.2@),
                    tip_block_number,
                );
                r.0@ == spec_stats(fin.outputs) && *final(limiter) == fin.limiter
            }),
    {
        let ghost cp0 = old(provider).checkpoints;
        let ghost lim0 = *old(limiter);
        let ghost st0 = initial_run_state(*old(provider), lim0);
        let ghost sf0 = old(provider).static_files;
        let ghost mut st = st0;
        let mut stats: Vec<(PruneSegment, usize, PruneProgress)> = Vec::new();
        let mut output = PrunerOutput { progress: PruneProgress::Finished, segments: Vec::new() };
        let mut i: usize = 0;
        proof {
            assert(self.segments@.subrange(0, 0) =~= Seq::<Segment>::empty());
        }
        while i < self.segments.len()
            invariant_except_break
                output.progress == spec_overall_progress(st.outputs),
            invariant
                provider.wf(),
                sf0 == old(provider).static_files,
                provider.static_files == old(provider).static_files,
                checkpoints_monotone(cp0, provider.checkpoints),
                total_table_entries(old(provider).tables) - total_table_entries(provider.tables)
                    == sum_pruned(output.segments@),
                limiter.deadline_millis == lim0.deadline_millis,
                lim0.deleted_entries_limit is None ==> limiter.deleted_entries_limit is None,
                lim0.deleted_entries_limit matches Some(l0) ==> (
                limiter.deleted_entries_limit matches Some(l) && l.limit == l0.limit && l.deleted
                    == l0.deleted + sum_pruned(output.segments@) && (sum_pruned(output.segments@)
                    == 0 || l.deleted <= l.limit)),
                sum_pruned(output.segments@) >= 0,
                output.progress is Finished ==> forall|k: int|
                    0 <= k < output.segments@.len() ==> (#[trigger] output.segments@[k]).1.progress
                        is Finished,
                i <= self.segments@.len(),
                st == spec_prune_fold(
                    st0,
                    sf0,
                    self.segments@.subrange(0, i as int),
                    tip_block_number,
                ),
                output.segments@ == st.outputs,
                provider.checkpoints == st.checkpoints,
                forall|s: PruneSegment| #[trigger] provider.tables.spec_table(s).entries@
                    == st.tables[s],
                *limiter == st.limiter,
                stats@ == spec_stats(st.outputs),
            ensures
                i <= self.segments@.len(),
                i == self.segments@.len() ==> output.progress == spec_overall_progress(st.outputs),
                i < self.segments@.len() ==> (output.progress == PruneProgress::HasMoreData(
                    spec_break_reason(st.limiter),
                ) && (lim0.deadline_millis is None
                    ==> st.limiter.spec_is_deleted_entries_limit_reached())),
            decreases self.segments@.len() - i,
        {
            let now_millis = elapsed_millis(run_start);
            if limiter.is_limit_reached(now_millis) {
                // Segments remain, so the run is interrupted; report which
                // coordinate of the budget ran out.
                let reason = if limiter.is_deleted_entries_limit_reached() {
                    PruneInterruptReason::DeletedEntriesLimitReached
                } else {
                    PruneInterruptReason::TimeLimitReached
                };
                output.progress = PruneProgress::HasMoreData(reason);
                proof {
                    assert(reason == spec_break_reason(st.limiter));
                }
                break;
            }
            let seg = &self.segments[i];
            let seg_id = seg.segment();
            let target = seg.prune_target(&provider.static_files, tip_block_number);
            proof {
                assert(provider.static_files == sf0);
                assert(target == seg.spec_prune_target(sf0, tip_block_number));
            }
            match target {
                Some((to_block, prune_mode)) => {
                    let previous_checkpoint = provider.get_prune_checkpoint(seg_id);
                    let input = PruneInput { previous_checkpoint, to_block, limiter: *limiter };
                    let ghost pre = *provider;
                    let out = seg.prune(provider, input);
                    match out.checkpoint {
                        Some(c) => {
                            provider.save_prune_checkpoint(
                                seg_id,
                                c.as_prune_checkpoint(prune_mode),
                            );
                            proof {
                                // Saving a checkpoint that lies above every
                                // remaining entry of its table keeps the
                                // provider well-formed.
                                assert forall|s: PruneSegment, k: int|
                                    0 <= k < provider.tables.spec_table(s).entries@.len()
                                        && provider.checkpoint_block(s) is Some implies #[trigger]
                                    provider.tables.spec_table(s).entries@[k]
                                        > provider.checkpoint_block(s)->Some_0 by {
                                    if s == seg_id {
                                        assert(provider.tables.spec_table(s).entries@[k]
                                            > c.block_number->Some_0);
                                    } else {
                                        assert(provider.tables.spec_table(s)
                                            == pre.tables.spec_table(s));
                                        assert(provider.checkpoint_block(s) == pre.checkpoint_block(
                                            s,
                                        ));
                                    }
                                }
                                // And the new checkpoint advances past both
                                // the pre-call and the pre-run one.
                                assert forall|s: PruneSegment|
                                    cp_advances(
                                        #[trigger] cp0.spec_get(s),
                                        provider.checkpoints.spec_get(s),
                                    ) by {
                                    if s == seg_id {
                                        assert(cp_advances(
                                            cp0.spec_get(s),
                                            pre.checkpoints.spec_get(s),
                                        ));
                                    } else {
                                        assert(provider.checkpoints.spec_get(s)
                                            == pre.checkpoints.spec_get(s));
                                    }
                                }
                            }
                        }
                        None => {}
                    }
                    let ghost segments_before = output.segments@;
                    if out.pruned > 0 {
                        proof {
                            if lim0.deleted_entries_limit is Some {
                                assert(limiter.deleted_entries_limit is Some);
                            }
                        }
                        limiter.increment_deleted_entries_count_by(out.pruned);
                        stats.push((seg_id, out.pruned, out.progress));
                    }
                    match out.progress {
                        PruneProgress::HasMoreData(_) => {
                            output.progress = out.progress;
                        }
                        PruneProgress::Finished => {}
                    }
                    output.segments.push((seg_id, out));
                    proof {
                        assert(output.segments@.drop_last() =~= segments_before);
                        assert(sum_pruned(output.segments@) == sum_pruned(segments_before)
                            + out.pruned);
                        // Exactly `out.pruned` entries left the one table
                        // this segment owns.
                        let pre_t = pre.tables;
                        let post_t = provider.tables;
                        assert(post_t.spec_table(seg_id).entries@.len() == pre_t.spec_table(
                            seg_id,
                        ).entries@.len() - out.pruned);
                        match seg_id {
                            PruneSegment::SenderRecovery => assert(total_table_entries(post_t)
                                == total_table_entries(pre_t) - out.pruned),
                            PruneSegment::TransactionLookup => assert(total_table_entries(post_t)
                                == total_table_entries(pre_t) - out.pruned),
                            PruneSegment::Receipts => assert(total_table_entries(post_t)
                                == total_table_entries(pre_t) - out.pruned),
                            PruneSegment::ContractLogs => assert(total_table_entries(post_t)
                                == total_table_entries(pre_t) - out.pruned),
                            PruneSegment::AccountHistory => assert(total_table_entries(post_t)
                                == total_table_entries(pre_t) - out.pruned),
                            PruneSegment::StorageHistory => assert(total_table_entries(post_t)
                                == total_table_entries(pre_t) - out.pruned),
                            PruneSegment::Headers => assert(total_table_entries(post_t)
                                == total_table_entries(pre_t) - out.pruned),
                            PruneSegment::Transactions => assert(total_table_entries(post_t)
                                == total_table_entries(pre_t) - out.pruned),
                            PruneSegment::Sidecars => assert(total_table_entries(post_t)
                                == total_table_entries(pre_t) - out.pruned),
                        }
                    }
                    proof {
                        // The step taken equals the ghost visit of this
                        // segment.
                        let visited = spec_visit_segment(
                            st,
                            sf0,
                            self.segments@[i as int],
                            tip_block_number,
                        );
                        assert(self.segments@[i as int] == *seg);
                        assert(seg.spec_prune_target(sf0, tip_block_number) == Some(
                            (to_block, prune_mode),
                        ));
                        assert(st.tables[seg_id] == pre.tables.spec_table(seg_id).entries@);
                        assert(out == spec_segment_output(
                            st.checkpoints.spec_get(seg_id),
                            st.tables[seg_id],
                            st.limiter,
                            to_block,
                        ));
                        assert(output.segments@ == visited.outputs);
                        assert(provider.checkpoints == visited.checkpoints);
                        assert forall|s: PruneSegment| #[trigger] provider.tables.spec_table(
                            s,
                        ).entries@ == visited.tables[s] by {
                            if s != seg_id {
                                assert(provider.tables.spec_table(s) == pre.tables.spec_table(s));
                            }
                        }
                        if out.pruned == 0 {
                            assert(st.limiter.spec_incremented(0) == st.limiter) by {
                                match st.limiter.deleted_entries_limit {
                                    Some(l) => {
                                        assert((l.deleted + 0) as usize == l.deleted);
                                    }
                                    None => {}
                                }
                            }
                        }
                        assert(*limiter == visited.limiter);
                        assert(visited.outputs.drop_last() =~= st.outputs);
                        assert(visited.outputs.last() == (seg_id, out));
                        assert(stats@ == spec_stats(visited.outputs));
                        assert(output.progress == spec_overall_progress(visited.outputs));
                    }
                }
                None => {
                    proof {
                        assert(self.segments@[i as int] == *seg);
                        assert(seg.spec_prune_target(sf0, tip_block_number) is None);
                        assert(spec_visit_segment(
                            st,
                            sf0,
                            self.segments@[i as int],
                            tip_block_number,
                        ) == st);
                    }
                }
            }
            proof {
                lemma_prune_fold_snoc(
                    st0,
                    sf0,
                    self.segments@.subrange(0, i as int),
                    self.segments@[i as int],
                    tip_block_number,
                );
                assert(self.segments@.subrange(0, i as int).push(self.segments@[i as int])
                    =~= self.segments@.subrange(0, i as int + 1));
                st = spec_visit_segment(st, sf0, self.segments@[i as int], tip_block_number);
            }
            i += 1;
        }
        proof {
            if lim0.spec_deleted_entries_limit_left() is Some {
                assert(sum_pruned(output.segments@) <= lim0.spec_deleted_entries_limit_left()
                    ->Some_0);
            }
        }
        (stats, output, Ghost(i as int))
    }

    /// Deletes whole sidecar partitions older than
    /// `tip - recent_sidecars_kept_blocks`, walking backwards from the
    /// partition boundary and stopping at the first partition that is
    /// already gone. Runs outside the per-run budget. Returns the start
    /// blocks of the deleted partitions, newest first, so the caller can
    /// remove the backing files.
    pub fn prune_ancient_sidecars(&mut self, provider: &mut ProviderRw, tip_block_number: u64) -> (
        removed: Vec<u64>)
        requires
            old(provider).static_files.wf(),
            tip_block_number <= u64::MAX - BLOCKS_PER_STATIC_FILE,
        ensures
            final(provider).static_files.wf(),
            final(provider).tables == old(provider).tables,
            final(provider).checkpoints == old(provider).checkpoints,
            final(provider).static_files.headers == old(provider).static_files.headers,
            final(provider).static_files.transactions == old(provider).static_files.transactions,
            final(provider).static_files.receipts == old(provider).static_files.receipts,
            final(provider).static_files.sidecars == old(provider).static_files.sidecars,
            final(self).segments == old(self).segments,
            final(self).min_block_interval == old(self).min_block_interval,
            final(self).previous_tip_block_number == old(self).previous_tip_block_number,
            final(self).delete_limit == old(self).delete_limit,
            final(self).timeout_millis == old(self).timeout_millis,
            final(self).recent_sidecars_kept_blocks == old(self).recent_sidecars_kept_blocks,
            old(self).recent_sidecars_kept_blocks > 0 ==> removed@ == sweep_removed(
                old(provider).static_files.sidecar_partitions@,
                sweep_boundary_spec(tip_block_number, old(self).recent_sidecars_kept_blocks),
            ),
            old(self).recent_sidecars_kept_blocks == 0 ==> removed@.len() == 0,
            forall|p: u64| #[trigger] final(provider).static_files.sidecar_partitions@.contains(p)
                <==> (old(provider).static_files.sidecar_partitions@.contains(p)
                && !removed@.contains(p)),
            removed@.len() == 0 ==> final(provider).static_files.sidecar_partitions@ == old(
                provider,
            ).static_files.sidecar_partitions@ && final(self).oldest_sidecars_height == old(
                self,
            ).oldest_sidecars_height,
            removed@.len() > 0 ==> final(self).oldest_sidecars_height == removed@.last()
                + BLOCKS_PER_STATIC_FILE,
    {
        let ghost orig = old(provider).static_files.sidecar_partitions@;
        if self.recent_sidecars_kept_blocks == 0 {
            let removed: Vec<u64> = Vec::new();
            return removed;
        }
        let kept = self.recent_sidecars_kept_blocks as u64;
        let prune_target_block = if tip_block_number >= kept {
            tip_block_number - kept
        } else {
            0
        };
        let range = find_fixed_range(prune_target_block);
        let rs = range.start;
        let mut removed: Vec<u64> = Vec::new();
        if rs == 0 {
            return removed;
        }
        let ghost gauge0 = self.oldest_sidecars_height;
        let ghost self0 = *self;
        let ghost provider0 = *provider;
        let mut expected: u64 = rs;
        while expected > 0
            invariant_except_break
                self.recent_sidecars_kept_blocks == self0.recent_sidecars_kept_blocks,
                expected % BLOCKS_PER_STATIC_FILE == 0,
                expected <= rs,
                sweep_removed(orig, rs) == removed@ + sweep_removed(orig, expected),
                forall|k: int| 0 <= k < removed@.len() ==> #[trigger] removed@[k] >= expected,
            invariant
                provider.static_files.wf(),
                provider.tables == provider0.tables,
                provider.checkpoints == provider0.checkpoints,
                provider.static_files.headers == provider0.static_files.headers,
                provider.static_files.transactions == provider0.static_files.transactions,
                provider.static_files.receipts == provider0.static_files.receipts,
                provider.static_files.sidecars == provider0.static_files.sidecars,
                self.segments == self0.segments,
                self.min_block_interval == self0.min_block_interval,
                self.previous_tip_block_number == self0.previous_tip_block_number,
                self.delete_limit == self0.delete_limit,
                self.timeout_millis == self0.timeout_millis,
                self.recent_sidecars_kept_blocks == self0.recent_sidecars_kept_blocks,
                rs == sweep_boundary_spec(tip_block_number, self0.recent_sidecars_kept_blocks),
                forall|p: u64| #[trigger] provider.static_files.sidecar_partitions@.contains(p)
                    <==> (orig.contains(p) && !removed@.contains(p)),
                removed@.len() == 0 ==> provider.static_files.sidecar_partitions@ == orig
                    && self.oldest_sidecars_height == gauge0,
                removed@.len() > 0 ==> self.oldest_sidecars_height == removed@.last()
                    + BLOCKS_PER_STATIC_FILE,
                removed@.len() > 0 ==> removed@.last() >= expected,
            ensures
                removed@ == sweep_removed(orig, rs),
            decreases expected,
        {
            proof {
                assert(expected >= BLOCKS_PER_STATIC_FILE) by {
                    if expected < BLOCKS_PER_STATIC_FILE {
                        assert(expected % BLOCKS_PER_STATIC_FILE == expected);
                    }
                }
            }
            let prev = expected - BLOCKS_PER_STATIC_FILE;
            let ghost removed_before = removed@;
            let ghost parts_before = provider.static_files.sidecar_partitions@;
            match find_partition(&provider.static_files.sidecar_partitions, prev) {
                Some(idx) => {
                    proof {
                        crate::sorted::lemma_remove_preserves_sorted(parts_before, idx as int);
                        crate::sorted::lemma_remove_contains(parts_before, idx as int);
                    }
                    let _ = provider.static_files.sidecar_partitions.remove(idx);
                    removed.push(prev);
                    self.oldest_sidecars_height = prev + BLOCKS_PER_STATIC_FILE;
                    proof {
                        let parts_now = provider.static_files.sidecar_partitions@;
                        assert(forall|i: int|
                            0 <= i < parts_now.len() ==> #[trigger] (parts_now[i]
                                % BLOCKS_PER_STATIC_FILE) == 0) by {
                            assert(forall|i: int|
                                0 <= i < parts_now.len() ==> parts_now[i] == parts_before.remove(
                                    idx as int,
                                )[i]);
                        }
                        crate::sorted::lemma_push_contains(removed_before, prev);
                        assert(parts_before.contains(prev)) by {
                            assert(parts_before[idx as int] == prev);
                        }
                        assert(parts_now == parts_before.remove(idx as int));
                        assert forall|p: u64| #[trigger] parts_now.contains(p) <==> (orig.contains(
                            p,
                        ) && !removed@.contains(p)) by {
                            assert(parts_now.contains(p) <==> (parts_before.contains(p) && p
                                != parts_before[idx as int]));
                            assert(removed@.contains(p) <==> (removed_before.contains(p) || p
                                == prev));
                        }
                        // The partition was present, so it appears in the
                        // sweep and the recursion steps past it.
                        assert(orig.contains(prev));
                        assert(sweep_removed(orig, expected) == seq![prev] + sweep_removed(
                            orig,
                            prev,
                        ));
                        assert(removed@ == removed_before.push(prev));
                        assert(removed_before + (seq![prev] + sweep_removed(orig, prev))
                            =~= removed@ + sweep_removed(orig, prev));
                        assert(sweep_removed(orig, rs) == removed@ + sweep_removed(orig, prev));
                    }
                    expected = prev;
                }
                None => {
                    proof {
                        // The partition below is already gone: it was never
                        // removed on this run, so it was missing on disk,
                        // and the sweep stops at the gap.
                        assert(!removed@.contains(prev)) by {
                            if removed@.contains(prev) {
                                let k = choose|k: int|
                                    0 <= k < removed@.len() && removed@[k] == prev;
                                assert(removed@[k] >= expected);
                            }
                        }
                        assert(!orig.contains(prev));
                        assert(sweep_removed(orig, expected) =~= Seq::<u64>::empty());
                        assert(removed@ + Seq::<u64>::empty() =~= removed@);
                    }
                    break;
                }
            }
        }
        removed
    }
}

impl Pruner {
    /// Runs one prune pass against the given finished-consumer height.
    ///
    /// If consumers are not ready, nothing is touched. At a tip of zero,
    /// only the previous tip is recorded. Otherwise the segments are pruned
    /// under a fresh budget, ancient sidecar partitions are swept outside
    /// that budget, the previous tip is recorded, and `Started` / `Finished`
    /// events are broadcast. Checkpoints never regress, and the deleted
    /// entries counted in the output never exceed the delete limit.
    pub fn run_with_finished_height(
        &mut self,
        provider: &mut ProviderRw,
        tip_block_number: u64,
        height: FinishedExExHeight,
    ) -> (out: PrunerOutput)
        requires
            old(provider).wf(),
            old(provider).static_files.wf(),
            tip_block_number <= u64::MAX - BLOCKS_PER_STATIC_FILE,
        ensures
            final(provider).wf(),
            final(provider).static_files.wf(),
            checkpoints_monotone(old(provider).checkpoints, final(provider).checkpoints),
            sum_pruned(out.segments@) <= old(self).delete_limit,
            total_table_entries(old(provider).tables) - total_table_entries(final(provider).tables)
                == sum_pruned(out.segments@),
            height is NotReady ==> (*final(provider) == *old(provider) && *final(self)
                == *old(self) && out.progress is Finished && out.segments@.len() == 0),
            adjusted_tip_spec(tip_block_number, height) matches Some(t)
                ==> final(self).previous_tip_block_number == Some(t),
            adjusted_tip_spec(tip_block_number, height) == Some(0u64) ==> (*final(provider)
                == *old(provider) && out.segments@.len() == 0 && out.progress is Finished),
            // At a positive adjusted tip, the run is exactly a fold of
            // segment visits over some prefix of the configured segments,
            // stopping early only on the budget.
            adjusted_tip_spec(tip_block_number, height) is Some && adjusted_tip_spec(
                tip_block_number,
                height,
            )->Some_0 > 0 ==> exists|k: int|
                prune_run_post(
                    old(self).segments@,
                    *old(provider),
                    spec_initial_limiter(old(self).delete_limit, old(self).timeout_millis),
                    *final(provider),
                    out,
                    adjusted_tip_spec(tip_block_number, height)->Some_0,
                    k,
                ),
            final(self).segments == old(self).segments,
            final(self).min_block_interval == old(self).min_block_interval,
            final(self).delete_limit == old(self).delete_limit,
            final(self).timeout_millis == old(self).timeout_millis,
            final(self).recent_sidecars_kept_blocks == old(self).recent_sidecars_kept_blocks,
            out.progress is Finished ==> forall|i: int|
                0 <= i < out.segments@.len() ==> (#[trigger] out.segments@[i]).1.progress
                    is Finished,
    {
        let t = match Self::adjust_tip_block_number_to_finished_exex_height(
            tip_block_number,
            height,
        ) {
            Some(t) => t,
            None => {
                return PrunerOutput { progress: PruneProgress::Finished, segments: Vec::new() };
            }
        };
        if t == 0 {
            // Nothing to prune yet; just record the tip.
            self.previous_tip_block_number = Some(t);
            return PrunerOutput { progress: PruneProgress::Finished, segments: Vec::new() };
        }
        notify_event(&self.event_sender, PrunerEvent::Started { tip_block_number: t });
        let start = std::time::Instant::now();
        let mut limiter = PruneLimiter::new().set_deleted_entries_limit(self.delete_limit);
        match self.timeout_millis {
            Some(timeout_millis) => {
                limiter = limiter.set_time_limit(timeout_millis);
            }
            None => {}
        }
        proof {
            assert(limiter == spec_initial_limiter(self.delete_limit, self.timeout_millis));
        }
        let (stats, output, visited) = self.prune_segments(provider, t, &mut limiter, &start);
        proof {
            assert(prune_run_post(
                self.segments@,
                *old(provider),
                spec_initial_limiter(self.delete_limit, self.timeout_millis),
                *provider,
                output,
                t,
                visited@,
            ));
        }
        // The ancient-sidecar sweep runs outside the limiter budget.
        let _removed = self.prune_ancient_sidecars(provider, t);
        proof {
            // The sweep touches only the partition index, so the fold still
            // describes the tables and checkpoints.
            assert(prune_run_post(
                self.segments@,
                *old(provider),
                spec_initial_limiter(self.delete_limit, self.timeout_millis),
                *provider,
                output,
                t,
                visited@,
            ));
        }
        self.previous_tip_block_number = Some(t);
        let elapsed_ms = elapsed_millis(&start);
        notify_event(
            &self.event_sender,
            PrunerEvent::Finished { tip_block_number: t, elapsed_millis: elapsed_ms, stats },
        );
        output
    }

    /// Runs the pruner with the given provider, reading the current
    /// finished-consumer height from its channel.
    ///
    /// The run itself is specified on [`Pruner::run_with_finished_height`],
    /// which this calls with whatever height the channel reports; whatever
    /// that height is, checkpoints never regress and the output never counts
    /// more deleted entries than the delete limit.
    pub fn run(&mut self, provider: &mut ProviderRw, tip_block_number: u64) -> (out: PrunerOutput)
        requires
            old(provider).wf(),
            old(provider).static_files.wf(),
            tip_block_number <= u64::MAX - BLOCKS_PER_STATIC_FILE,
        ensures
            final(provider).wf(),
            final(provider).static_files.wf(),
            checkpoints_monotone(old(provider).checkpoints, final(provider).checkpoints),
            sum_pruned(out.segments@) <= old(self).delete_limit,
            total_table_entries(old(provider).tables) - total_table_entries(final(provider).tables)
                == sum_pruned(out.segments@),
            // The recorded tip either stays, or becomes the tip of this run
            // after consumer adjustment; it never exceeds the given tip.
            final(self).previous_tip_block_number == old(self).previous_tip_block_number || (
            final(self).previous_tip_block_number matches Some(t) && t <= tip_block_number),
            final(self).segments == old(self).segments,
            final(self).min_block_interval == old(self).min_block_interval,
            final(self).delete_limit == old(self).delete_limit,
            final(self).timeout_millis == old(self).timeout_millis,
            final(self).recent_sidecars_kept_blocks == old(self).recent_sidecars_kept_blocks,
            // Whatever the channel reported: either nothing was pruned — the
            // consumers were not ready or the adjusted tip was genesis — or
            // the run was exactly a fold of segment visits at some positive
            // tip no greater than the given one.
            (*final(provider) == *old(provider) && out.segments@.len() == 0 && out.progress
                is Finished) || exists|t: u64, k: int|
                0 < t <= tip_block_number && final(self).previous_tip_block_number == Some(t)
                    && #[trigger] prune_run_post(
                    old(self).segments@,
                    *old(provider),
                    spec_initial_limiter(old(self).delete_limit, old(self).timeout_millis),
                    *final(provider),
                    out,
                    t,
                    k,
                ),
    {
        let height = current_finished_height(&self.finished_exex_height);
        let out = self.run_with_finished_height(provider, tip_block_number, height);
        proof {
            match adjusted_tip_spec(tip_block_number, height) {
                Some(t) => {
                    if t > 0 {
                        let k = choose|k: int|
                            prune_run_post(
                                old(self).segments@,
                                *old(provider),
                                spec_initial_limiter(
                                    old(self).delete_limit,
                                    old(self).timeout_millis,
                                ),
                                *provider,
                                out,
                                t,
                                k,
                            );
                        assert(0 < t <= tip_block_number
                            && self.previous_tip_block_number == Some(t) && prune_run_post(
                            old(self).segments@,
                            *old(provider),
                            spec_initial_limiter(old(self).delete_limit, old(self).timeout_millis),
                            *provider,
                            out,
                            t,
                            k,
                        ));
                    }
                }
                None => {}
            }
        }
        out
    }
}

/// The partition boundary the ancient sweep starts from: the start of the
/// fixed range containing `tip - kept` (saturating).
pub open spec fn sweep_boundary_spec(tip: u64, kept: usize) -> u64 {
    let target = if tip >= kept as u64 {
        (tip - kept as u64) as u64
    } else {
        0u64
    };
    crate::static_files::fixed_range_start(target)
}

/// Index of `x` in `v`, if present.
fn find_partition(v: &Vec<u64>, x: u64) -> (r: Option<usize>)
    ensures
        r matches Some(i) ==> i < v@.len() && v@[i as int] == x,
        r is None ==> !v@.contains(x),
{
    let mut i: usize = 0;
    while i < v.len()
        invariant
            i <= v@.len(),
            forall|j: int| 0 <= j < i ==> v@[j] != x,
        decreases v@.len() - i,
    {
        if v[i] == x {
            return Some(i);
        }
        i += 1;
    }
    proof {
        if v@.contains(x) {
            let j = choose|j: int| 0 <= j < v@.len() && v@[j] == x;
            assert(v@[j] != x);
        }
    }
    None
}

} // verus!
