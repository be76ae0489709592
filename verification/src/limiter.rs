//! The per-run prune budget: an entry-count limit and a soft deadline.

use vstd::prelude::*;

verus! {

/// Entry-count coordinate of the budget.
#[derive(Clone, Copy, Debug, PartialEq, Eq, Structural)]
pub struct PruneDeletedEntriesLimit {
    /// Maximum number of entries this run may delete.
    pub limit: usize,
    /// Number of entries deleted so far.
    pub deleted: usize,
}

/// Mutable shared budget threaded through every segment invocation.
///
/// The two coordinates are independent: a run stops when either the delete
/// budget is exhausted or the deadline has passed. Times are measured in
/// milliseconds since the start of the run, so the deadline of a limiter with
/// a time limit is simply the timeout itself.
#[derive(Clone, Copy, Debug, PartialEq, Eq, Structural)]
pub struct PruneLimiter {
    /// Delete budget, if one is set.
    pub deleted_entries_limit: Option<PruneDeletedEntriesLimit>,
    /// Deadline in milliseconds since the start of the run, if one is set.
    pub deadline_millis: Option<u64>,
}

impl PruneLimiter {
    /// The number of entries that may still be deleted, when a limit is set.
    pub open spec fn spec_deleted_entries_limit_left(self) -> Option<int> {
        match self.deleted_entries_limit {
            Some(l) => if l.deleted <= l.limit {
                Some(l.limit - l.deleted)
            } else {
                Some(0int)
            },
            None => None,
        }
    }

    /// True when the delete budget is exhausted.
    pub open spec fn spec_is_deleted_entries_limit_reached(self) -> bool {
        match self.deleted_entries_limit {
            Some(l) => l.deleted >= l.limit,
            None => false,
        }
    }

    /// True when the deadline has passed at `now_millis`.
    pub open spec fn spec_is_time_limit_reached(self, now_millis: u64) -> bool {
        match self.deadline_millis {
            Some(d) => now_millis >= d,
            None => false,
        }
    }

    /// True when either coordinate of the budget is exhausted.
    pub open spec fn spec_is_limit_reached(self, now_millis: u64) -> bool {
        self.spec_is_deleted_entries_limit_reached() || self.spec_is_time_limit_reached(
            now_millis,
        )
    }

    /// A limiter with no budget at all.
    pub fn new() -> (r: PruneLimiter)
        ensures
            r.deleted_entries_limit is None,
            r.deadline_millis is None,
    {
        PruneLimiter { deleted_entries_limit: None, deadline_millis: None }
    }

    /// Sets the delete budget, with no entries deleted yet.
    pub fn set_deleted_entries_limit(self, limit: usize) -> (r: PruneLimiter)
        ensures
            r.deleted_entries_limit == Some(PruneDeletedEntriesLimit { limit, deleted: 0 }),
            r.deadline_millis == self.deadline_millis,
    {
        PruneLimiter {
            deleted_entries_limit: Some(PruneDeletedEntriesLimit { limit, deleted: 0 }),
            ..self
        }
    }

    /// Sets the soft deadline to `timeout_millis` after the start of the run.
    pub fn set_time_limit(self, timeout_millis: u64) -> (r: PruneLimiter)
        ensures
            r.deadline_millis == Some(timeout_millis),
            r.deleted_entries_limit == self.deleted_entries_limit,
    {
        PruneLimiter { deadline_millis: Some(timeout_millis), ..self }
    }

    /// The limiter after `n` more deleted entries were recorded against the
    /// budget.
    pub open spec fn spec_incremented(self, n: int) -> PruneLimiter {
        match self.deleted_entries_limit {
            Some(l) => PruneLimiter {
                deleted_entries_limit: Some(
                    PruneDeletedEntriesLimit { limit: l.limit, deleted: (l.deleted + n) as usize },
                ),
                deadline_millis: self.deadline_millis,
            },
            None => self,
        }
    }

    /// Records `count` more deleted entries against the budget.
    pub fn increment_deleted_entries_count_by(&mut self, count: usize)
        requires
            old(self).deleted_entries_limit matches Some(l) ==> l.deleted + count <= usize::MAX,
        ensures
            *final(self) == old(self).spec_incremented(count as int),
            final(self).deadline_millis == old(self).deadline_millis,
            old(self).deleted_entries_limit is None ==> final(self).deleted_entries_limit is None,
            old(self).deleted_entries_limit matches Some(l) ==> final(self).deleted_entries_limit
                == Some(
                PruneDeletedEntriesLimit { limit: l.limit, deleted: (l.deleted + count) as usize },
            ),
    {
        match self.deleted_entries_limit {
            Some(l) => {
                self.deleted_entries_limit = Some(
                    PruneDeletedEntriesLimit { limit: l.limit, deleted: l.deleted + count },
                );
            }
            None => {}
        }
    }

    /// The number of entries that may still be deleted, when a limit is set.
    pub fn deleted_entries_limit_left(&self) -> (r: Option<usize>)
        ensures
            match self.spec_deleted_entries_limit_left() {
                Some(left) => r == Some(left as usize),
                None => r is None,
            },
    {
        match self.deleted_entries_limit {
            Some(l) => {
                if l.deleted <= l.limit {
                    Some(l.limit - l.deleted)
                } else {
                    Some(0)
                }
            }
            None => None,
        }
    }

    /// Returns true when the delete budget is exhausted.
    pub fn is_deleted_entries_limit_reached(&self) -> (r: bool)
        ensures
            r == self.spec_is_deleted_entries_limit_reached(),
    {
        match self.deleted_entries_limit {
            Some(l) => l.deleted >= l.limit,
            None => false,
        }
    }

    /// Returns true when the deadline has passed at `now_millis`.
    pub fn is_time_limit_reached(&self, now_millis: u64) -> (r: bool)
        ensures
            r == self.spec_is_time_limit_reached(now_millis),
    {
        match self.deadline_millis {
            Some(d) => now_millis >= d,
            None => false,
        }
    }

    /// Returns true when either coordinate of the budget is exhausted.
    pub fn is_limit_reached(&self, now_millis: u64) -> (r: bool)
        ensures
            r == self.spec_is_limit_reached(now_millis),
    {
        self.is_deleted_entries_limit_reached() || self.is_time_limit_reached(now_millis)
    }
}

} // verus!
