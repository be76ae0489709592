//! In-memory model of the database tier a pruner run works against: one
//! prunable table per segment, plus the persisted prune checkpoints.

use vstd::prelude::*;

use crate::prune_types::{PruneCheckpoint, PruneSegment};
use crate::sorted::{count_le, lemma_count_le_prefix, nondecreasing, strictly_increasing};
use crate::static_files::StaticFileStore;

verus! {

/// One prunable database table, modeled as the ascending list of block
/// numbers that still carry an entry.
#[derive(Clone, Debug, PartialEq, Eq)]
pub struct PruneTable {
    /// Blocks with a live entry, in ascending order.
    pub entries: Vec<u64>,
}

impl PruneTable {
    /// Well-formed tables hold strictly increasing block numbers.
    pub open spec fn wf(self) -> bool {
        strictly_increasing(self.entries@)
    }

    /// An empty table.
    pub fn new() -> (r: PruneTable)
        ensures
            r.wf(),
            r.entries@.len() == 0,
    {
        PruneTable { entries: Vec::new() }
    }

    /// Appends an entry for `block`, which must lie above every existing one.
    pub fn push_entry(&mut self, block: u64)
        requires
            old(self).wf(),
            old(self).entries@.len() > 0 ==> old(self).entries@.last() < block,
        ensures
            final(self).wf(),
            final(self).entries@ == old(self).entries@.push(block),
    {
        proof {
            let s = self.entries@;
            assert(forall|i: int, j: int|
                0 <= i < j < s.push(block).len() ==> s.push(block)[i] < s.push(block)[j]) by {
                assert(forall|i: int| 0 <= i < s.len() ==> s[i] == s.push(block)[i]);
                assert(forall|i: int| 0 <= i < s.len() ==> #[trigger] s[i] < block) by {
                    assert(forall|i: int|
                        0 <= i < s.len() - 1 ==> #[trigger] s[i] < s[s.len() - 1]);
                }
            }
        }
        self.entries.push(block);
    }

    /// Deletes the entries at blocks up to `to_block`, at most `budget` of
    /// them, always from the front of the table.
    ///
    /// Returns the number of entries deleted and the last deleted entry.
    /// Afterwards either every entry at or below `to_block` is gone, or
    /// exactly `budget` entries were deleted.
    pub fn prune(&mut self, to_block: u64, budget: usize) -> (r: (usize, Option<u64>))
        requires
            old(self).wf(),
        ensures
            final(self).wf(),
            final(self).entries@ == old(self).entries@.subrange(
                r.0 as int,
                old(self).entries@.len() as int,
            ),
            r.0 <= budget,
            r.0 <= old(self).entries@.len(),
            old(self).entries@.len() <= usize::MAX,
            forall|i: int| 0 <= i < r.0 ==> old(self).entries@[i] <= to_block,
            r.0 < budget ==> (final(self).entries@.len() == 0 || final(self).entries@[0]
                > to_block),
            r.0 == budget || r.0 == count_le(old(self).entries@, to_block),
            r.1 == (if r.0 > 0 {
                Some(old(self).entries@[r.0 - 1])
            } else {
                None::<u64>
            }),
    {
        proof {
            assert(nondecreasing(self.entries@));
            lemma_count_le_prefix(self.entries@, to_block);
        }
        let len_bound = self.entries.len();
        proof {
            assert(self.entries@.len() == len_bound);
        }
        let ghost orig = self.entries@;
        let mut n: usize = 0;
        while n < self.entries.len() && n < budget && self.entries[n] <= to_block
            invariant
                self.entries@ == orig,
                strictly_increasing(orig),
                nondecreasing(orig),
                n <= budget,
                n <= orig.len(),
                forall|i: int| 0 <= i < n ==> orig[i] <= to_block,
                n <= count_le(orig, to_block),
            decreases budget - n,
        {
            proof {
                lemma_count_le_prefix(orig, to_block);
            }
            n += 1;
        }
        proof {
            lemma_count_le_prefix(orig, to_block);
            if n < budget {
                if n < orig.len() {
                    assert(orig[n as int] > to_block);
                    assert(n == count_le(orig, to_block));
                } else {
                    assert(n == count_le(orig, to_block));
                }
            }
        }
        let last_removed = if n > 0 {
            Some(self.entries[n - 1])
        } else {
            None
        };
        let rest = self.entries.split_off(n);
        self.entries = rest;
        (n, last_removed)
    }
}

/// Deleting a sorted prefix leaves every remaining entry above the last
/// deleted one.
pub proof fn lemma_prefix_removal_bound(s: Seq<u64>, n: int)
    requires
        strictly_increasing(s),
        0 < n <= s.len(),
    ensures
        forall|i: int| n <= i < s.len() ==> #[trigger] s[i] > s[n - 1],
        strictly_increasing(s.subrange(n, s.len() as int)),
{
    assert(forall|i: int, j: int|
        0 <= i < j < s.subrange(n, s.len() as int).len() ==> s.subrange(n, s.len() as int)[i]
            < s.subrange(n, s.len() as int)[j]);
}

/// The persisted prune checkpoints, one slot per segment.
#[derive(Clone, Copy, Debug, PartialEq, Eq, Structural)]
pub struct PruneCheckpoints {
    /// Checkpoint for recovered senders.
    pub sender_recovery: Option<PruneCheckpoint>,
    /// Checkpoint for the transaction lookup table.
    pub transaction_lookup: Option<PruneCheckpoint>,
    /// Checkpoint for receipts.
    pub receipts: Option<PruneCheckpoint>,
    /// Checkpoint for receipts kept for log filters.
    pub contract_logs: Option<PruneCheckpoint>,
    /// Checkpoint for account history.
    pub account_history: Option<PruneCheckpoint>,
    /// Checkpoint for storage history.
    pub storage_history: Option<PruneCheckpoint>,
    /// Checkpoint for database headers.
    pub headers: Option<PruneCheckpoint>,
    /// Checkpoint for database transactions.
    pub transactions: Option<PruneCheckpoint>,
    /// Checkpoint for database sidecars.
    pub sidecars: Option<PruneCheckpoint>,
}

impl PruneCheckpoints {
    /// The slot of `segment`.
    pub open spec fn spec_get(self, segment: PruneSegment) -> Option<PruneCheckpoint> {
        match segment {
            PruneSegment::SenderRecovery => self.sender_recovery,
            PruneSegment::TransactionLookup => self.transaction_lookup,
            PruneSegment::Receipts => self.receipts,
            PruneSegment::ContractLogs => self.contract_logs,
            PruneSegment::AccountHistory => self.account_history,
            PruneSegment::StorageHistory => self.storage_history,
            PruneSegment::Headers => self.headers,
            PruneSegment::Transactions => self.transactions,
            PruneSegment::Sidecars => self.sidecars,
        }
    }

    /// The checkpoints with the slot of `segment` replaced by `cp`.
    pub open spec fn spec_set(self, segment: PruneSegment, cp: PruneCheckpoint) -> PruneCheckpoints {
        match segment {
            PruneSegment::SenderRecovery => PruneCheckpoints { sender_recovery: Some(cp), ..self },
            PruneSegment::TransactionLookup => PruneCheckpoints {
                transaction_lookup: Some(cp),
                ..self
            },
            PruneSegment::Receipts => PruneCheckpoints { receipts: Some(cp), ..self },
            PruneSegment::ContractLogs => PruneCheckpoints { contract_logs: Some(cp), ..self },
            PruneSegment::AccountHistory => PruneCheckpoints { account_history: Some(cp), ..self },
            PruneSegment::StorageHistory => PruneCheckpoints { storage_history: Some(cp), ..self },
            PruneSegment::Headers => PruneCheckpoints { headers: Some(cp), ..self },
            PruneSegment::Transactions => PruneCheckpoints { transactions: Some(cp), ..self },
            PruneSegment::Sidecars => PruneCheckpoints { sidecars: Some(cp), ..self },
        }
    }

    /// No checkpoint recorded for any segment.
    pub fn none() -> (r: PruneCheckpoints)
        ensures
            forall|s: PruneSegment| r.spec_get(s) is None,
    {
        PruneCheckpoints {
            sender_recovery: None,
            transaction_lookup: None,
            receipts: None,
            contract_logs: None,
            account_history: None,
            storage_history: None,
            headers: None,
            transactions: None,
            sidecars: None,
        }
    }

    /// Reads the checkpoint of `segment`.
    pub fn get(&self, segment: PruneSegment) -> (r: Option<PruneCheckpoint>)
        ensures
            r == self.spec_get(segment),
    {
        match segment {
            PruneSegment::SenderRecovery => self.sender_recovery,
            PruneSegment::TransactionLookup => self.transaction_lookup,
            PruneSegment::Receipts => self.receipts,
            PruneSegment::ContractLogs => self.contract_logs,
            PruneSegment::AccountHistory => self.account_history,
            PruneSegment::StorageHistory => self.storage_history,
            PruneSegment::Headers => self.headers,
            PruneSegment::Transactions => self.transactions,
            PruneSegment::Sidecars => self.sidecars,
        }
    }

    /// Overwrites the checkpoint of `segment`.
    pub fn set(&mut self, segment: PruneSegment, cp: PruneCheckpoint)
        ensures
            *final(self) == old(self).spec_set(segment, cp),
    {
        match segment {
            PruneSegment::SenderRecovery => self.sender_recovery = Some(cp),
            PruneSegment::TransactionLookup => self.transaction_lookup = Some(cp),
            PruneSegment::Receipts => self.receipts = Some(cp),
            PruneSegment::ContractLogs => self.contract_logs = Some(cp),
            PruneSegment::AccountHistory => self.account_history = Some(cp),
            PruneSegment::StorageHistory => self.storage_history = Some(cp),
            PruneSegment::Headers => self.headers = Some(cp),
            PruneSegment::Transactions => self.transactions = Some(cp),
            PruneSegment::Sidecars => self.sidecars = Some(cp),
        }
    }
}

/// True when `after` does not regress `before`: a recorded checkpoint never
/// disappears, and its highest pruned block never decreases.
pub open spec fn cp_advances(before: Option<PruneCheckpoint>, after: Option<PruneCheckpoint>) -> bool {
    match before {
        Some(bc) => match after {
            Some(ac) => match bc.block_number {
                Some(bb) => match ac.block_number {
                    Some(ab) => ab >= bb,
                    None => false,
                },
                None => true,
            },
            None => false,
        },
        None => true,
    }
}

/// Per-segment monotonicity of the persisted checkpoints.
pub open spec fn checkpoints_monotone(before: PruneCheckpoints, after: PruneCheckpoints) -> bool {
    forall|s: PruneSegment| cp_advances(#[trigger] before.spec_get(s), after.spec_get(s))
}

/// Checkpoint monotonicity composes across runs: if a second run never
/// regresses the checkpoints a first run left, it never regresses the
/// checkpoints the first run started from.
pub proof fn lemma_checkpoints_monotone_trans(
    a: PruneCheckpoints,
    b: PruneCheckpoints,
    c: PruneCheckpoints,
)
    requires
        checkpoints_monotone(a, b),
        checkpoints_monotone(b, c),
    ensures
        checkpoints_monotone(a, c),
{
    assert forall|s: PruneSegment| cp_advances(#[trigger] a.spec_get(s), c.spec_get(s)) by {
        assert(cp_advances(a.spec_get(s), b.spec_get(s)));
        assert(cp_advances(b.spec_get(s), c.spec_get(s)));
    }
}

/// The prunable tables, one per segment.
#[derive(Clone, Debug, PartialEq, Eq)]
pub struct PruneTables {
    /// Entries of recovered senders.
    pub sender_recovery: PruneTable,
    /// Entries of the transaction lookup table.
    pub transaction_lookup: PruneTable,
    /// Entries of receipts.
    pub receipts: PruneTable,
    /// Entries of receipts kept for log filters.
    pub contract_logs: PruneTable,
    /// Entries of account history.
    pub account_history: PruneTable,
    /// Entries of storage history.
    pub storage_history: PruneTable,
    /// Entries of database headers.
    pub headers: PruneTable,
    /// Entries of database transactions.
    pub transactions: PruneTable,
    /// Entries of database sidecars.
    pub sidecars: PruneTable,
}

impl PruneTables {
    /// The table of `segment`.
    pub open spec fn spec_table(self, segment: PruneSegment) -> PruneTable {
        match segment {
            PruneSegment::SenderRecovery => self.sender_recovery,
            PruneSegment::TransactionLookup => self.transaction_lookup,
            PruneSegment::Receipts => self.receipts,
            PruneSegment::ContractLogs => self.contract_logs,
            PruneSegment::AccountHistory => self.account_history,
            PruneSegment::StorageHistory => self.storage_history,
            PruneSegment::Headers => self.headers,
            PruneSegment::Transactions => self.transactions,
            PruneSegment::Sidecars => self.sidecars,
        }
    }

    /// The tables with the table of `segment` replaced.
    pub open spec fn spec_with_table(self, segment: PruneSegment, t: PruneTable) -> PruneTables {
        match segment {
            PruneSegment::SenderRecovery => PruneTables { sender_recovery: t, ..self },
            PruneSegment::TransactionLookup => PruneTables { transaction_lookup: t, ..self },
            PruneSegment::Receipts => PruneTables { receipts: t, ..self },
            PruneSegment::ContractLogs => PruneTables { contract_logs: t, ..self },
            PruneSegment::AccountHistory => PruneTables { account_history: t, ..self },
            PruneSegment::StorageHistory => PruneTables { storage_history: t, ..self },
            PruneSegment::Headers => PruneTables { headers: t, ..self },
            PruneSegment::Transactions => PruneTables { transactions: t, ..self },
            PruneSegment::Sidecars => PruneTables { sidecars: t, ..self },
        }
    }

    /// Every table is well-formed.
    pub open spec fn wf(self) -> bool {
        &&& self.sender_recovery.wf()
        &&& self.transaction_lookup.wf()
        &&& self.receipts.wf()
        &&& self.contract_logs.wf()
        &&& self.account_history.wf()
        &&& self.storage_history.wf()
        &&& self.headers.wf()
        &&& self.transactions.wf()
        &&& self.sidecars.wf()
    }

    /// Empty tables.
    pub fn new() -> (r: PruneTables)
        ensures
            r.wf(),
            forall|s: PruneSegment| #[trigger] r.spec_table(s).entries@.len() == 0,
    {
        let r = PruneTables {
            sender_recovery: PruneTable::new(),
            transaction_lookup: PruneTable::new(),
            receipts: PruneTable::new(),
            contract_logs: PruneTable::new(),
            account_history: PruneTable::new(),
            storage_history: PruneTable::new(),
            headers: PruneTable::new(),
            transactions: PruneTable::new(),
            sidecars: PruneTable::new(),
        };
        proof {
            assert(forall|s: PruneSegment| #[trigger]
                r.spec_table(s).entries@.len() == 0) by {
                assert(r.spec_table(PruneSegment::SenderRecovery).entries@.len() == 0);
            }
        }
        r
    }
}

/// Total number of live entries over all prunable tables.
pub open spec fn total_table_entries(t: PruneTables) -> int {
    t.sender_recovery.entries@.len() as int + t.transaction_lookup.entries@.len() as int
        + t.receipts.entries@.len() as int + t.contract_logs.entries@.len() as int
        + t.account_history.entries@.len() as int + t.storage_history.entries@.len() as int
        + t.headers.entries@.len() as int + t.transactions.entries@.len() as int
        + t.sidecars.entries@.len() as int
}

/// A read-write view of the node's storage for the duration of one pruner
/// run: the database tables and checkpoints, and the static-file tier.
#[derive(Clone, Debug, PartialEq, Eq)]
pub struct ProviderRw {
    /// The static-file tier.
    pub static_files: StaticFileStore,
    /// The persisted prune checkpoints.
    pub checkpoints: PruneCheckpoints,
    /// The prunable database tables.
    pub tables: PruneTables,
}

impl ProviderRw {
    /// The highest pruned block recorded for `segment`, if any.
    pub open spec fn checkpoint_block(self, segment: PruneSegment) -> Option<u64> {
        match self.checkpoints.spec_get(segment) {
            Some(cp) => cp.block_number,
            None => None,
        }
    }

    /// Every table is well-formed, and no table holds an entry at or below
    /// its segment's checkpoint.
    pub open spec fn wf(self) -> bool {
        &&& self.tables.wf()
        &&& forall|s: PruneSegment, i: int|
            0 <= i < self.tables.spec_table(s).entries@.len() && self.checkpoint_block(s) is Some
                ==> #[trigger] self.tables.spec_table(s).entries@[i] > self.checkpoint_block(
                s,
            )->Some_0
    }

    /// An empty provider with no checkpoints.
    pub fn new(static_files: StaticFileStore) -> (r: ProviderRw)
        ensures
            r.wf(),
            r.static_files == static_files,
            forall|s: PruneSegment| r.checkpoints.spec_get(s) is None,
            forall|s: PruneSegment| #[trigger] r.tables.spec_table(s).entries@.len() == 0,
    {
        ProviderRw {
            static_files,
            checkpoints: PruneCheckpoints::none(),
            tables: PruneTables::new(),
        }
    }

    /// Reads the prune checkpoint of `segment`.
    pub fn get_prune_checkpoint(&self, segment: PruneSegment) -> (r: Option<PruneCheckpoint>)
        ensures
            r == self.checkpoints.spec_get(segment),
    {
        self.checkpoints.get(segment)
    }

    /// Persists the prune checkpoint of `segment`.
    pub fn save_prune_checkpoint(&mut self, segment: PruneSegment, cp: PruneCheckpoint)
        ensures
            final(self).checkpoints == old(self).checkpoints.spec_set(segment, cp),
            final(self).tables == old(self).tables,
            final(self).static_files == old(self).static_files,
    {
        self.checkpoints.set(segment, cp);
    }
}

} // verus!
