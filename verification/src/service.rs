//! The static-file service: serializes all writes to the append-only tier,
//! and hands checkpoint work to the database service through typed action
//! messages.
//!
//! Each action is processed atomically here; the commit ordering of the real
//! files (transactions before headers before sidecars) matters only across
//! crashes, which this model does not observe.

use vstd::prelude::*;

use crate::sorted::{
    count_le, lemma_count_le_boundary, lemma_count_le_prefix, nondecreasing, strictly_increasing,
};
use crate::static_files::{
    HeaderRow, ReceiptRow, SidecarRecordModel, SidecarRow, StaticFileStore, StoreModel, TxRow,
};

verus! {

/// A sealed block as the service consumes it: the header data and the body,
/// with every payload carried as its numeric identity.
#[derive(Clone, Debug, PartialEq, Eq)]
pub struct SealedBlockRecord {
    /// Block number.
    pub number: u64,
    /// Block hash.
    pub hash: u64,
    /// The transactions of the body, in block order.
    pub body: Vec<u64>,
    /// The blob sidecars, if any.
    pub sidecars: Option<Vec<u64>>,
}

/// An executed block as the service consumes it: its identity plus one
/// receipt slot per transaction, `None` where the receipt was pruned.
#[derive(Clone, Debug, PartialEq, Eq)]
pub struct ExecutedBlockRecord {
    /// Block number.
    pub number: u64,
    /// Block hash.
    pub hash: u64,
    /// One receipt per transaction, in order; pruned receipts are `None`.
    pub receipts: Vec<Option<u64>>,
}

/// A signal to the static-file service that some data should be persisted.
#[derive(Clone, Debug, PartialEq, Eq)]
pub enum StaticFileAction {
    /// The block was added to the canonical chain: log its header,
    /// transactions (numbered from the given start), and sidecars, with the
    /// given total difficulty.
    LogTransactions(SealedBlockRecord, u64, u128),
    /// Write the receipts of the executed blocks.
    WriteExecutionData(Vec<ExecutedBlockRecord>),
    /// Remove the blocks above the given number; the block itself stays.
    RemoveBlocksAbove(u64),
}

/// A follow-up instruction for the database service. The static-file
/// service never advances database checkpoints itself.
#[derive(Clone, Debug, PartialEq, Eq)]
pub enum DatabaseAction {
    /// Advance the header and body checkpoints to the given block.
    UpdateTransactionMeta(u64),
    /// Persist the executed blocks and advance the execution checkpoints.
    SaveBlocks(Vec<ExecutedBlockRecord>),
}

/// The blob payloads of a block, empty when it has none.
pub open spec fn sidecar_blobs_spec(block: SealedBlockRecord) -> Seq<u64> {
    match block.sidecars {
        Some(blobs) => blobs@,
        None => Seq::empty(),
    }
}

/// The transaction rows one block appends, numbered from `start_tx`.
pub open spec fn tx_rows_spec(number: u64, body: Seq<u64>, start_tx: u64) -> Seq<TxRow> {
    Seq::new(
        body.len(),
        |i: int| TxRow { tx_number: (start_tx + i) as u64, block_number: number, payload: body[i] },
    )
}

/// The tier after logging one block: a header row, the body's transaction
/// rows, and one sidecar row are appended; receipts and partitions are
/// untouched.
pub open spec fn log_transactions_spec(
    m: StoreModel,
    block: SealedBlockRecord,
    start_tx: u64,
    td: u128,
) -> StoreModel {
    StoreModel {
        headers: m.headers.push(
            HeaderRow { number: block.number, hash: block.hash, total_difficulty: td },
        ),
        transactions: m.transactions + tx_rows_spec(block.number, block.body@, start_tx),
        receipts: m.receipts,
        sidecars: m.sidecars.push(
            SidecarRecordModel {
                block_number: block.number,
                block_hash: block.hash,
                blobs: sidecar_blobs_spec(block),
            },
        ),
        sidecar_partitions: m.sidecar_partitions,
    }
}

/// When the service accepts a `LogTransactions` action: the block extends
/// the header file, and the transaction numbering continues where the file
/// ends.
pub open spec fn log_transactions_valid(
    m: StoreModel,
    block: SealedBlockRecord,
    start_tx: u64,
) -> bool {
    &&& m.headers.len() > 0 ==> block.number == m.headers.last().number + 1
    &&& m.transactions.len() > 0 ==> start_tx == m.transactions.last().tx_number + 1
    &&& m.transactions.len() > 0 ==> m.transactions.last().block_number <= block.number
    &&& start_tx + block.body@.len() <= u64::MAX
}

/// Writes finalized block data to the static files.
///
/// The service owns the append-only tier while it runs; actions arrive on a
/// queue owned by the caller, which also forwards the returned database
/// actions.
#[derive(Debug)]
pub struct StaticFileService {
    /// The append-only tier this service writes.
    pub store: StaticFileStore,
}

impl StaticFileService {
    /// Creates a new static-file service owning the given tier.
    pub fn new(store: StaticFileStore) -> (r: StaticFileService)
        ensures
            r.store == store,
    {
        StaticFileService { store }
    }

    /// Logs one canonical block: appends its header (with total difficulty
    /// and hash), its transactions at sequential numbers starting at
    /// `start_tx_number`, and its sidecars (empty if absent). Returns the
    /// checkpoint-update action for the database service.
    pub fn log_transactions(
        &mut self,
        block: &SealedBlockRecord,
        start_tx_number: u64,
        td: u128,
    ) -> (r: DatabaseAction)
        requires
            old(self).store.wf(),
            log_transactions_valid(old(self).store@, *block, start_tx_number),
        ensures
            final(self).store@ == log_transactions_spec(
                old(self).store@,
                *block,
                start_tx_number,
                td,
            ),
            final(self).store.wf(),
            r == DatabaseAction::UpdateTransactionMeta(block.number),
    {
        let ghost m0 = self.store@;
        self.store.headers.push(
            HeaderRow { number: block.number, hash: block.hash, total_difficulty: td },
        );
        let ghost rows = tx_rows_spec(block.number, block.body@, start_tx_number);
        let mut j: usize = 0;
        while j < block.body.len()
            invariant
                j <= block.body@.len(),
                start_tx_number + block.body@.len() <= u64::MAX,
                rows == tx_rows_spec(block.number, block.body@, start_tx_number),
                self.store.transactions@ == m0.transactions + rows.subrange(0, j as int),
                self.store.headers@ == m0.headers.push(
                    HeaderRow { number: block.number, hash: block.hash, total_difficulty: td },
                ),
                self.store.receipts@ == m0.receipts,
                self.store.sidecars@.map_values(
                    |r: SidecarRow| SidecarRecordModel {
                        block_number: r.block_number,
                        block_hash: r.block_hash,
                        blobs: r.blobs@,
                    },
                ) == m0.sidecars,
                self.store.sidecar_partitions@ == m0.sidecar_partitions,
            decreases block.body@.len() - j,
        {
            let tx = TxRow {
                tx_number: start_tx_number + (j as u64),
                block_number: block.number,
                payload: block.body[j],
            };
            self.store.transactions.push(tx);
            proof {
                assert((m0.transactions + rows.subrange(0, j as int)).push(rows[j as int]) =~= (
                m0.transactions + rows.subrange(0, j as int + 1)));
            }
            j += 1;
        }
        let blobs = match &block.sidecars {
            Some(b) => copy_payloads(b),
            None => Vec::new(),
        };
        self.store.sidecars.push(
            SidecarRow { block_number: block.number, block_hash: block.hash, blobs },
        );
        proof {
            assert(rows.subrange(0, rows.len() as int) =~= rows);
            assert(self.store@.sidecars =~= m0.sidecars.push(
                SidecarRecordModel {
                    block_number: block.number,
                    block_hash: block.hash,
                    blobs: sidecar_blobs_spec(*block),
                },
            ));
            assert(self.store@ == log_transactions_spec(m0, *block, start_tx_number, td));
            lemma_log_transactions_wf(m0, *block, start_tx_number, td);
        }
        DatabaseAction::UpdateTransactionMeta(block.number)
    }

    /// Writes the receipts of the executed blocks: each present receipt is
    /// appended at its slot's transaction number, continuing where the
    /// receipt file ends; pruned slots advance the numbering without a row.
    /// Returns the save-blocks action for the database service, or nothing
    /// when the run is empty.
    pub fn write_execution_data(&mut self, blocks: Vec<ExecutedBlockRecord>) -> (r: Option<
        DatabaseAction,
    >)
        requires
            old(self).store.wf(),
            write_execution_data_valid(old(self).store@, blocks@),
        ensures
            final(self).store@ == write_execution_data_spec(old(self).store@, blocks@),
            final(self).store.wf(),
            blocks@.len() == 0 ==> r is None,
            blocks@.len() > 0 ==> r == Some(DatabaseAction::SaveBlocks(blocks)),
    {
        let ghost m0 = self.store@;
        let ghost base = next_receipt_tx_spec(m0);
        if blocks.len() == 0 {
            proof {
                assert(exec_receipt_rows_spec(blocks@, base) =~= Seq::<ReceiptRow>::empty());
                assert(m0.receipts + exec_receipt_rows_spec(blocks@, base) =~= m0.receipts);
            }
            return None;
        }
        proof {
            lemma_receipts_len_sum_nonneg(blocks@);
        }
        let mut current_receipt: u64 = match self.store.get_highest_static_file_tx(
            crate::static_files::StaticFileSegment::Receipts,
        ) {
            Some(n) => n + 1,
            None => 0,
        };
        let mut i: usize = 0;
        proof {
            assert(blocks@.subrange(0, 0) =~= Seq::<ExecutedBlockRecord>::empty());
            assert(blocks@.subrange(0, blocks@.len() as int) =~= blocks@);
            assert(m0.receipts + Seq::<ReceiptRow>::empty() =~= m0.receipts);
            let txs = crate::static_files::receipt_txs(m0.receipts);
            let bls = crate::static_files::receipt_blocks(m0.receipts);
            assert forall|k: int| 0 <= k < self.store@.receipts.len() implies (
            #[trigger] self.store@.receipts[k]).tx_number < current_receipt by {
                if k < m0.receipts.len() - 1 {
                    assert(txs[k] < txs[m0.receipts.len() - 1]);
                }
            }
            assert forall|k: int| 0 <= k < self.store@.receipts.len() implies (
            #[trigger] self.store@.receipts[k]).block_number < blocks@[0].number by {
                if k < m0.receipts.len() - 1 {
                    assert(bls[k] <= bls[m0.receipts.len() - 1]);
                }
            }
        }
        while i < blocks.len()
            invariant
                i <= blocks@.len(),
                self.store.wf(),
                write_execution_data_valid(m0, blocks@),
                base == next_receipt_tx_spec(m0),
                self.store@.headers == m0.headers,
                self.store@.transactions == m0.transactions,
                self.store@.sidecars == m0.sidecars,
                self.store@.sidecar_partitions == m0.sidecar_partitions,
                self.store@.receipts == m0.receipts + exec_receipt_rows_spec(
                    blocks@.subrange(0, i as int),
                    base,
                ),
                current_receipt == base + receipts_len_sum(blocks@.subrange(0, i as int)),
                current_receipt + receipts_len_sum(
                    blocks@.subrange(i as int, blocks@.len() as int),
                ) <= u64::MAX,
                forall|k: int|
                    0 <= k < self.store@.receipts.len() ==> (#[trigger] self.store@.receipts[k]).tx_number < current_receipt,
                i < blocks@.len() ==> forall|k: int|
                    0 <= k < self.store@.receipts.len() ==> (#[trigger] self.store@.receipts[k]).block_number < blocks@[i as int].number,
            decreases blocks@.len() - i,
        {
            let ghost tail = blocks@.subrange(i as int, blocks@.len() as int);
            proof {
                assert(tail[0] == blocks@[i as int]);
                assert(tail.drop_first() =~= blocks@.subrange(i as int + 1, blocks@.len() as int));
                lemma_receipts_len_sum_nonneg(
                    blocks@.subrange(i as int + 1, blocks@.len() as int),
                );
                lemma_receipts_len_sum_nonneg(blocks@.subrange(0, i as int));
            }
            let block = &blocks[i];
            let num = block.number;
            let ghost base_i = current_receipt as int;
            let ghost rows_before = exec_receipt_rows_spec(blocks@.subrange(0, i as int), base);
            let mut j: usize = 0;
            proof {
                assert(block.receipts@.subrange(0, 0) =~= Seq::<Option<u64>>::empty());
                assert((m0.receipts + rows_before) + Seq::<ReceiptRow>::empty() =~= m0.receipts
                    + rows_before);
            }
            while j < block.receipts.len()
                invariant
                    j <= block.receipts@.len(),
                    self.store.wf(),
                    i < blocks@.len(),
                    block == &blocks[i as int],
                    num == blocks@[i as int].number,
                    self.store@.headers == m0.headers,
                    self.store@.transactions == m0.transactions,
                    self.store@.sidecars == m0.sidecars,
                    self.store@.sidecar_partitions == m0.sidecar_partitions,
                    self.store@.receipts == (m0.receipts + rows_before) + receipt_rows_spec(
                        block.receipts@.subrange(0, j as int),
                        base_i,
                        num,
                    ),
                    current_receipt == base_i + j,
                    base_i + block.receipts@.len() + receipts_len_sum(
                        blocks@.subrange(i as int + 1, blocks@.len() as int),
                    ) <= u64::MAX,
                    receipts_len_sum(blocks@.subrange(i as int + 1, blocks@.len() as int)) >= 0,
                    forall|k: int|
                        0 <= k < self.store@.receipts.len() ==> (#[trigger] self.store@.receipts[k]).tx_number < current_receipt,
                    forall|k: int|
                        0 <= k < self.store@.receipts.len() ==> (#[trigger] self.store@.receipts[k]).block_number <= num,
                decreases block.receipts@.len() - j,
            {
                let ghost receipts_pre = self.store@.receipts;
                let ghost prefix = block.receipts@.subrange(0, j as int);
                proof {
                    lemma_receipt_rows_snoc(prefix, block.receipts@[j as int], base_i, num);
                    assert(prefix.push(block.receipts@[j as int]) =~= block.receipts@.subrange(
                        0,
                        j as int + 1,
                    ));
                }
                match block.receipts[j] {
                    Some(p) => {
                        let row = ReceiptRow {
                            tx_number: current_receipt,
                            block_number: num,
                            payload: p,
                        };
                        self.store.receipts.push(row);
                        proof {
                            assert(receipts_pre.push(row) =~= (m0.receipts + rows_before)
                                + receipt_rows_spec(
                                block.receipts@.subrange(0, j as int + 1),
                                base_i,
                                num,
                            ));
                            lemma_receipts_push_wf(receipts_pre, row);
                        }
                    }
                    None => {
                        proof {
                            assert(receipts_pre =~= (m0.receipts + rows_before)
                                + receipt_rows_spec(
                                block.receipts@.subrange(0, j as int + 1),
                                base_i,
                                num,
                            ));
                        }
                    }
                }
                current_receipt += 1;
                j += 1;
            }
            proof {
                assert(block.receipts@.subrange(0, block.receipts@.len() as int)
                    =~= block.receipts@);
                lemma_exec_rows_snoc(blocks@.subrange(0, i as int), blocks@[i as int], base);
                assert(blocks@.subrange(0, i as int).push(blocks@[i as int]) =~= blocks@.subrange(
                    0,
                    i as int + 1,
                ));
                lemma_receipts_len_sum_snoc(blocks@.subrange(0, i as int), blocks@[i as int]);
                assert((m0.receipts + rows_before) + receipt_rows_spec(
                    block.receipts@,
                    base_i,
                    num,
                ) =~= m0.receipts + exec_receipt_rows_spec(blocks@.subrange(0, i as int + 1), base));
            }
            i += 1;
        }
        proof {
            assert(blocks@.subrange(0, blocks@.len() as int) =~= blocks@);
        }
        Some(DatabaseAction::SaveBlocks(blocks))
    }

    /// Removes the blocks above `block_num` from all four segments; block
    /// `block_num` itself is retained. Each segment keeps exactly its
    /// prefix of rows at blocks up to `block_num`.
    pub fn remove_blocks_above(&mut self, block_num: u64)
        requires
            old(self).store.wf(),
        ensures
            final(self).store@ == remove_blocks_above_spec(old(self).store@, block_num),
            final(self).store.wf(),
    {
        let ghost m0 = self.store@;
        let ghost rows0 = self.store.sidecars@;
        proof {
            lemma_model_numbers_nondecreasing(m0);
            assert(crate::static_files::sidecar_blocks(rows0)
                =~= crate::static_files::sidecar_model_blocks(m0.sidecars));
        }
        truncate_headers(&mut self.store.headers, block_num);
        truncate_transactions(&mut self.store.transactions, block_num);
        truncate_receipts(&mut self.store.receipts, block_num);
        truncate_sidecars(&mut self.store.sidecars, block_num);
        proof {
            let c = count_le(crate::static_files::sidecar_model_blocks(m0.sidecars), block_num);
            lemma_count_le_prefix(crate::static_files::sidecar_model_blocks(m0.sidecars), block_num);
            assert(count_le(crate::static_files::sidecar_blocks(rows0), block_num) == c);
            assert(self.store.sidecars@ == rows0.subrange(0, c));
            assert forall|i: int| 0 <= i < c implies #[trigger] self.store@.sidecars[i]
                == m0.sidecars[i] by {
                assert(self.store.sidecars@[i] == rows0[i]);
            }
            assert(self.store@.sidecars =~= m0.sidecars.subrange(0, c));
            assert(self.store@ == remove_blocks_above_spec(m0, block_num));
            lemma_remove_blocks_above_wf(m0, block_num);
        }
    }

    /// Processes one incoming action, returning the follow-up instruction
    /// for the database service, if the action calls for one.
    pub fn process_action(&mut self, action: StaticFileAction) -> (r: Option<DatabaseAction>)
        requires
            old(self).store.wf(),
            action_valid_spec(old(self).store@, action),
        ensures
            final(self).store@ == apply_action_spec(old(self).store@, action),
            final(self).store.wf(),
            r == spec_action_reply(action),
            action matches StaticFileAction::LogTransactions(block, _, _) ==> r == Some(
                DatabaseAction::UpdateTransactionMeta(block.number),
            ),
            action matches StaticFileAction::WriteExecutionData(blocks) ==> (if blocks@.len() > 0 {
                r == Some(DatabaseAction::SaveBlocks(blocks))
            } else {
                r is None
            }),
            action is RemoveBlocksAbove ==> r is None,
    {
        match action {
            StaticFileAction::LogTransactions(block, start_tx_number, td) => {
                let db_action = self.log_transactions(&block, start_tx_number, td);
                Some(db_action)
            }
            StaticFileAction::WriteExecutionData(blocks) => self.write_execution_data(blocks),
            StaticFileAction::RemoveBlocksAbove(block_num) => {
                self.remove_blocks_above(block_num);
                None
            }
        }
    }

    /// Processes a batch of incoming actions in arrival order, returning
    /// each action's follow-up instruction for the database service.
    pub fn process_actions(&mut self, actions: Vec<StaticFileAction>) -> (r: Vec<
        Option<DatabaseAction>,
    >)
        requires
            old(self).store.wf(),
            actions_valid_spec(old(self).store@, actions@),
        ensures
            final(self).store@ == apply_actions_spec(old(self).store@, actions@),
            final(self).store.wf(),
            r@ == actions@.map_values(|a: StaticFileAction| spec_action_reply(a)),
    {
        let mut actions = actions;
        let mut replies: Vec<Option<DatabaseAction>> = Vec::new();
        let ghost m0 = self.store@;
        let ghost all = actions@;
        let total = actions.len();
        let mut k: usize = 0;
        proof {
            assert(all.subrange(0, 0) =~= Seq::<StaticFileAction>::empty());
            assert(all.subrange(0, all.len() as int) =~= all);
        }
        while actions.len() > 0
            invariant
                self.store.wf(),
                all.len() == total,
                k + actions@.len() == all.len(),
                actions@ == all.subrange(k as int, all.len() as int),
                self.store@ == apply_actions_spec(m0, all.subrange(0, k as int)),
                actions_valid_spec(self.store@, actions@),
                replies@ == all.subrange(0, k as int).map_values(
                    |a: StaticFileAction| spec_action_reply(a),
                ),
            decreases actions@.len(),
        {
            proof {
                assert(all.subrange(k as int, all.len() as int)[0] == all[k as int]);
                assert(all.subrange(k as int, all.len() as int).drop_first() =~= all.subrange(
                    k as int + 1,
                    all.len() as int,
                ));
            }
            let action = actions.remove(0);
            proof {
                assert(actions@ =~= all.subrange(k as int + 1, all.len() as int));
            }
            let reply = self.process_action(action);
            replies.push(reply);
            proof {
                lemma_apply_actions_snoc(m0, all.subrange(0, k as int), all[k as int]);
                assert(all.subrange(0, k as int).push(all[k as int]) =~= all.subrange(
                    0,
                    k as int + 1,
                ));
                assert(replies@ =~= all.subrange(0, k as int + 1).map_values(
                    |a: StaticFileAction| spec_action_reply(a),
                ));
            }
            k += 1;
        }
        proof {
            assert(all.subrange(0, all.len() as int) =~= all);
        }
        replies
    }
}

/// Appending a block and then removing the blocks above its predecessor
/// restores the header, transaction, and sidecar files exactly; only the
/// receipt file, which the append never touched, is truncated on its own
/// terms.
pub proof fn lemma_log_then_remove_restores(
    m: StoreModel,
    block: SealedBlockRecord,
    start_tx: u64,
    td: u128,
)
    requires
        m.wf(),
        log_transactions_valid(m, block, start_tx),
        block.number > 0,
    ensures
        remove_blocks_above_spec(
            log_transactions_spec(m, block, start_tx, td),
            (block.number - 1) as u64,
        ).headers == m.headers,
        remove_blocks_above_spec(
            log_transactions_spec(m, block, start_tx, td),
            (block.number - 1) as u64,
        ).transactions == m.transactions,
        remove_blocks_above_spec(
            log_transactions_spec(m, block, start_tx, td),
            (block.number - 1) as u64,
        ).sidecars == m.sidecars,
{
    let n = log_transactions_spec(m, block, start_tx, td);
    lemma_log_transactions_wf(m, block, start_tx, td);
    lemma_model_numbers_nondecreasing(n);
    let bm = (block.number - 1) as u64;
    let hn = crate::static_files::header_numbers(n.headers);
    let tb = crate::static_files::tx_blocks(n.transactions);
    let sb = crate::static_files::sidecar_model_blocks(n.sidecars);
    // Every old header lies at or below the predecessor; the new one above.
    assert forall|i: int| 0 <= i < m.headers.len() implies hn[i] <= bm by {
        assert(n.headers[i] == m.headers[i]);
        assert(m.headers[i].number == m.headers[0].number + i);
        assert(m.headers.last().number == m.headers[0].number + (m.headers.len() - 1));
    }
    assert forall|i: int| m.headers.len() <= i < n.headers.len() implies hn[i] > bm by {
        assert(n.headers[i].number == block.number);
    }
    lemma_count_le_boundary(hn, bm, m.headers.len() as int);
    assert(n.headers.subrange(0, m.headers.len() as int) =~= m.headers);
    // Every old transaction row's block lies at or below the predecessor;
    // the appended rows' blocks above.
    assert forall|i: int| 0 <= i < m.transactions.len() implies tb[i] <= bm by {
        let mtb = crate::static_files::tx_blocks(m.transactions);
        assert(mtb[i] <= mtb[m.transactions.len() - 1]);
        assert(m.transactions.last().block_number <= m.headers.last().number);
        assert(m.headers.last().number == bm);
        assert(n.transactions[i] == m.transactions[i]);
        assert(tb[i] == mtb[i]);
    }
    assert forall|i: int| m.transactions.len() <= i < n.transactions.len() implies tb[i] > bm by {
        assert(n.transactions[i] == tx_rows_spec(block.number, block.body@, start_tx)[i
            - m.transactions.len()]);
        assert(n.transactions[i].block_number == block.number);
    }
    lemma_count_le_boundary(tb, bm, m.transactions.len() as int);
    assert(n.transactions.subrange(0, m.transactions.len() as int) =~= m.transactions);
    // The sidecar file mirrors the header file.
    assert forall|i: int| 0 <= i < m.sidecars.len() implies sb[i] <= bm by {
        assert(n.sidecars[i] == m.sidecars[i]);
        assert(m.sidecars[i].block_number == m.headers[i].number);
        assert(m.headers[i].number == m.headers[0].number + i);
        assert(m.headers.last().number == m.headers[0].number + (m.headers.len() - 1));
    }
    assert forall|i: int| m.sidecars.len() <= i < n.sidecars.len() implies sb[i] > bm by {
        assert(n.sidecars[i].block_number == block.number);
    }
    lemma_count_le_boundary(sb, bm, m.sidecars.len() as int);
    assert(n.sidecars.subrange(0, m.sidecars.len() as int) =~= m.sidecars);
}

/// The tier after one action.
pub open spec fn apply_action_spec(m: StoreModel, a: StaticFileAction) -> StoreModel {
    match a {
        StaticFileAction::LogTransactions(block, start_tx, td) => log_transactions_spec(
            m,
            block,
            start_tx,
            td,
        ),
        StaticFileAction::WriteExecutionData(blocks) => write_execution_data_spec(m, blocks@),
        StaticFileAction::RemoveBlocksAbove(n) => remove_blocks_above_spec(m, n),
    }
}

/// When the service accepts an action against the given tier.
pub open spec fn action_valid_spec(m: StoreModel, a: StaticFileAction) -> bool {
    match a {
        StaticFileAction::LogTransactions(block, start_tx, _) => log_transactions_valid(
            m,
            block,
            start_tx,
        ),
        StaticFileAction::WriteExecutionData(blocks) => write_execution_data_valid(m, blocks@),
        StaticFileAction::RemoveBlocksAbove(_) => true,
    }
}

/// The follow-up instruction one action produces for the database service.
pub open spec fn spec_action_reply(a: StaticFileAction) -> Option<DatabaseAction> {
    match a {
        StaticFileAction::LogTransactions(block, _, _) => Some(
            DatabaseAction::UpdateTransactionMeta(block.number),
        ),
        StaticFileAction::WriteExecutionData(blocks) => if blocks@.len() > 0 {
            Some(DatabaseAction::SaveBlocks(blocks))
        } else {
            None
        },
        StaticFileAction::RemoveBlocksAbove(_) => None,
    }
}

/// The tier after a sequence of actions, applied in arrival order.
pub open spec fn apply_actions_spec(m: StoreModel, actions: Seq<StaticFileAction>) -> StoreModel
    decreases actions.len(),
{
    if actions.len() == 0 {
        m
    } else {
        apply_actions_spec(apply_action_spec(m, actions[0]), actions.drop_first())
    }
}

/// When the service accepts every action of the sequence in turn.
pub open spec fn actions_valid_spec(m: StoreModel, actions: Seq<StaticFileAction>) -> bool
    decreases actions.len(),
{
    if actions.len() == 0 {
        true
    } else {
        action_valid_spec(m, actions[0]) && actions_valid_spec(
            apply_action_spec(m, actions[0]),
            actions.drop_first(),
        )
    }
}

/// A sequence of actions extended by one more.
pub proof fn lemma_apply_actions_snoc(m: StoreModel, actions: Seq<StaticFileAction>, a: StaticFileAction)
    ensures
        apply_actions_spec(m, actions.push(a)) == apply_action_spec(
            apply_actions_spec(m, actions),
            a,
        ),
        actions_valid_spec(m, actions.push(a)) == (actions_valid_spec(m, actions)
            && action_valid_spec(apply_actions_spec(m, actions), a)),
    decreases actions.len(),
{
    if actions.len() == 0 {
        assert(actions.push(a)[0] == a);
        assert(actions.push(a).drop_first() =~= Seq::<StaticFileAction>::empty());
        assert(apply_actions_spec(apply_action_spec(m, a), Seq::<StaticFileAction>::empty())
            == apply_action_spec(m, a));
        assert(actions_valid_spec(apply_action_spec(m, a), Seq::<StaticFileAction>::empty()));
    } else {
        assert(actions.push(a)[0] == actions[0]);
        assert(actions.push(a).drop_first() =~= actions.drop_first().push(a));
        lemma_apply_actions_snoc(apply_action_spec(m, actions[0]), actions.drop_first(), a);
    }
}

/// An action that only appends leaves the existing rows of every segment in
/// place.
pub proof fn lemma_apply_action_extends(m: StoreModel, a: StaticFileAction)
    requires
        !(a is RemoveBlocksAbove),
    ensures
        m.headers.is_prefix_of(apply_action_spec(m, a).headers),
        m.transactions.is_prefix_of(apply_action_spec(m, a).transactions),
        m.receipts.is_prefix_of(apply_action_spec(m, a).receipts),
        m.sidecars.is_prefix_of(apply_action_spec(m, a).sidecars),
{
    let n = apply_action_spec(m, a);
    assert(m.headers =~= n.headers.subrange(0, m.headers.len() as int));
    assert(m.transactions =~= n.transactions.subrange(0, m.transactions.len() as int));
    assert(m.receipts =~= n.receipts.subrange(0, m.receipts.len() as int));
    assert(m.sidecars =~= n.sidecars.subrange(0, m.sidecars.len() as int));
}

/// Processing a sequence of append actions only ever extends the segment
/// files.
pub proof fn lemma_apply_actions_extend(m: StoreModel, actions: Seq<StaticFileAction>)
    requires
        forall|i: int| 0 <= i < actions.len() ==> !((#[trigger] actions[i]) is RemoveBlocksAbove),
    ensures
        m.headers.is_prefix_of(apply_actions_spec(m, actions).headers),
        m.transactions.is_prefix_of(apply_actions_spec(m, actions).transactions),
        m.receipts.is_prefix_of(apply_actions_spec(m, actions).receipts),
        m.sidecars.is_prefix_of(apply_actions_spec(m, actions).sidecars),
    decreases actions.len(),
{
    if actions.len() == 0 {
    } else {
        let m1 = apply_action_spec(m, actions[0]);
        lemma_apply_action_extends(m, actions[0]);
        assert(forall|i: int|
            0 <= i < actions.drop_first().len() ==> !((#[trigger] actions.drop_first()[i])
                is RemoveBlocksAbove));
        lemma_apply_actions_extend(m1, actions.drop_first());
        let f = apply_actions_spec(m, actions);
        assert(f == apply_actions_spec(m1, actions.drop_first()));
        lemma_prefix_trans(m.headers, m1.headers, f.headers);
        lemma_prefix_trans(m.transactions, m1.transactions, f.transactions);
        lemma_prefix_trans(m.receipts, m1.receipts, f.receipts);
        lemma_prefix_trans(m.sidecars, m1.sidecars, f.sidecars);
    }
}

/// Prefixes compose.
pub proof fn lemma_prefix_trans<T>(a: Seq<T>, b: Seq<T>, c: Seq<T>)
    requires
        a.is_prefix_of(b),
        b.is_prefix_of(c),
    ensures
        a.is_prefix_of(c),
{
    assert(a =~= c.subrange(0, a.len() as int));
}

/// A sequence of actions splits at any point: processing the whole run
/// equals processing a prefix, then the rest.
pub proof fn lemma_apply_actions_split(m: StoreModel, actions: Seq<StaticFileAction>, k: int)
    requires
        0 <= k <= actions.len(),
    ensures
        apply_actions_spec(m, actions) == apply_actions_spec(
            apply_actions_spec(m, actions.subrange(0, k)),
            actions.subrange(k, actions.len() as int),
        ),
    decreases actions.len() - k,
{
    if k == actions.len() {
        assert(actions.subrange(0, k) =~= actions);
        assert(actions.subrange(k, actions.len() as int) =~= Seq::<StaticFileAction>::empty());
    } else {
        lemma_apply_actions_split(m, actions, k + 1);
        lemma_apply_actions_snoc(m, actions.subrange(0, k), actions[k]);
        assert(actions.subrange(0, k).push(actions[k]) =~= actions.subrange(0, k + 1));
        let mk = apply_actions_spec(m, actions.subrange(0, k));
        let rest = actions.subrange(k, actions.len() as int);
        assert(rest[0] == actions[k]);
        assert(rest.drop_first() =~= actions.subrange(k + 1, actions.len() as int));
        assert(apply_actions_spec(mk, rest) == apply_actions_spec(
            apply_action_spec(mk, actions[k]),
            actions.subrange(k + 1, actions.len() as int),
        ));
    }
}

/// For a crash-free run of append actions, the rows land in arrival order:
/// after any prefix of the actions, each segment file is a prefix of the
/// file after the whole run.
pub proof fn lemma_append_actions_in_order(m: StoreModel, actions: Seq<StaticFileAction>, k: int)
    requires
        0 <= k <= actions.len(),
        forall|i: int| 0 <= i < actions.len() ==> !((#[trigger] actions[i]) is RemoveBlocksAbove),
    ensures
        apply_actions_spec(m, actions.subrange(0, k)).headers.is_prefix_of(
            apply_actions_spec(m, actions).headers,
        ),
        apply_actions_spec(m, actions.subrange(0, k)).transactions.is_prefix_of(
            apply_actions_spec(m, actions).transactions,
        ),
        apply_actions_spec(m, actions.subrange(0, k)).receipts.is_prefix_of(
            apply_actions_spec(m, actions).receipts,
        ),
        apply_actions_spec(m, actions.subrange(0, k)).sidecars.is_prefix_of(
            apply_actions_spec(m, actions).sidecars,
        ),
{
    lemma_apply_actions_split(m, actions, k);
    let mk = apply_actions_spec(m, actions.subrange(0, k));
    let rest = actions.subrange(k, actions.len() as int);
    assert(forall|i: int| 0 <= i < rest.len() ==> !((#[trigger] rest[i]) is RemoveBlocksAbove));
    lemma_apply_actions_extend(mk, rest);
}

/// Truncating to a block keeps the tier well-formed.
pub proof fn lemma_remove_blocks_above_wf(m: StoreModel, block_num: u64)
    requires
        m.wf(),
    ensures
        remove_blocks_above_spec(m, block_num).wf(),
{
    let r = remove_blocks_above_spec(m, block_num);
    lemma_model_numbers_nondecreasing(m);
    let hn = crate::static_files::header_numbers(m.headers);
    let tb = crate::static_files::tx_blocks(m.transactions);
    let rb = crate::static_files::receipt_blocks(m.receipts);
    let sb = crate::static_files::sidecar_model_blocks(m.sidecars);
    lemma_count_le_prefix(hn, block_num);
    lemma_count_le_prefix(tb, block_num);
    lemma_count_le_prefix(rb, block_num);
    lemma_count_le_prefix(sb, block_num);
    // The header and sidecar files list the same blocks, so the same prefix
    // survives in both.
    assert(hn =~= sb);
    let ch = count_le(hn, block_num);
    let ct = count_le(tb, block_num);
    // Tier ordering of the surviving transaction rows.
    assert(nondecreasing(crate::static_files::tx_blocks(r.transactions))) by {
        let ntb = crate::static_files::tx_blocks(r.transactions);
        assert forall|i: int, j: int| 0 <= i < j < ntb.len() implies ntb[i] <= ntb[j] by {
            assert(tb[i] <= tb[j]);
        }
    }
    assert(strictly_increasing(crate::static_files::receipt_txs(r.receipts))) by {
        let ot = crate::static_files::receipt_txs(m.receipts);
        let nt = crate::static_files::receipt_txs(r.receipts);
        assert forall|i: int, j: int| 0 <= i < j < nt.len() implies nt[i] < nt[j] by {
            assert(ot[i] < ot[j]);
        }
    }
    assert(nondecreasing(crate::static_files::receipt_blocks(r.receipts))) by {
        let nb = crate::static_files::receipt_blocks(r.receipts);
        assert forall|i: int, j: int| 0 <= i < j < nb.len() implies nb[i] <= nb[j] by {
            assert(rb[i] <= rb[j]);
        }
    }
    if r.transactions.len() > 0 {
        // The last surviving transaction's block still has its header: the
        // header file keeps at least the range up to that block.
        let b = m.transactions[ct - 1].block_number;
        assert(tb[ct - 1] == b);
        assert(tb[ct - 1] <= tb[m.transactions.len() - 1]);
        assert(b <= m.headers.last().number);
        let h0v = m.headers[0].number;
        assert(tb[0] <= tb[ct - 1]);
        assert(m.transactions[0].block_number >= h0v);
        assert(b >= h0v);
        let k = b - h0v;
        assert(m.headers[k].number == h0v + k);
        assert(hn[k] == b);
        assert(k < ch);
        assert(m.headers[ch - 1].number == h0v + (ch - 1));
        assert(r.headers.len() == ch > 0);
        assert(r.headers.last() == m.headers[ch - 1]);
        assert(r.transactions.last() == m.transactions[ct - 1]);
        assert(r.transactions.last().block_number <= r.headers.last().number);
        assert(r.headers[0] == m.headers[0]);
        assert(r.transactions[0] == m.transactions[0]);
    }
}

/// The tier after removing every block above `block_num`: each segment
/// keeps exactly its rows at blocks up to `block_num`, which form a prefix;
/// the partitions on disk are untouched.
pub open spec fn remove_blocks_above_spec(m: StoreModel, block_num: u64) -> StoreModel {
    StoreModel {
        headers: m.headers.subrange(
            0,
            count_le(crate::static_files::header_numbers(m.headers), block_num),
        ),
        transactions: m.transactions.subrange(
            0,
            count_le(crate::static_files::tx_blocks(m.transactions), block_num),
        ),
        receipts: m.receipts.subrange(
            0,
            count_le(crate::static_files::receipt_blocks(m.receipts), block_num),
        ),
        sidecars: m.sidecars.subrange(
            0,
            count_le(crate::static_files::sidecar_model_blocks(m.sidecars), block_num),
        ),
        sidecar_partitions: m.sidecar_partitions,
    }
}

/// Exactly the blocks above `block_num` are deleted: every kept row is
/// unchanged and sits at or below `block_num`; every dropped row sits above
/// it. In particular the row of `block_num` itself, where present, stays.
pub proof fn lemma_remove_blocks_above_exact(m: StoreModel, block_num: u64)
    requires
        m.wf(),
    ensures
        forall|i: int|
            0 <= i < remove_blocks_above_spec(m, block_num).headers.len() ==> (
            #[trigger] remove_blocks_above_spec(m, block_num).headers[i]) == m.headers[i]
                && m.headers[i].number <= block_num,
        forall|i: int|
            remove_blocks_above_spec(m, block_num).headers.len() <= i < m.headers.len()
                ==> (#[trigger] m.headers[i]).number > block_num,
        forall|i: int|
            0 <= i < remove_blocks_above_spec(m, block_num).transactions.len() ==> (
            #[trigger] remove_blocks_above_spec(m, block_num).transactions[i]) == m.transactions[i]
                && m.transactions[i].block_number <= block_num,
        forall|i: int|
            remove_blocks_above_spec(m, block_num).transactions.len() <= i < m.transactions.len()
                ==> (#[trigger] m.transactions[i]).block_number > block_num,
        forall|i: int|
            0 <= i < remove_blocks_above_spec(m, block_num).receipts.len() ==> (
            #[trigger] remove_blocks_above_spec(m, block_num).receipts[i]) == m.receipts[i]
                && m.receipts[i].block_number <= block_num,
        forall|i: int|
            remove_blocks_above_spec(m, block_num).receipts.len() <= i < m.receipts.len()
                ==> (#[trigger] m.receipts[i]).block_number > block_num,
        forall|i: int|
            0 <= i < remove_blocks_above_spec(m, block_num).sidecars.len() ==> (
            #[trigger] remove_blocks_above_spec(m, block_num).sidecars[i]) == m.sidecars[i]
                && m.sidecars[i].block_number <= block_num,
        forall|i: int|
            remove_blocks_above_spec(m, block_num).sidecars.len() <= i < m.sidecars.len()
                ==> (#[trigger] m.sidecars[i]).block_number > block_num,
{
    lemma_model_numbers_nondecreasing(m);
    let hn = crate::static_files::header_numbers(m.headers);
    let tb = crate::static_files::tx_blocks(m.transactions);
    let rb = crate::static_files::receipt_blocks(m.receipts);
    let sb = crate::static_files::sidecar_model_blocks(m.sidecars);
    lemma_count_le_prefix(hn, block_num);
    lemma_count_le_prefix(tb, block_num);
    lemma_count_le_prefix(rb, block_num);
    lemma_count_le_prefix(sb, block_num);
    let r = remove_blocks_above_spec(m, block_num);
    assert forall|i: int| 0 <= i < r.headers.len() implies #[trigger] r.headers[i] == m.headers[i]
        && m.headers[i].number <= block_num by {
        assert(hn[i] <= block_num);
        assert(hn[i] == m.headers[i].number);
    }
    assert forall|i: int| r.headers.len() <= i < m.headers.len() implies (
    #[trigger] m.headers[i]).number > block_num by {
        assert(hn[i] > block_num);
    }
    assert forall|i: int| 0 <= i < r.transactions.len() implies #[trigger] r.transactions[i]
        == m.transactions[i] && m.transactions[i].block_number <= block_num by {
        assert(tb[i] <= block_num);
        assert(tb[i] == m.transactions[i].block_number);
    }
    assert forall|i: int| r.transactions.len() <= i < m.transactions.len() implies (
    #[trigger] m.transactions[i]).block_number > block_num by {
        assert(tb[i] > block_num);
    }
    assert forall|i: int| 0 <= i < r.receipts.len() implies #[trigger] r.receipts[i]
        == m.receipts[i] && m.receipts[i].block_number <= block_num by {
        assert(rb[i] <= block_num);
        assert(rb[i] == m.receipts[i].block_number);
    }
    assert forall|i: int| r.receipts.len() <= i < m.receipts.len() implies (
    #[trigger] m.receipts[i]).block_number > block_num by {
        assert(rb[i] > block_num);
    }
    assert forall|i: int| 0 <= i < r.sidecars.len() implies #[trigger] r.sidecars[i]
        == m.sidecars[i] && m.sidecars[i].block_number <= block_num by {
        assert(sb[i] <= block_num);
        assert(sb[i] == m.sidecars[i].block_number);
    }
    assert forall|i: int| r.sidecars.len() <= i < m.sidecars.len() implies (
    #[trigger] m.sidecars[i]).block_number > block_num by {
        assert(sb[i] > block_num);
    }
}

/// In a well-formed tier every per-segment block-number sequence is
/// nondecreasing.
pub proof fn lemma_model_numbers_nondecreasing(m: StoreModel)
    requires
        m.wf(),
    ensures
        nondecreasing(crate::static_files::header_numbers(m.headers)),
        nondecreasing(crate::static_files::tx_blocks(m.transactions)),
        nondecreasing(crate::static_files::receipt_blocks(m.receipts)),
        nondecreasing(crate::static_files::sidecar_model_blocks(m.sidecars)),
{
    let hn = crate::static_files::header_numbers(m.headers);
    assert forall|i: int, j: int| 0 <= i < j < hn.len() implies hn[i] <= hn[j] by {
        assert(m.headers[i].number == m.headers[0].number + i);
        assert(m.headers[j].number == m.headers[0].number + j);
    }
    let sn = crate::static_files::sidecar_model_blocks(m.sidecars);
    assert forall|i: int, j: int| 0 <= i < j < sn.len() implies sn[i] <= sn[j] by {
        assert(m.sidecars[i].block_number == m.headers[i].number);
        assert(m.sidecars[j].block_number == m.headers[j].number);
        assert(m.headers[i].number == m.headers[0].number + i);
        assert(m.headers[j].number == m.headers[0].number + j);
    }
}

/// Drops the trailing header rows above `block_num`.
fn truncate_headers(v: &mut Vec<HeaderRow>, block_num: u64)
    requires
        nondecreasing(crate::static_files::header_numbers(old(v)@)),
    ensures
        final(v)@ == old(v)@.subrange(
            0,
            count_le(crate::static_files::header_numbers(old(v)@), block_num),
        ),
{
    let ghost h0 = v@;
    let ghost nums = crate::static_files::header_numbers(h0);
    proof {
        assert(h0.subrange(0, h0.len() as int) =~= h0);
    }
    while v.len() > 0 && v[v.len() - 1].number > block_num
        invariant
            nums == crate::static_files::header_numbers(h0),
            nondecreasing(nums),
            v@.len() <= h0.len(),
            v@ == h0.subrange(0, v@.len() as int),
            forall|k: int| v@.len() <= k < h0.len() ==> nums[k] > block_num,
        decreases v@.len(),
    {
        let ghost len = v@.len() as int;
        let _ = v.pop();
        proof {
            assert(v@ =~= h0.subrange(0, len - 1));
        }
    }
    proof {
        let len = v@.len() as int;
        assert forall|k: int| 0 <= k < len implies nums[k] <= block_num by {
            assert(nums[k] <= nums[len - 1]);
            assert(nums[len - 1] == v@[len - 1].number);
        }
        lemma_count_le_boundary(nums, block_num, len);
        assert(v@ =~= h0.subrange(0, count_le(nums, block_num)));
    }
}

/// Drops the trailing transaction rows above `block_num`.
fn truncate_transactions(v: &mut Vec<TxRow>, block_num: u64)
    requires
        nondecreasing(crate::static_files::tx_blocks(old(v)@)),
    ensures
        final(v)@ == old(v)@.subrange(
            0,
            count_le(crate::static_files::tx_blocks(old(v)@), block_num),
        ),
{
    let ghost h0 = v@;
    let ghost nums = crate::static_files::tx_blocks(h0);
    proof {
        assert(h0.subrange(0, h0.len() as int) =~= h0);
    }
    while v.len() > 0 && v[v.len() - 1].block_number > block_num
        invariant
            nums == crate::static_files::tx_blocks(h0),
            nondecreasing(nums),
            v@.len() <= h0.len(),
            v@ == h0.subrange(0, v@.len() as int),
            forall|k: int| v@.len() <= k < h0.len() ==> nums[k] > block_num,
        decreases v@.len(),
    {
        let ghost len = v@.len() as int;
        let _ = v.pop();
        proof {
            assert(v@ =~= h0.subrange(0, len - 1));
        }
    }
    proof {
        let len = v@.len() as int;
        assert forall|k: int| 0 <= k < len implies nums[k] <= block_num by {
            assert(nums[k] <= nums[len - 1]);
            assert(nums[len - 1] == v@[len - 1].block_number);
        }
        lemma_count_le_boundary(nums, block_num, len);
        assert(v@ =~= h0.subrange(0, count_le(nums, block_num)));
    }
}

/// Drops the trailing receipt rows above `block_num`.
fn truncate_receipts(v: &mut Vec<ReceiptRow>, block_num: u64)
    requires
        nondecreasing(crate::static_files::receipt_blocks(old(v)@)),
    ensures
        final(v)@ == old(v)@.subrange(
            0,
            count_le(crate::static_files::receipt_blocks(old(v)@), block_num),
        ),
{
    let ghost h0 = v@;
    let ghost nums = crate::static_files::receipt_blocks(h0);
    proof {
        assert(h0.subrange(0, h0.len() as int) =~= h0);
    }
    while v.len() > 0 && v[v.len() - 1].block_number > block_num
        invariant
            nums == crate::static_files::receipt_blocks(h0),
            nondecreasing(nums),
            v@.len() <= h0.len(),
            v@ == h0.subrange(0, v@.len() as int),
            forall|k: int| v@.len() <= k < h0.len() ==> nums[k] > block_num,
        decreases v@.len(),
    {
        let ghost len = v@.len() as int;
        let _ = v.pop();
        proof {
            assert(v@ =~= h0.subrange(0, len - 1));
        }
    }
    proof {
        let len = v@.len() as int;
        assert forall|k: int| 0 <= k < len implies nums[k] <= block_num by {
            assert(nums[k] <= nums[len - 1]);
            assert(nums[len - 1] == v@[len - 1].block_number);
        }
        lemma_count_le_boundary(nums, block_num, len);
        assert(v@ =~= h0.subrange(0, count_le(nums, block_num)));
    }
}

/// Drops the trailing sidecar rows above `block_num`.
fn truncate_sidecars(v: &mut Vec<SidecarRow>, block_num: u64)
    requires
        nondecreasing(crate::static_files::sidecar_blocks(old(v)@)),
    ensures
        final(v)@ == old(v)@.subrange(
            0,
            count_le(crate::static_files::sidecar_blocks(old(v)@), block_num),
        ),
{
    let ghost h0 = v@;
    let ghost nums = crate::static_files::sidecar_blocks(h0);
    proof {
        assert(h0.subrange(0, h0.len() as int) =~= h0);
    }
    while v.len() > 0 && v[v.len() - 1].block_number > block_num
        invariant
            nums == crate::static_files::sidecar_blocks(h0),
            nondecreasing(nums),
            v@.len() <= h0.len(),
            v@ == h0.subrange(0, v@.len() as int),
            forall|k: int| v@.len() <= k < h0.len() ==> nums[k] > block_num,
        decreases v@.len(),
    {
        let ghost len = v@.len() as int;
        let _ = v.pop();
        proof {
            assert(v@ =~= h0.subrange(0, len - 1));
        }
    }
    proof {
        let len = v@.len() as int;
        assert forall|k: int| 0 <= k < len implies nums[k] <= block_num by {
            assert(nums[k] <= nums[len - 1]);
            assert(nums[len - 1] == v@[len - 1].block_number);
        }
        lemma_count_le_boundary(nums, block_num, len);
        assert(v@ =~= h0.subrange(0, count_le(nums, block_num)));
    }
}

/// Appending a receipt row above every existing transaction number and at or
/// above every existing block tag keeps the receipt file ordered.
pub proof fn lemma_receipts_push_wf(s: Seq<ReceiptRow>, r: ReceiptRow)
    requires
        strictly_increasing(crate::static_files::receipt_txs(s)),
        nondecreasing(crate::static_files::receipt_blocks(s)),
        forall|k: int| 0 <= k < s.len() ==> (#[trigger] s[k]).tx_number < r.tx_number,
        forall|k: int| 0 <= k < s.len() ==> (#[trigger] s[k]).block_number <= r.block_number,
    ensures
        strictly_increasing(crate::static_files::receipt_txs(s.push(r))),
        nondecreasing(crate::static_files::receipt_blocks(s.push(r))),
{
    let mt = crate::static_files::receipt_txs(s.push(r));
    let mb = crate::static_files::receipt_blocks(s.push(r));
    assert forall|a: int, b: int| 0 <= a < b < mt.len() implies mt[a] < mt[b] by {
        if b < s.len() {
            assert(crate::static_files::receipt_txs(s)[a] < crate::static_files::receipt_txs(s)[b]);
        } else {
            assert(mt[a] == s[a].tx_number);
            assert(mt[b] == r.tx_number);
        }
    }
    assert forall|a: int, b: int| 0 <= a < b < mb.len() implies mb[a] <= mb[b] by {
        if b < s.len() {
            assert(crate::static_files::receipt_blocks(s)[a] <= crate::static_files::receipt_blocks(
                s,
            )[b]);
        } else {
            assert(mb[a] == s[a].block_number);
            assert(mb[b] == r.block_number);
        }
    }
}

/// Total number of receipt slots over the executed blocks, pruned slots
/// included.
pub open spec fn receipts_len_sum(blocks: Seq<ExecutedBlockRecord>) -> int
    decreases blocks.len(),
{
    if blocks.len() == 0 {
        0
    } else {
        blocks[0].receipts@.len() + receipts_len_sum(blocks.drop_first())
    }
}

/// The receipt rows of one block: one row per present receipt, at the slot's
/// transaction number; pruned slots advance the numbering without a row.
pub open spec fn receipt_rows_spec(rs: Seq<Option<u64>>, base_tx: int, number: u64) -> Seq<
    ReceiptRow,
>
    decreases rs.len(),
{
    if rs.len() == 0 {
        Seq::empty()
    } else {
        let rest = receipt_rows_spec(rs.drop_first(), base_tx + 1, number);
        match rs[0] {
            Some(p) => seq![
                ReceiptRow { tx_number: base_tx as u64, block_number: number, payload: p },
            ] + rest,
            None => rest,
        }
    }
}

/// The receipt rows of a run of executed blocks, numbered from `base_tx`.
pub open spec fn exec_receipt_rows_spec(blocks: Seq<ExecutedBlockRecord>, base_tx: int) -> Seq<
    ReceiptRow,
>
    decreases blocks.len(),
{
    if blocks.len() == 0 {
        Seq::empty()
    } else {
        receipt_rows_spec(blocks[0].receipts@, base_tx, blocks[0].number) + exec_receipt_rows_spec(
            blocks.drop_first(),
            base_tx + blocks[0].receipts@.len(),
        )
    }
}

/// The transaction number the next receipt will be written at.
pub open spec fn next_receipt_tx_spec(m: StoreModel) -> int {
    if m.receipts.len() > 0 {
        m.receipts.last().tx_number + 1
    } else {
        0
    }
}

/// The tier after writing the receipts of a run of executed blocks.
pub open spec fn write_execution_data_spec(
    m: StoreModel,
    blocks: Seq<ExecutedBlockRecord>,
) -> StoreModel {
    StoreModel {
        receipts: m.receipts + exec_receipt_rows_spec(blocks, next_receipt_tx_spec(m)),
        ..m
    }
}

/// When the service accepts a `WriteExecutionData` action: the blocks are
/// consecutive and lie above every receipt already written, and the
/// numbering fits.
pub open spec fn write_execution_data_valid(
    m: StoreModel,
    blocks: Seq<ExecutedBlockRecord>,
) -> bool {
    &&& forall|i: int| 0 <= i < blocks.len() ==> #[trigger] blocks[i].number == blocks[0].number + i
    &&& (m.receipts.len() > 0 && blocks.len() > 0 ==> m.receipts.last().block_number
        < blocks[0].number)
    &&& next_receipt_tx_spec(m) + receipts_len_sum(blocks) <= u64::MAX
}

/// The slot count of a run of blocks is never negative.
pub proof fn lemma_receipts_len_sum_nonneg(blocks: Seq<ExecutedBlockRecord>)
    ensures
        receipts_len_sum(blocks) >= 0,
    decreases blocks.len(),
{
    if blocks.len() > 0 {
        lemma_receipts_len_sum_nonneg(blocks.drop_first());
    }
}

/// The slot count over a run extended by one block.
pub proof fn lemma_receipts_len_sum_snoc(blocks: Seq<ExecutedBlockRecord>, b: ExecutedBlockRecord)
    ensures
        receipts_len_sum(blocks.push(b)) == receipts_len_sum(blocks) + b.receipts@.len(),
    decreases blocks.len(),
{
    if blocks.len() == 0 {
        assert(blocks.push(b)[0] == b);
        assert(blocks.push(b).drop_first() =~= Seq::<ExecutedBlockRecord>::empty());
        assert(receipts_len_sum(Seq::<ExecutedBlockRecord>::empty()) == 0);
    } else {
        assert(blocks.push(b)[0] == blocks[0]);
        assert(blocks.push(b).drop_first() =~= blocks.drop_first().push(b));
        lemma_receipts_len_sum_snoc(blocks.drop_first(), b);
    }
}

/// The rows of a slot run extended by one slot: a row at the run's end if
/// the receipt is present, nothing otherwise.
pub proof fn lemma_receipt_rows_snoc(rs: Seq<Option<u64>>, o: Option<u64>, base_tx: int, number: u64)
    ensures
        receipt_rows_spec(rs.push(o), base_tx, number) == receipt_rows_spec(rs, base_tx, number)
            + (match o {
            Some(p) => seq![
                ReceiptRow {
                    tx_number: (base_tx + rs.len()) as u64,
                    block_number: number,
                    payload: p,
                },
            ],
            None => Seq::<ReceiptRow>::empty(),
        }),
    decreases rs.len(),
{
    let tail = match o {
        Some(p) => seq![
            ReceiptRow { tx_number: (base_tx + rs.len()) as u64, block_number: number, payload: p },
        ],
        None => Seq::<ReceiptRow>::empty(),
    };
    if rs.len() == 0 {
        assert(rs.push(o)[0] == o);
        assert(rs.push(o).drop_first() =~= Seq::<Option<u64>>::empty());
        assert(receipt_rows_spec(Seq::<Option<u64>>::empty(), base_tx + 1, number)
            =~= Seq::<ReceiptRow>::empty());
        assert(receipt_rows_spec(rs.push(o), base_tx, number) =~= tail);
        assert(receipt_rows_spec(rs, base_tx, number) + tail =~= tail);
    } else {
        assert(rs.push(o)[0] == rs[0]);
        assert(rs.push(o).drop_first() =~= rs.drop_first().push(o));
        lemma_receipt_rows_snoc(rs.drop_first(), o, base_tx + 1, number);
        let rest = receipt_rows_spec(rs.drop_first(), base_tx + 1, number);
        match rs[0] {
            Some(p) => {
                let head = seq![
                    ReceiptRow { tx_number: base_tx as u64, block_number: number, payload: p },
                ];
                assert(receipt_rows_spec(rs.push(o), base_tx, number) == head + (rest + tail));
                assert(head + (rest + tail) =~= (head + rest) + tail);
            }
            None => {}
        }
    }
}

/// The rows of a block run extended by one block.
pub proof fn lemma_exec_rows_snoc(
    blocks: Seq<ExecutedBlockRecord>,
    b: ExecutedBlockRecord,
    base_tx: int,
)
    ensures
        exec_receipt_rows_spec(blocks.push(b), base_tx) == exec_receipt_rows_spec(blocks, base_tx)
            + receipt_rows_spec(b.receipts@, base_tx + receipts_len_sum(blocks), b.number),
    decreases blocks.len(),
{
    if blocks.len() == 0 {
        assert(blocks.push(b)[0] == b);
        assert(blocks.push(b).drop_first() =~= Seq::<ExecutedBlockRecord>::empty());
        assert(exec_receipt_rows_spec(Seq::<ExecutedBlockRecord>::empty(), base_tx + b.receipts@.len())
            =~= Seq::<ReceiptRow>::empty());
        assert(exec_receipt_rows_spec(blocks.push(b), base_tx) =~= receipt_rows_spec(
            b.receipts@,
            base_tx,
            b.number,
        ));
        assert(exec_receipt_rows_spec(blocks, base_tx) + receipt_rows_spec(
            b.receipts@,
            base_tx,
            b.number,
        ) =~= receipt_rows_spec(b.receipts@, base_tx, b.number));
    } else {
        assert(blocks.push(b)[0] == blocks[0]);
        assert(blocks.push(b).drop_first() =~= blocks.drop_first().push(b));
        lemma_exec_rows_snoc(blocks.drop_first(), b, base_tx + blocks[0].receipts@.len());
        let head = receipt_rows_spec(blocks[0].receipts@, base_tx, blocks[0].number);
        let mid = exec_receipt_rows_spec(blocks.drop_first(), base_tx + blocks[0].receipts@.len());
        let tail = receipt_rows_spec(
            b.receipts@,
            base_tx + blocks[0].receipts@.len() + receipts_len_sum(blocks.drop_first()),
            b.number,
        );
        assert(exec_receipt_rows_spec(blocks.push(b), base_tx) == head + (mid + tail));
        assert(head + (mid + tail) =~= (head + mid) + tail);
    }
}

/// A fresh vector with the same payloads.
fn copy_payloads(v: &Vec<u64>) -> (r: Vec<u64>)
    ensures
        r@ == v@,
{
    let mut r: Vec<u64> = Vec::new();
    let mut i: usize = 0;
    while i < v.len()
        invariant
            i <= v@.len(),
            r@ == v@.subrange(0, i as int),
        decreases v@.len() - i,
    {
        r.push(v[i]);
        proof {
            assert(v@.subrange(0, i as int).push(v@[i as int]) =~= v@.subrange(0, i as int + 1));
        }
        i += 1;
    }
    proof {
        assert(v@.subrange(0, v@.len() as int) =~= v@);
    }
    r
}

/// Logging a valid block preserves well-formedness of the tier.
pub proof fn lemma_log_transactions_wf(
    m: StoreModel,
    block: SealedBlockRecord,
    start_tx: u64,
    td: u128,
)
    requires
        m.wf(),
        log_transactions_valid(m, block, start_tx),
    ensures
        log_transactions_spec(m, block, start_tx, td).wf(),
{
    let n = log_transactions_spec(m, block, start_tx, td);
    let rows = tx_rows_spec(block.number, block.body@, start_tx);
    // Header rows stay consecutive.
    assert forall|i: int| 0 <= i < n.headers.len() implies #[trigger] n.headers[i].number
        == n.headers[0].number + i by {
        if i < m.headers.len() {
            assert(n.headers[i] == m.headers[i]);
        }
    }
    // Sidecar rows stay aligned with header rows.
    assert forall|i: int| 0 <= i < n.sidecars.len() implies #[trigger] n.sidecars[i].block_number
        == n.headers[i].number by {
        if i < m.sidecars.len() {
            assert(n.sidecars[i] == m.sidecars[i]);
            assert(n.headers[i] == m.headers[i]);
        }
    }
    // Transaction numbering stays consecutive.
    assert forall|i: int| 0 <= i < n.transactions.len() implies (#[trigger] n.transactions[i]).tx_number
        == n.transactions[0].tx_number + i by {
        if m.transactions.len() > 0 {
            assert(m.transactions[0].tx_number == m.transactions.last().tx_number - (
            m.transactions.len() - 1));
            if i < m.transactions.len() {
                assert(n.transactions[i] == m.transactions[i]);
            } else {
                assert(n.transactions[i] == rows[i - m.transactions.len()]);
            }
            assert(n.transactions[0] == m.transactions[0]);
        } else {
            assert(n.transactions[i] == rows[i]);
            assert(n.transactions[0] == rows[0]);
        }
    }
    // Transaction block tags stay nondecreasing and below the tip header.
    let nb = crate::static_files::tx_blocks(n.transactions);
    assert forall|i: int, k: int| 0 <= i < k < nb.len() implies nb[i] <= nb[k] by {
        let mb = crate::static_files::tx_blocks(m.transactions);
        if k < m.transactions.len() {
            assert(mb[i] <= mb[k]);
            assert(nb[i] == mb[i] && nb[k] == mb[k]);
        } else if i < m.transactions.len() {
            assert(nb[i] == mb[i]);
            assert(mb[i] <= mb[mb.len() - 1]);
            assert(nb[k] == block.number);
        } else {
            assert(nb[i] == block.number && nb[k] == block.number);
        }
    }
    if n.transactions.len() > 0 {
        if block.body@.len() > 0 {
            assert(n.transactions.last() == rows[rows.len() - 1]);
        } else {
            assert(n.transactions =~= m.transactions);
            assert(m.transactions.last().block_number <= m.headers.last().number);
        }
    }
}

} // verus!
