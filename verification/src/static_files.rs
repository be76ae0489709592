//! Static-file segments, the fixed block ranges that partition them, and the
//! columnar rows of the append-only tier.

use vstd::prelude::*;

use crate::sorted::{nondecreasing, strictly_increasing};

verus! {

/// Number of blocks covered by one static-file partition.
pub const BLOCKS_PER_STATIC_FILE: u64 = 500_000;

/// The kind of data a static file stores.
#[derive(Clone, Copy, Debug, PartialEq, Eq, Structural)]
pub enum StaticFileSegment {
    /// Block headers, with total difficulty and block hash.
    Headers,
    /// Signed transactions.
    Transactions,
    /// Transaction receipts.
    Receipts,
    /// Blob sidecars.
    Sidecars,
}

/// An inclusive block range occupied by one static-file partition.
#[derive(Clone, Copy, Debug, PartialEq, Eq, Structural)]
pub struct SegmentRangeInclusive {
    /// First block of the partition.
    pub start: u64,
    /// Last block of the partition.
    pub end: u64,
}

/// The start of the fixed range that contains `block`.
pub open spec fn fixed_range_start(block: u64) -> u64 {
    ((block as int / BLOCKS_PER_STATIC_FILE as int) * BLOCKS_PER_STATIC_FILE as int) as u64
}

/// Returns the fixed, inclusive block range of the partition holding `block`.
///
/// Partition boundaries are a pure function of the block number alone.
pub fn find_fixed_range(block: u64) -> (r: SegmentRangeInclusive)
    requires
        block <= u64::MAX - BLOCKS_PER_STATIC_FILE,
    ensures
        r.start == fixed_range_start(block),
        r.end == r.start + BLOCKS_PER_STATIC_FILE - 1,
        r.start <= block <= r.end,
{
    proof {
        lemma_fixed_range_start(block);
    }
    let start = (block / BLOCKS_PER_STATIC_FILE) * BLOCKS_PER_STATIC_FILE;
    SegmentRangeInclusive { start, end: start + (BLOCKS_PER_STATIC_FILE - 1) }
}

/// One row of the Headers segment.
#[derive(Clone, Copy, Debug, PartialEq, Eq, Structural)]
pub struct HeaderRow {
    /// Block number.
    pub number: u64,
    /// Block hash, carried as its numeric identity.
    pub hash: u64,
    /// Total difficulty up to and including this block.
    pub total_difficulty: u128,
}

/// One row of the Transactions segment.
#[derive(Clone, Copy, Debug, PartialEq, Eq, Structural)]
pub struct TxRow {
    /// Transaction number, global across blocks.
    pub tx_number: u64,
    /// Block the transaction belongs to.
    pub block_number: u64,
    /// The transaction payload, carried as its numeric identity.
    pub payload: u64,
}

/// One row of the Receipts segment.
#[derive(Clone, Copy, Debug, PartialEq, Eq, Structural)]
pub struct ReceiptRow {
    /// Transaction number the receipt belongs to.
    pub tx_number: u64,
    /// Block the receipt belongs to.
    pub block_number: u64,
    /// The receipt payload, carried as its numeric identity.
    pub payload: u64,
}

/// One row of the Sidecars segment: the blob sidecars of one block.
#[derive(Clone, Debug, PartialEq, Eq)]
pub struct SidecarRow {
    /// Block number.
    pub block_number: u64,
    /// Block hash, carried as its numeric identity.
    pub block_hash: u64,
    /// The blob payloads, each carried as its numeric identity.
    pub blobs: Vec<u64>,
}

/// The block numbers of a sequence of header rows.
pub open spec fn header_numbers(s: Seq<HeaderRow>) -> Seq<u64> {
    s.map_values(|r: HeaderRow| r.number)
}

/// The block numbers of a sequence of transaction rows.
pub open spec fn tx_blocks(s: Seq<TxRow>) -> Seq<u64> {
    s.map_values(|r: TxRow| r.block_number)
}

/// The block numbers of a sequence of receipt rows.
pub open spec fn receipt_blocks(s: Seq<ReceiptRow>) -> Seq<u64> {
    s.map_values(|r: ReceiptRow| r.block_number)
}

/// The transaction numbers of a sequence of receipt rows.
pub open spec fn receipt_txs(s: Seq<ReceiptRow>) -> Seq<u64> {
    s.map_values(|r: ReceiptRow| r.tx_number)
}

/// The block numbers of a sequence of sidecar rows.
pub open spec fn sidecar_blocks(s: Seq<SidecarRow>) -> Seq<u64> {
    s.map_values(|r: SidecarRow| r.block_number)
}

/// The block numbers of a sequence of abstract sidecar records.
pub open spec fn sidecar_model_blocks(s: Seq<SidecarRecordModel>) -> Seq<u64> {
    s.map_values(|r: SidecarRecordModel| r.block_number)
}

/// The sidecar row of one block, abstracted for specification: the blob
/// payloads appear as a sequence.
pub struct SidecarRecordModel {
    /// Block number.
    pub block_number: u64,
    /// Block hash, carried as its numeric identity.
    pub block_hash: u64,
    /// The blob payloads.
    pub blobs: Seq<u64>,
}

/// The abstract state of the static-file tier: what each segment file
/// holds, and which sidecar partitions exist on disk.
pub struct StoreModel {
    /// Header rows, in file order.
    pub headers: Seq<HeaderRow>,
    /// Transaction rows, in file order.
    pub transactions: Seq<TxRow>,
    /// Receipt rows, in file order.
    pub receipts: Seq<ReceiptRow>,
    /// Sidecar rows, in file order.
    pub sidecars: Seq<SidecarRecordModel>,
    /// Start blocks of the sidecar partitions present on disk.
    pub sidecar_partitions: Seq<u64>,
}

impl StoreModel {
    /// Well-formedness of the tier.
    pub open spec fn wf(self) -> bool {
        // Header rows sit at consecutive block numbers.
        &&& forall|i: int|
            0 <= i < self.headers.len() ==> #[trigger] self.headers[i].number
                == self.headers[0].number + i
        // One sidecar row per header row, for the same block.
        &&& self.sidecars.len() == self.headers.len()
        &&& forall|i: int|
            0 <= i < self.sidecars.len() ==> #[trigger] self.sidecars[i].block_number
                == self.headers[i].number
        // Transaction rows sit at consecutive transaction numbers, tagged
        // with nondecreasing block numbers that never exceed the tip header.
        &&& forall|i: int|
            0 <= i < self.transactions.len() ==> #[trigger] self.transactions[i].tx_number
                == self.transactions[0].tx_number + i
        &&& nondecreasing(tx_blocks(self.transactions))
        &&& self.transactions.len() > 0 ==> self.headers.len() > 0
            && self.transactions.last().block_number <= self.headers.last().number
            && self.headers[0].number <= self.transactions[0].block_number
        // Receipt rows sit at increasing transaction numbers, tagged with
        // nondecreasing block numbers.
        &&& strictly_increasing(receipt_txs(self.receipts))
        &&& nondecreasing(receipt_blocks(self.receipts))
        // Partition starts are increasing and partition-aligned.
        &&& strictly_increasing(self.sidecar_partitions)
        &&& forall|i: int|
            0 <= i < self.sidecar_partitions.len() ==> #[trigger] (self.sidecar_partitions[i]
                % BLOCKS_PER_STATIC_FILE) == 0
    }
}

/// The append-only static-file tier: the rows of each segment, plus the
/// sidecar partitions still present on disk.
#[derive(Clone, Debug, PartialEq, Eq)]
pub struct StaticFileStore {
    /// Header rows, one per block, at consecutive block numbers.
    pub headers: Vec<HeaderRow>,
    /// Transaction rows, at consecutive transaction numbers.
    pub transactions: Vec<TxRow>,
    /// Receipt rows, at increasing transaction numbers; pruned receipts leave
    /// gaps in the numbering.
    pub receipts: Vec<ReceiptRow>,
    /// Sidecar rows, one per block, aligned with the header rows.
    pub sidecars: Vec<SidecarRow>,
    /// Start blocks of the sidecar partitions present on disk, ascending.
    pub sidecar_partitions: Vec<u64>,
}

impl View for StaticFileStore {
    type V = StoreModel;

    open spec fn view(&self) -> StoreModel {
        StoreModel {
            headers: self.headers@,
            transactions: self.transactions@,
            receipts: self.receipts@,
            sidecars: self.sidecars@.map_values(
                |r: SidecarRow|
                    SidecarRecordModel {
                        block_number: r.block_number,
                        block_hash: r.block_hash,
                        blobs: r.blobs@,
                    },
            ),
            sidecar_partitions: self.sidecar_partitions@,
        }
    }
}

impl StaticFileStore {
    /// Well-formedness of the tier.
    pub open spec fn wf(self) -> bool {
        self@.wf()
    }

    /// An empty tier.
    pub fn new() -> (r: StaticFileStore)
        ensures
            r.wf(),
            r.headers@.len() == 0,
            r.transactions@.len() == 0,
            r.receipts@.len() == 0,
            r.sidecars@.len() == 0,
            r.sidecar_partitions@.len() == 0,
    {
        StaticFileStore {
            headers: Vec::new(),
            transactions: Vec::new(),
            receipts: Vec::new(),
            sidecars: Vec::new(),
            sidecar_partitions: Vec::new(),
        }
    }

    /// The highest block present in the given segment, if any.
    pub fn get_highest_static_file_block(&self, segment: StaticFileSegment) -> (r: Option<u64>)
        ensures
            r == self.spec_highest_block(segment),
    {
        match segment {
            StaticFileSegment::Headers => {
                if self.headers.len() > 0 {
                    Some(self.headers[self.headers.len() - 1].number)
                } else {
                    None
                }
            }
            StaticFileSegment::Transactions => {
                if self.transactions.len() > 0 {
                    Some(self.transactions[self.transactions.len() - 1].block_number)
                } else {
                    None
                }
            }
            StaticFileSegment::Receipts => {
                if self.receipts.len() > 0 {
                    Some(self.receipts[self.receipts.len() - 1].block_number)
                } else {
                    None
                }
            }
            StaticFileSegment::Sidecars => {
                if self.sidecars.len() > 0 {
                    Some(self.sidecars[self.sidecars.len() - 1].block_number)
                } else {
                    None
                }
            }
        }
    }

    /// The highest block present in the given segment.
    pub open spec fn spec_highest_block(self, segment: StaticFileSegment) -> Option<u64> {
        match segment {
            StaticFileSegment::Headers => if self.headers@.len() > 0 {
                Some(self.headers@.last().number)
            } else {
                None
            },
            StaticFileSegment::Transactions => if self.transactions@.len() > 0 {
                Some(self.transactions@.last().block_number)
            } else {
                None
            },
            StaticFileSegment::Receipts => if self.receipts@.len() > 0 {
                Some(self.receipts@.last().block_number)
            } else {
                None
            },
            StaticFileSegment::Sidecars => if self.sidecars@.len() > 0 {
                Some(self.sidecars@.last().block_number)
            } else {
                None
            },
        }
    }

    /// The highest transaction number present in the given transaction-based
    /// segment, if any.
    pub fn get_highest_static_file_tx(&self, segment: StaticFileSegment) -> (r: Option<u64>)
        ensures
            r == self.spec_highest_tx(segment),
    {
        match segment {
            StaticFileSegment::Transactions => {
                if self.transactions.len() > 0 {
                    Some(self.transactions[self.transactions.len() - 1].tx_number)
                } else {
                    None
                }
            }
            StaticFileSegment::Receipts => {
                if self.receipts.len() > 0 {
                    Some(self.receipts[self.receipts.len() - 1].tx_number)
                } else {
                    None
                }
            }
            StaticFileSegment::Headers | StaticFileSegment::Sidecars => None,
        }
    }

    /// The highest transaction number present in the given segment.
    pub open spec fn spec_highest_tx(self, segment: StaticFileSegment) -> Option<u64> {
        match segment {
            StaticFileSegment::Transactions => if self.transactions@.len() > 0 {
                Some(self.transactions@.last().tx_number)
            } else {
                None
            },
            StaticFileSegment::Receipts => if self.receipts@.len() > 0 {
                Some(self.receipts@.last().tx_number)
            } else {
                None
            },
            StaticFileSegment::Headers | StaticFileSegment::Sidecars => None,
        }
    }
}

/// The start of a block's fixed range lies at most one partition width below it.
pub proof fn lemma_fixed_range_start(block: u64)
    ensures
        fixed_range_start(block) <= block,
        block < fixed_range_start(block) + BLOCKS_PER_STATIC_FILE,
        fixed_range_start(block) % BLOCKS_PER_STATIC_FILE == 0,
{
    let b = block as int;
    let w = BLOCKS_PER_STATIC_FILE as int;
    assert((b / w) * w <= b && b < (b / w) * w + w && ((b / w) * w) % w == 0)
        by (nonlinear_arith)
        requires
            b >= 0,
            w == BLOCKS_PER_STATIC_FILE as int,
    ;
}

} // verus!
