//! Read-only provider over one loaded static-file segment, with an optional
//! auxiliary provider used for cross-segment lookups.

use vstd::prelude::*;

use crate::static_files::{HeaderRow, ReceiptRow, SidecarRow, TxRow};

verus! {

/// Handle under which a provider records its segment operations; the metric
/// sinks themselves live outside the verified core.
#[derive(Clone, Copy, Debug, PartialEq, Eq, Structural)]
pub struct StaticFileProviderMetrics {
    /// Number of operations recorded so far.
    pub segment_operations: u64,
}

/// The first header row at the given block number.
pub open spec fn find_header_spec(s: Seq<HeaderRow>, num: u64) -> Option<HeaderRow>
    decreases s.len(),
{
    if s.len() == 0 {
        None
    } else if s[0].number == num {
        Some(s[0])
    } else {
        find_header_spec(s.drop_first(), num)
    }
}

/// The first transaction row at the given transaction number.
pub open spec fn find_tx_spec(s: Seq<TxRow>, tx: u64) -> Option<TxRow>
    decreases s.len(),
{
    if s.len() == 0 {
        None
    } else if s[0].tx_number == tx {
        Some(s[0])
    } else {
        find_tx_spec(s.drop_first(), tx)
    }
}

/// The transaction number of the first transaction row whose payload is the
/// given value.
pub open spec fn find_tx_id_spec(s: Seq<TxRow>, payload: u64) -> Option<u64>
    decreases s.len(),
{
    if s.len() == 0 {
        None
    } else if s[0].payload == payload {
        Some(s[0].tx_number)
    } else {
        find_tx_id_spec(s.drop_first(), payload)
    }
}

/// The first receipt row at the given transaction number.
pub open spec fn find_receipt_spec(s: Seq<ReceiptRow>, tx: u64) -> Option<ReceiptRow>
    decreases s.len(),
{
    if s.len() == 0 {
        None
    } else if s[0].tx_number == tx {
        Some(s[0])
    } else {
        find_receipt_spec(s.drop_first(), tx)
    }
}

/// The first sidecar row at the given block number.
pub open spec fn find_sidecar_spec(s: Seq<SidecarRow>, num: u64) -> Option<SidecarRow>
    decreases s.len(),
{
    if s.len() == 0 {
        None
    } else if s[0].block_number == num {
        Some(s[0])
    } else {
        find_sidecar_spec(s.drop_first(), num)
    }
}

/// Provider over one loaded static-file segment and range.
#[derive(Debug)]
pub struct StaticFileJarProvider {
    /// Header rows served by this provider.
    pub headers: Vec<HeaderRow>,
    /// Transaction rows served by this provider.
    pub transactions: Vec<TxRow>,
    /// Receipt rows served by this provider.
    pub receipts: Vec<ReceiptRow>,
    /// Sidecar rows served by this provider.
    pub sidecars: Vec<SidecarRow>,
    /// Another provider used to help query data from the main one.
    pub auxiliary_jar: Option<Box<StaticFileJarProvider>>,
    /// The metrics handle, when metrics are enabled.
    pub metrics: Option<StaticFileProviderMetrics>,
}

impl StaticFileJarProvider {
    /// A provider over the given rows, without auxiliary data or metrics.
    pub fn new(
        headers: Vec<HeaderRow>,
        transactions: Vec<TxRow>,
        receipts: Vec<ReceiptRow>,
        sidecars: Vec<SidecarRow>,
    ) -> (r: StaticFileJarProvider)
        ensures
            r.headers == headers,
            r.transactions == transactions,
            r.receipts == receipts,
            r.sidecars == sidecars,
            r.auxiliary_jar is None,
            r.metrics is None,
    {
        StaticFileJarProvider {
            headers,
            transactions,
            receipts,
            sidecars,
            auxiliary_jar: None,
            metrics: None,
        }
    }

    /// Adds a new auxiliary static-file provider to help query data from
    /// the main one.
    pub fn with_auxiliary(self, auxiliary_jar: StaticFileJarProvider) -> (r: StaticFileJarProvider)
        ensures
            r.auxiliary_jar matches Some(b) && *b == auxiliary_jar,
            r.headers == self.headers,
            r.transactions == self.transactions,
            r.receipts == self.receipts,
            r.sidecars == self.sidecars,
            r.metrics == self.metrics,
    {
        StaticFileJarProvider { auxiliary_jar: Some(Box::new(auxiliary_jar)), ..self }
    }

    /// Enables metrics on the provider.
    pub fn with_metrics(self, metrics: StaticFileProviderMetrics) -> (r: StaticFileJarProvider)
        ensures
            r.metrics == Some(metrics),
            r.headers == self.headers,
            r.transactions == self.transactions,
            r.receipts == self.receipts,
            r.sidecars == self.sidecars,
            r.auxiliary_jar == self.auxiliary_jar,
    {
        StaticFileJarProvider { metrics: Some(metrics), ..self }
    }

    /// The header at the given block number, if this provider holds it.
    pub fn header_by_number(&self, num: u64) -> (r: Option<HeaderRow>)
        ensures
            r == find_header_spec(self.headers@, num),
    {
        let ghost full = self.headers@;
        let mut i: usize = 0;
        proof {
            assert(full.subrange(0, full.len() as int) =~= full);
        }
        while i < self.headers.len()
            invariant
                i <= full.len(),
                full == self.headers@,
                find_header_spec(full, num) == find_header_spec(
                    full.subrange(i as int, full.len() as int),
                    num,
                ),
            decreases full.len() - i,
        {
            proof {
                assert(full.subrange(i as int, full.len() as int)[0] == full[i as int]);
                assert(full.subrange(i as int, full.len() as int).drop_first() =~= full.subrange(
                    i as int + 1,
                    full.len() as int,
                ));
            }
            if self.headers[i].number == num {
                return Some(self.headers[i]);
            }
            i += 1;
        }
        proof {
            assert(full.subrange(full.len() as int, full.len() as int)
                =~= Seq::<HeaderRow>::empty());
        }
        None
    }

    /// The total difficulty stored with the header at the given block
    /// number.
    pub fn header_td_by_number(&self, num: u64) -> (r: Option<u128>)
        ensures
            r == (match find_header_spec(self.headers@, num) {
                Some(h) => Some(h.total_difficulty),
                None => None::<u128>,
            }),
    {
        match self.header_by_number(num) {
            Some(h) => Some(h.total_difficulty),
            None => None,
        }
    }

    /// The hash stored with the header at the given block number.
    pub fn block_hash(&self, number: u64) -> (r: Option<u64>)
        ensures
            r == (match find_header_spec(self.headers@, number) {
                Some(h) => Some(h.hash),
                None => None::<u64>,
            }),
    {
        match self.header_by_number(number) {
            Some(h) => Some(h.hash),
            None => None,
        }
    }

    /// The transaction row at the given transaction number.
    pub fn transaction_by_id_no_hash(&self, num: u64) -> (r: Option<TxRow>)
        ensures
            r == find_tx_spec(self.transactions@, num),
    {
        let ghost full = self.transactions@;
        let mut i: usize = 0;
        proof {
            assert(full.subrange(0, full.len() as int) =~= full);
        }
        while i < self.transactions.len()
            invariant
                i <= full.len(),
                full == self.transactions@,
                find_tx_spec(full, num) == find_tx_spec(
                    full.subrange(i as int, full.len() as int),
                    num,
                ),
            decreases full.len() - i,
        {
            proof {
                assert(full.subrange(i as int, full.len() as int)[0] == full[i as int]);
                assert(full.subrange(i as int, full.len() as int).drop_first() =~= full.subrange(
                    i as int + 1,
                    full.len() as int,
                ));
            }
            if self.transactions[i].tx_number == num {
                return Some(self.transactions[i]);
            }
            i += 1;
        }
        proof {
            assert(full.subrange(full.len() as int, full.len() as int) =~= Seq::<TxRow>::empty());
        }
        None
    }

    /// The transaction number of the transaction with the given payload
    /// identity.
    pub fn transaction_id(&self, payload: u64) -> (r: Option<u64>)
        ensures
            r == find_tx_id_spec(self.transactions@, payload),
    {
        let ghost full = self.transactions@;
        let mut i: usize = 0;
        proof {
            assert(full.subrange(0, full.len() as int) =~= full);
        }
        while i < self.transactions.len()
            invariant
                i <= full.len(),
                full == self.transactions@,
                find_tx_id_spec(full, payload) == find_tx_id_spec(
                    full.subrange(i as int, full.len() as int),
                    payload,
                ),
            decreases full.len() - i,
        {
            proof {
                assert(full.subrange(i as int, full.len() as int)[0] == full[i as int]);
                assert(full.subrange(i as int, full.len() as int).drop_first() =~= full.subrange(
                    i as int + 1,
                    full.len() as int,
                ));
            }
            if self.transactions[i].payload == payload {
                return Some(self.transactions[i].tx_number);
            }
            i += 1;
        }
        proof {
            assert(full.subrange(full.len() as int, full.len() as int) =~= Seq::<TxRow>::empty());
        }
        None
    }

    /// The receipt at the given transaction number.
    pub fn receipt(&self, num: u64) -> (r: Option<ReceiptRow>)
        ensures
            r == find_receipt_spec(self.receipts@, num),
    {
        let ghost full = self.receipts@;
        let mut i: usize = 0;
        proof {
            assert(full.subrange(0, full.len() as int) =~= full);
        }
        while i < self.receipts.len()
            invariant
                i <= full.len(),
                full == self.receipts@,
                find_receipt_spec(full, num) == find_receipt_spec(
                    full.subrange(i as int, full.len() as int),
                    num,
                ),
            decreases full.len() - i,
        {
            proof {
                assert(full.subrange(i as int, full.len() as int)[0] == full[i as int]);
                assert(full.subrange(i as int, full.len() as int).drop_first() =~= full.subrange(
                    i as int + 1,
                    full.len() as int,
                ));
            }
            if self.receipts[i].tx_number == num {
                return Some(self.receipts[i]);
            }
            i += 1;
        }
        proof {
            assert(full.subrange(full.len() as int, full.len() as int)
                =~= Seq::<ReceiptRow>::empty());
        }
        None
    }

    /// The receipt of the transaction with the given payload identity,
    /// looked up through the auxiliary transaction provider.
    pub fn receipt_by_hash(&self, payload: u64) -> (r: Option<ReceiptRow>)
        ensures
            r == (match self.auxiliary_jar {
                Some(aux) => match find_tx_id_spec(aux.transactions@, payload) {
                    Some(num) => find_receipt_spec(self.receipts@, num),
                    None => None::<ReceiptRow>,
                },
                None => None::<ReceiptRow>,
            }),
    {
        match &self.auxiliary_jar {
            Some(aux) => {
                match aux.transaction_id(payload) {
                    Some(num) => self.receipt(num),
                    None => None,
                }
            }
            None => None,
        }
    }

    /// The sidecars of the given block number.
    pub fn sidecars_by_number(&self, num: u64) -> (r: Option<SidecarRow>)
        ensures
            (r is Some) == (find_sidecar_spec(self.sidecars@, num) is Some),
            r matches Some(row) ==> (find_sidecar_spec(self.sidecars@, num) matches Some(orig)
                && row.block_number == orig.block_number && row.block_hash == orig.block_hash
                && row.blobs@ == orig.blobs@),
    {
        let ghost full = self.sidecars@;
        let mut i: usize = 0;
        proof {
            assert(full.subrange(0, full.len() as int) =~= full);
        }
        while i < self.sidecars.len()
            invariant
                i <= full.len(),
                full == self.sidecars@,
                find_sidecar_spec(full, num) == find_sidecar_spec(
                    full.subrange(i as int, full.len() as int),
                    num,
                ),
            decreases full.len() - i,
        {
            proof {
                assert(full.subrange(i as int, full.len() as int)[0] == full[i as int]);
                assert(full.subrange(i as int, full.len() as int).drop_first() =~= full.subrange(
                    i as int + 1,
                    full.len() as int,
                ));
            }
            if self.sidecars[i].block_number == num {
                let ghost j = i;
                let row = copy_sidecar(&self.sidecars, i);
                proof {
                    assert(find_sidecar_spec(full, num) == Some(full[j as int]));
                }
                return Some(row);
            }
            i += 1;
        }
        proof {
            assert(full.subrange(full.len() as int, full.len() as int)
                =~= Seq::<SidecarRow>::empty());
        }
        None
    }
}

/// A copy of the sidecar row at `i`.
fn copy_sidecar(v: &Vec<SidecarRow>, i: usize) -> (r: SidecarRow)
    requires
        i < v@.len(),
    ensures
        r.block_number == v@[i as int].block_number,
        r.block_hash == v@[i as int].block_hash,
        r.blobs@ == v@[i as int].blobs@,
{
    let row = &v[i];
    let mut blobs: Vec<u64> = Vec::new();
    let mut k: usize = 0;
    while k < row.blobs.len()
        invariant
            i < v@.len(),
            *row == v@[i as int],
            k <= row.blobs@.len(),
            blobs@ == row.blobs@.subrange(0, k as int),
        decreases row.blobs@.len() - k,
    {
        blobs.push(row.blobs[k]);
        proof {
            assert(row.blobs@.subrange(0, k as int).push(row.blobs@[k as int])
                =~= row.blobs@.subrange(0, k as int + 1));
        }
        k += 1;
    }
    proof {
        assert(row.blobs@.subrange(0, row.blobs@.len() as int) =~= row.blobs@);
    }
    SidecarRow { block_number: row.block_number, block_hash: row.block_hash, blobs }
}

} // verus!
