use archive_pruner::jar::{StaticFileJarProvider, StaticFileProviderMetrics};
use archive_pruner::service::{
    DatabaseAction, ExecutedBlockRecord, SealedBlockRecord, StaticFileAction, StaticFileService,
};
use archive_pruner::static_files::{
    find_fixed_range, HeaderRow, ReceiptRow, StaticFileSegment, StaticFileStore, TxRow,
};

fn block(number: u64, hash: u64, body: Vec<u64>, sidecars: Option<Vec<u64>>) -> SealedBlockRecord {
    SealedBlockRecord { number, hash, body, sidecars }
}

#[test]
fn fixed_ranges_partition_the_chain() {
    let r = find_fixed_range(0);
    assert_eq!((r.start, r.end), (0, 499_999));
    let r = find_fixed_range(499_999);
    assert_eq!((r.start, r.end), (0, 499_999));
    let r = find_fixed_range(500_000);
    assert_eq!((r.start, r.end), (500_000, 999_999));
    let r = find_fixed_range(1_250_000);
    assert_eq!((r.start, r.end), (1_000_000, 1_499_999));
}

#[test]
fn log_transactions_appends_in_order() {
    let mut service = StaticFileService::new(StaticFileStore::new());
    let db_action = service.log_transactions(&block(1, 0xa1, vec![10, 11], Some(vec![7])), 0, 5);
    assert_eq!(db_action, DatabaseAction::UpdateTransactionMeta(1));
    let db_action = service.log_transactions(&block(2, 0xa2, vec![12], None), 2, 9);
    assert_eq!(db_action, DatabaseAction::UpdateTransactionMeta(2));

    let store = &service.store;
    assert_eq!(
        store.headers,
        vec![
            HeaderRow { number: 1, hash: 0xa1, total_difficulty: 5 },
            HeaderRow { number: 2, hash: 0xa2, total_difficulty: 9 },
        ]
    );
    assert_eq!(
        store.transactions,
        vec![
            TxRow { tx_number: 0, block_number: 1, payload: 10 },
            TxRow { tx_number: 1, block_number: 1, payload: 11 },
            TxRow { tx_number: 2, block_number: 2, payload: 12 },
        ]
    );
    assert_eq!(store.sidecars.len(), 2);
    assert_eq!(store.sidecars[0].blobs, vec![7]);
    assert_eq!(store.sidecars[1].blobs, Vec::<u64>::new());
    assert_eq!(store.get_highest_static_file_block(StaticFileSegment::Headers), Some(2));
    assert_eq!(store.get_highest_static_file_tx(StaticFileSegment::Transactions), Some(2));
}

#[test]
fn write_execution_data_skips_pruned_receipts() {
    let mut service = StaticFileService::new(StaticFileStore::new());
    let blocks = vec![
        ExecutedBlockRecord { number: 1, hash: 0xb1, receipts: vec![Some(100), None, Some(102)] },
        ExecutedBlockRecord { number: 2, hash: 0xb2, receipts: vec![Some(103)] },
    ];
    let db_action = service.write_execution_data(blocks.clone());
    assert_eq!(db_action, Some(DatabaseAction::SaveBlocks(blocks)));
    // Pruned slots advance the numbering without a row.
    assert_eq!(
        service.store.receipts,
        vec![
            ReceiptRow { tx_number: 0, block_number: 1, payload: 100 },
            ReceiptRow { tx_number: 2, block_number: 1, payload: 102 },
            ReceiptRow { tx_number: 3, block_number: 2, payload: 103 },
        ]
    );
    // An empty run does nothing and sends nothing.
    assert_eq!(service.write_execution_data(Vec::new()), None);
    assert_eq!(service.store.receipts.len(), 3);
}

#[test]
fn remove_blocks_above_keeps_the_boundary_block() {
    let mut service = StaticFileService::new(StaticFileStore::new());
    let _ = service.log_transactions(&block(1, 0xa1, vec![10], None), 0, 1);
    let _ = service.log_transactions(&block(2, 0xa2, vec![11, 12], None), 1, 2);
    let _ = service.log_transactions(&block(3, 0xa3, vec![13], None), 3, 3);
    let _ = service.write_execution_data(vec![
        ExecutedBlockRecord { number: 1, hash: 0xa1, receipts: vec![Some(20)] },
        ExecutedBlockRecord { number: 2, hash: 0xa2, receipts: vec![Some(21), Some(22)] },
        ExecutedBlockRecord { number: 3, hash: 0xa3, receipts: vec![Some(23)] },
    ]);

    service.remove_blocks_above(2);

    // Block 2 is retained; only block 3 data is gone.
    let store = &service.store;
    assert_eq!(store.headers.len(), 2);
    assert_eq!(store.headers[1].number, 2);
    assert_eq!(store.sidecars.len(), 2);
    assert_eq!(
        store.transactions,
        vec![
            TxRow { tx_number: 0, block_number: 1, payload: 10 },
            TxRow { tx_number: 1, block_number: 2, payload: 11 },
            TxRow { tx_number: 2, block_number: 2, payload: 12 },
        ]
    );
    assert_eq!(store.receipts.len(), 3);
    assert!(store.receipts.iter().all(|r| r.block_number <= 2));
}

#[test]
fn log_then_remove_restores_lengths() {
    // Round trip: appending a block and then removing above its
    // predecessor restores the headers, transactions, and sidecars.
    let mut service = StaticFileService::new(StaticFileStore::new());
    let _ = service.log_transactions(&block(1, 0xa1, vec![10], Some(vec![70])), 0, 1);
    let headers_before = service.store.headers.clone();
    let transactions_before = service.store.transactions.clone();
    let sidecars_len_before = service.store.sidecars.len();

    let _ = service.log_transactions(&block(2, 0xa2, vec![11, 12], Some(vec![71])), 1, 2);
    service.remove_blocks_above(1);

    assert_eq!(service.store.headers, headers_before);
    assert_eq!(service.store.transactions, transactions_before);
    assert_eq!(service.store.sidecars.len(), sidecars_len_before);
}

#[test]
fn process_action_dispatches_and_replies() {
    let mut service = StaticFileService::new(StaticFileStore::new());
    let r = service.process_action(StaticFileAction::LogTransactions(
        block(1, 0xa1, vec![10], None),
        0,
        1,
    ));
    assert_eq!(r, Some(DatabaseAction::UpdateTransactionMeta(1)));

    let executed = vec![ExecutedBlockRecord { number: 1, hash: 0xa1, receipts: vec![Some(5)] }];
    let r = service.process_action(StaticFileAction::WriteExecutionData(executed.clone()));
    assert_eq!(r, Some(DatabaseAction::SaveBlocks(executed)));

    let r = service.process_action(StaticFileAction::WriteExecutionData(Vec::new()));
    assert_eq!(r, None);

    let r = service.process_action(StaticFileAction::RemoveBlocksAbove(0));
    assert_eq!(r, None);
    assert!(service.store.headers.is_empty());
    assert!(service.store.transactions.is_empty());
    assert!(service.store.receipts.is_empty());
}

#[test]
fn process_actions_in_arrival_order() {
    let mut service = StaticFileService::new(StaticFileStore::new());
    let actions = vec![
        StaticFileAction::LogTransactions(block(1, 0xa1, vec![10], None), 0, 1),
        StaticFileAction::LogTransactions(block(2, 0xa2, vec![11], None), 1, 2),
        StaticFileAction::WriteExecutionData(vec![ExecutedBlockRecord {
            number: 1,
            hash: 0xa1,
            receipts: vec![Some(5)],
        }]),
    ];
    let replies = service.process_actions(actions);
    assert_eq!(
        replies,
        vec![
            Some(DatabaseAction::UpdateTransactionMeta(1)),
            Some(DatabaseAction::UpdateTransactionMeta(2)),
            Some(DatabaseAction::SaveBlocks(vec![ExecutedBlockRecord {
                number: 1,
                hash: 0xa1,
                receipts: vec![Some(5)],
            }])),
        ]
    );
    let header_numbers: Vec<u64> = service.store.headers.iter().map(|h| h.number).collect();
    assert_eq!(header_numbers, vec![1, 2]);
    let tx_numbers: Vec<u64> = service.store.transactions.iter().map(|t| t.tx_number).collect();
    assert_eq!(tx_numbers, vec![0, 1]);
    assert_eq!(service.store.receipts.len(), 1);
}

#[test]
fn jar_provider_lookups() {
    let headers = vec![
        HeaderRow { number: 5, hash: 0x55, total_difficulty: 50 },
        HeaderRow { number: 6, hash: 0x66, total_difficulty: 60 },
    ];
    let jar = StaticFileJarProvider::new(headers, Vec::new(), Vec::new(), Vec::new());
    assert_eq!(jar.header_by_number(6).unwrap().total_difficulty, 60);
    assert_eq!(jar.header_by_number(7), None);
    assert_eq!(jar.header_td_by_number(5), Some(50));
    assert_eq!(jar.block_hash(6), Some(0x66));
    assert_eq!(jar.block_hash(4), None);
}

#[test]
fn jar_receipt_by_hash_uses_auxiliary() {
    let transactions = vec![
        TxRow { tx_number: 0, block_number: 1, payload: 0xaa },
        TxRow { tx_number: 1, block_number: 1, payload: 0xbb },
    ];
    let receipts = vec![
        ReceiptRow { tx_number: 0, block_number: 1, payload: 900 },
        ReceiptRow { tx_number: 1, block_number: 1, payload: 901 },
    ];
    let tx_jar = StaticFileJarProvider::new(Vec::new(), transactions, Vec::new(), Vec::new());
    let receipt_jar = StaticFileJarProvider::new(Vec::new(), Vec::new(), receipts, Vec::new())
        .with_auxiliary(tx_jar)
        .with_metrics(StaticFileProviderMetrics { segment_operations: 0 });
    assert_eq!(receipt_jar.receipt_by_hash(0xbb).unwrap().payload, 901);
    assert_eq!(receipt_jar.receipt_by_hash(0xcc), None);
    assert_eq!(receipt_jar.transaction_by_id_no_hash(0), None);
    assert_eq!(receipt_jar.receipt(0).unwrap().payload, 900);
}
