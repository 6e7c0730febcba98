use nerdbank_zcash::block_cache::{BlockCache, CompactBlock};
use nerdbank_zcash::error::{from_backend, BackendError, Error, RpcCode};
use nerdbank_zcash::fees::{
    calculate_transaction_fee, initialize_transaction_fees, FeeUpdate, OutPoint, PendingTx,
    TxValues, Utxo,
};
use nerdbank_zcash::materialize::{
    address_source, classify_note, get_transactions, select_transactions, AddressSource,
    ChainNetwork, NoteKind, ShieldedPool, TxRow,
};
use nerdbank_zcash::retry::{
    backoff_delay_ms, failure_error, is_transient, Failure, RetryDecision, RetryState,
};
use nerdbank_zcash::transparent::{
    pull_start_height, received_outputs, ReceivedUtxo, TransparentTx, TransparentTxOut,
};

fn txid(b: u8) -> [u8; 32] {
    [b; 32]
}

fn utxo(t: u8, idx: u32, value: i64) -> Utxo {
    Utxo { prevout_txid: txid(t), prevout_idx: idx, value_zat: value }
}

fn values(inputs: Vec<OutPoint>, outputs: Vec<i64>) -> TxValues {
    TxValues { inputs, outputs, sprout_balance: 0, sapling_balance: 0, orchard_balance: 0 }
}

#[test]
fn fee_is_inputs_minus_outputs_plus_pool_balances() {
    let utxos = vec![utxo(1, 0, 5), utxo(1, 1, 7)];
    let mut tx = values(
        vec![OutPoint { txid: txid(1), index: 0 }, OutPoint { txid: txid(1), index: 1 }],
        vec![10],
    );
    assert_eq!(calculate_transaction_fee(&tx, &utxos), Ok(2));
    tx.sapling_balance = 1_000;
    tx.orchard_balance = -500;
    tx.sprout_balance = 3;
    assert_eq!(calculate_transaction_fee(&tx, &utxos), Ok(505));
}

#[test]
fn fee_with_missing_prevout_and_bad_amount() {
    let utxos = vec![utxo(1, 0, 5)];
    let tx = values(vec![OutPoint { txid: txid(1), index: 3 }], vec![]);
    assert_eq!(calculate_transaction_fee(&tx, &utxos), Err(Error::OutPointMissing));
    let big = values(vec![], vec![2_100_000_000_000_001]);
    assert_eq!(calculate_transaction_fee(&big, &utxos), Err(Error::InvalidAmount));
}

#[test]
fn fee_backfill_with_missing_prevout() {
    let utxos = vec![utxo(1, 0, 50), utxo(2, 0, 30)];
    let pending = vec![
        PendingTx { txid: txid(7), values: values(vec![OutPoint { txid: txid(1), index: 0 }], vec![40]) },
        PendingTx { txid: txid(8), values: values(vec![OutPoint { txid: txid(9), index: 0 }], vec![1]) },
        PendingTx { txid: txid(9), values: values(vec![OutPoint { txid: txid(2), index: 0 }], vec![29]) },
    ];
    assert_eq!(
        initialize_transaction_fees(&pending, &utxos),
        Ok(vec![FeeUpdate { txid: txid(7), fee: 10 }, FeeUpdate { txid: txid(9), fee: 1 }])
    );
}

fn row(txid_byte: u8, to: Option<u32>, from: Option<u32>, memo: Option<Vec<u8>>) -> TxRow {
    TxRow {
        account_id: 1,
        txid: vec![txid_byte; 32],
        output_pool: 2,
        from_account: from,
        to_account: to,
        to_address: Some("zs1recipient".to_string()),
        diversifier: None,
        value: 1_000,
        memo,
        mined_height: Some(100_010),
        expired_unmined: None,
        block_time: Some(1_700_000_000),
        fee_paid: Some(10),
        account_balance_delta: -1_010,
    }
}

#[test]
fn notes_are_classified() {
    assert_eq!(classify_note(1, Some(1), Some(1), &[0xF6]), NoteKind::Change);
    assert_eq!(classify_note(1, Some(1), Some(1), b"hello"), NoteKind::Incoming);
    assert_eq!(classify_note(1, Some(1), Some(1), &[]), NoteKind::Incoming);
    assert_eq!(classify_note(1, Some(1), Some(2), &[0xF6]), NoteKind::Outgoing);
    assert_eq!(classify_note(1, None, None, &[0xFF, 1, 2]), NoteKind::Change);
    assert_eq!(classify_note(1, Some(2), Some(1), &[0xF6]), NoteKind::Incoming);
}

#[test]
fn rows_of_one_transaction_are_merged_in_order() {
    let rows = vec![
        row(1, Some(2), Some(1), Some(b"thanks".to_vec())),
        row(1, Some(1), Some(1), Some(vec![0xF6])),
        row(2, Some(1), Some(3), None),
    ];
    let txs = get_transactions(rows, &vec![], ChainNetwork::Main).unwrap();
    assert_eq!(txs.len(), 2);
    assert_eq!(txs[0].outgoing.len(), 1);
    assert_eq!(txs[0].outgoing[0].memo, Some(b"thanks".to_vec()));
    assert_eq!(txs[0].change.len(), 1);
    assert!(txs[0].incoming.is_empty());
    assert_eq!(txs[1].incoming.len(), 1);
    assert_eq!(txs[1].incoming[0].memo, None);
    assert_eq!(txs[1].incoming[0].recipient, Some("zs1recipient".to_string()));
    assert_eq!(txs[1].fee, Some(10));
    assert!(!txs[1].expired_unmined);
}

#[test]
fn block_time_must_be_a_valid_timestamp() {
    let mut ok = row(1, Some(1), Some(3), None);
    ok.block_time = Some(253_402_300_799);
    assert!(get_transactions(vec![ok], &vec![], ChainNetwork::Main).is_ok());
    let mut bad = row(1, Some(1), Some(3), None);
    bad.block_time = Some(253_402_300_800);
    assert!(matches!(get_transactions(vec![bad], &vec![], ChainNetwork::Main), Err(Error::Wallet(_))));
}

#[test]
fn address_regeneration_is_decided_by_pool() {
    let mut r = row(1, Some(1), Some(3), None);
    assert_eq!(address_source(&r), AddressSource::Stored);
    r.to_address = None;
    assert_eq!(address_source(&r), AddressSource::Absent);
    r.diversifier = Some(vec![4; 11]);
    assert_eq!(
        address_source(&r),
        AddressSource::Regenerate { pool: ShieldedPool::Sapling, diversifier: vec![4; 11] }
    );
    r.output_pool = 3;
    assert_eq!(
        address_source(&r),
        AddressSource::Regenerate { pool: ShieldedPool::Orchard, diversifier: vec![4; 11] }
    );
    r.output_pool = 0;
    assert_eq!(address_source(&r), AddressSource::Absent);
}

fn block(height: u32, tag: u8) -> CompactBlock {
    CompactBlock { height, hash: vec![tag], prev_hash: vec![], data: vec![tag, tag] }
}

#[test]
fn block_cache_overwrites_removes_and_truncates() {
    let mut c = BlockCache::new();
    assert!(c.is_empty());
    c.insert_range(vec![block(10, 1), block(11, 1), block(12, 1)]);
    c.insert_range(vec![block(11, 2)]);
    assert_eq!(c.get(11).unwrap().hash, vec![2]);
    assert_eq!(c.get(13), Err(Error::BlockMissing(13)));
    c.remove_range(10, 11);
    assert_eq!(c.get(10), Err(Error::BlockMissing(10)));
    assert_eq!(c.get(12).unwrap().hash, vec![1]);
    c.truncate_to_height(11);
    assert_eq!(c.get(11), Err(Error::BlockMissing(11)));
    assert!(c.is_empty());
}

#[test]
fn retry_classifies_and_backs_off() {
    assert!(is_transient(Failure::Transport));
    assert!(is_transient(Failure::Status(RpcCode::Unavailable)));
    assert!(is_transient(Failure::Status(RpcCode::ResourceExhausted)));
    assert!(!is_transient(Failure::Status(RpcCode::Unauthenticated)));
    assert!(!is_transient(Failure::Other));
    assert_eq!(backoff_delay_ms(1, 0), 1_000);
    assert_eq!(backoff_delay_ms(3, 250), 4_250);
    assert_eq!(backoff_delay_ms(6, 0), 32_000);
    assert_eq!(backoff_delay_ms(7, 0), 60_000);
    assert_eq!(backoff_delay_ms(6, 40_000), 60_000);
    let mut s = RetryState::new();
    assert_eq!(
        s.on_failure(Failure::Transport, false, 0),
        RetryDecision::Sleep { delay_ms: 1_000, failures: 1 }
    );
    assert_eq!(
        s.on_failure(Failure::Status(RpcCode::DeadlineExceeded), false, 0),
        RetryDecision::Sleep { delay_ms: 2_000, failures: 2 }
    );
    assert_eq!(s.on_failure(Failure::Transport, true, 0), RetryDecision::Cancelled);
    assert_eq!(s.on_failure(Failure::Other, false, 0), RetryDecision::Surface);
    assert!(!s.may_attempt(true));
    assert_eq!(
        failure_error(Failure::Status(RpcCode::NotFound), "gone".to_string()),
        Error::RpcStatus { code: RpcCode::NotFound, message: "gone".to_string() }
    );
}

#[test]
fn transparent_history_records_every_output() {
    assert_eq!(pull_start_height(None, 100_000), 100_000);
    assert_eq!(pull_start_height(Some(100_020), 100_000), 100_020);
    let outs = vec![
        TransparentTxOut { value_zat: 5, has_recipient: true },
        TransparentTxOut { value_zat: 7, has_recipient: true },
    ];
    let txs = vec![
        TransparentTx { txid: txid(1), height: 100_010, outputs: outs.clone() },
        TransparentTx { txid: txid(2), height: 100_040, outputs: outs },
    ];
    let r = received_outputs(&txs);
    assert_eq!(r.utxos.len(), 4);
    assert_eq!(r.utxos[3], ReceivedUtxo { txid: txid(2), index: 1, value_zat: 7, height: 100_040 });
    assert_eq!(r.txids, vec![txid(1), txid(1), txid(2), txid(2)]);
    let skip = vec![TransparentTx {
        txid: txid(3),
        height: 5,
        outputs: vec![TransparentTxOut { value_zat: 1, has_recipient: false }],
    }];
    assert!(received_outputs(&skip).utxos.is_empty());
}

#[test]
fn backend_errors_are_flattened() {
    assert_eq!(
        from_backend(BackendError::DataSource("disk full".to_string())),
        Error::Internal("DataSource: disk full".to_string())
    );
    assert_eq!(
        from_backend(BackendError::AccountNotFound("7".to_string())),
        Error::Internal("AccountNotFound: 7".to_string())
    );
    assert_eq!(
        from_backend(BackendError::KeyNotRecognized),
        Error::Internal("KeyNotRecognized".to_string())
    );
    assert_eq!(
        from_backend(BackendError::InsufficientFunds { available: 3, required: 9 }),
        Error::InsufficientFunds { required: 9, available: 3 }
    );
    assert_eq!(from_backend(BackendError::ScanRequired), Error::SyncFirst);
    assert_eq!(from_backend(BackendError::AddressNotRecognized), Error::InvalidAddress);
}

#[test]
fn only_newly_seen_transactions_are_selected() {
    let rows = vec![
        row(1, Some(1), Some(3), None),
        row(2, Some(1), Some(3), None),
        row(3, Some(1), Some(3), None),
    ];
    let txs = get_transactions(rows, &vec![], ChainNetwork::Main).unwrap();
    let picked = select_transactions(txs, &vec![txid(3), txid(1), txid(9)]);
    assert_eq!(picked.len(), 2);
    assert_eq!(picked[0].txid, vec![1u8; 32]);
    assert_eq!(picked[1].txid, vec![3u8; 32]);
}

#[test]
fn invalid_account_id_is_rejected_before_later_rows() {
    let mut bad_account = row(1, Some(1), Some(3), None);
    bad_account.account_id = 0x8000_0000;
    let mut bad_time = row(2, Some(1), Some(3), None);
    bad_time.block_time = Some(i64::MAX);
    assert_eq!(
        get_transactions(vec![bad_account.clone(), bad_time.clone()], &vec![], ChainNetwork::Main),
        Err(Error::InvalidArgument("Invalid account ID".to_string()))
    );
    assert!(matches!(
        get_transactions(vec![bad_time, bad_account], &vec![], ChainNetwork::Main),
        Err(Error::Wallet(_))
    ));
    let mut top = row(3, Some(1), Some(3), None);
    top.account_id = 0x7FFF_FFFF;
    assert!(get_transactions(vec![top], &vec![], ChainNetwork::Main).is_ok());
}

#[test]
fn sapling_rebuild_needs_the_accounts_key() {
    let mut r = row(1, Some(1), Some(3), None);
    r.to_address = None;
    r.diversifier = Some(vec![0; 11]);
    let txs = get_transactions(vec![r], &vec![], ChainNetwork::Main).unwrap();
    assert_eq!(txs[0].incoming[0].recipient, None);
}
