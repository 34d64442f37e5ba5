use ledger_indexer::api::ApiServerError;
use ledger_indexer::ingest::{
    classify_fetch_error, fetch_target_slot, handle_fetch_outcome, process_block, BlockData,
    FetchClass, FetchError, FetchOutcome, IndexerError, SlotAction, TransactionData,
    CONFIRMATION_LAG, FETCH_RETRY_DELAY_MS, RETRIES_PER_SLOT, SLOT_TIME_MS,
};
use ledger_indexer::store::{DbConnection, DbError, DbQuery, DbResponse};
use ledger_indexer::transaction::TransactionErrors;

fn tx_data(first_sig: &str, accounts: &[(&str, u64)]) -> TransactionData {
    TransactionData {
        signatures: vec![first_sig.to_string(), format!("{first_sig}-co")],
        err: None,
        recent_blockhash: "recent".to_string(),
        account_keys: accounts.iter().map(|(a, _)| a.to_string()).collect(),
        post_balances: accounts.iter().map(|(_, b)| *b).collect(),
        fee: 5000,
    }
}

fn block_data(hash: &str, parent_slot: u64, txs: Option<Vec<TransactionData>>) -> BlockData {
    BlockData {
        blockhash: hash.to_string(),
        previous_blockhash: format!("prev-{hash}"),
        parent_slot,
        block_time: Some(1_700_000_000),
        block_height: Some(parent_slot),
        transactions: txs,
    }
}

#[test]
fn classification_of_fetch_failures() {
    // The two skipped-slot response codes are permanent; every other
    // failure, including "not yet produced", is transient.
    assert_eq!(classify_fetch_error(&FetchError::Code(-32007)), FetchClass::Permanent);
    assert_eq!(classify_fetch_error(&FetchError::Code(-32009)), FetchClass::Permanent);
    assert_eq!(classify_fetch_error(&FetchError::Code(-32004)), FetchClass::Transient);
    assert_eq!(classify_fetch_error(&FetchError::Code(0)), FetchClass::Transient);
    assert_eq!(classify_fetch_error(&FetchError::Other), FetchClass::Transient);
}

#[test]
fn transient_failure_retries_same_slot_without_writing() {
    let mut db = DbConnection::new();
    let action = handle_fetch_outcome(&mut db, &FetchOutcome::Failed(FetchError::Code(-32004)));
    assert_eq!(action, SlotAction::RetryAfterDelay);
    let got = db._query_no_retry(&DbQuery::GetBlockBySlot(5));
    assert_eq!(got, Err(DbError::SlotNotFound));
}

#[test]
fn permanent_failure_advances_without_writing() {
    let mut db = DbConnection::new();
    let action = handle_fetch_outcome(&mut db, &FetchOutcome::Failed(FetchError::Code(-32007)));
    assert_eq!(action, SlotAction::Advance);
    let got = db._query_no_retry(&DbQuery::GetBlockBySlot(5));
    assert_eq!(got, Err(DbError::SlotNotFound));
}

#[test]
fn fetched_block_is_ingested_and_pipeline_advances() {
    let mut db = DbConnection::new();
    let data = block_data("hash-a", 42, Some(vec![tx_data("sig-0", &[("acct-a", 7)])]));
    let action = handle_fetch_outcome(&mut db, &FetchOutcome::Fetched(data));
    assert_eq!(action, SlotAction::Advance);
    let block = match db._query_no_retry(&DbQuery::GetBlockBySlot(42)) {
        Ok(DbResponse::Block(b)) => b,
        other => panic!("expected the ingested block, got {other:?}"),
    };
    assert_eq!(block.id, "hash-a");
    assert!(matches!(db._query_no_retry(&DbQuery::GetTransaction("sig-0".to_string())), Ok(_)));
    assert!(matches!(db._query_no_retry(&DbQuery::GetAccount("acct-a".to_string())), Ok(_)));
}

#[test]
fn extracted_block_fields() {
    let mut db = DbConnection::new();
    let data = block_data("hash-a", 42, None);
    assert_eq!(process_block(&mut db, &data), Ok(()));
    let block = match db._query_no_retry(&DbQuery::GetBlock("hash-a".to_string())) {
        Ok(DbResponse::Block(b)) => b,
        other => panic!("expected the ingested block, got {other:?}"),
    };
    assert_eq!(block.id, "hash-a");
    assert_eq!(block.previous_blockhash, "prev-hash-a");
    assert_eq!(block.slot, 42);
    assert_eq!(block.block_time, Some(1_700_000_000));
    assert_eq!(block.block_height, Some(42));
}

#[test]
fn extracted_transaction_fields() {
    let mut db = DbConnection::new();
    let mut td = tx_data("sig-0", &[("acct-a", 7), ("acct-b", 9)]);
    td.err = Some(TransactionErrors::AccountInUse);
    let data = block_data("hash-a", 42, Some(vec![td]));
    assert_eq!(process_block(&mut db, &data), Ok(()));
    let t = match db._query_no_retry(&DbQuery::GetTransaction("sig-0".to_string())) {
        Ok(DbResponse::Transaction(t)) => t,
        other => panic!("expected the ingested transaction, got {other:?}"),
    };
    assert_eq!(t.id, "sig-0");
    assert_eq!(t.err, Some(TransactionErrors::AccountInUse));
    assert_eq!(t.recent_blockhash, "recent");
    assert_eq!(t.signatures, vec!["sig-0".to_string(), "sig-0-co".to_string()]);
    assert_eq!(t.accounts, vec!["acct-a".to_string(), "acct-b".to_string()]);
    assert_eq!(t.balances, vec![7, 9]);
    assert_eq!(t.fees, 5000);
}

#[test]
fn derived_accounts_match_positions() {
    // Positional correspondence: each derived account carries the
    // post-balance at its position in the transaction's lists.
    let mut db = DbConnection::new();
    let data = block_data("hash-a", 42, Some(vec![tx_data("sig-0", &[("acct-a", 5), ("acct-b", 9)])]));
    assert_eq!(process_block(&mut db, &data), Ok(()));
    let a = db._query_no_retry(&DbQuery::GetAccount("acct-a".to_string()));
    assert!(matches!(a, Ok(DbResponse::Account(acct)) if acct.balance == 5));
    let b = db._query_no_retry(&DbQuery::GetAccount("acct-b".to_string()));
    assert!(matches!(b, Ok(DbResponse::Account(acct)) if acct.balance == 9));
}

#[test]
fn duplicate_account_in_transaction_last_position_wins() {
    let mut db = DbConnection::new();
    let data = block_data("hash-a", 42, Some(vec![tx_data("sig-0", &[("acct-a", 5), ("acct-a", 9)])]));
    assert_eq!(process_block(&mut db, &data), Ok(()));
    let a = db._query_no_retry(&DbQuery::GetAccount("acct-a".to_string()));
    assert!(matches!(a, Ok(DbResponse::Account(acct)) if acct.balance == 9));
}

#[test]
fn malformed_transaction_aborts_slot_keeping_partial_progress() {
    // A transaction without signatures is malformed: the slot's
    // processing stops there, but everything already written stays
    // visible, and the error names the malformed data.
    let mut db = DbConnection::new();
    let mut bad = tx_data("ignored", &[("acct-b", 9)]);
    bad.signatures = vec![];
    let data = block_data(
        "hash-a",
        42,
        Some(vec![tx_data("sig-0", &[("acct-a", 5)]), bad, tx_data("sig-2", &[("acct-c", 1)])]),
    );
    assert_eq!(process_block(&mut db, &data), Err(IndexerError::MalformedLedgerData));
    assert!(matches!(db._query_no_retry(&DbQuery::GetBlock("hash-a".to_string())), Ok(_)));
    assert!(matches!(db._query_no_retry(&DbQuery::GetTransaction("sig-0".to_string())), Ok(_)));
    assert!(matches!(db._query_no_retry(&DbQuery::GetAccount("acct-a".to_string())), Ok(_)));
    assert_eq!(
        db._query_no_retry(&DbQuery::GetTransaction("sig-2".to_string())),
        Err(DbError::TransactionNotFound)
    );
    assert_eq!(
        db._query_no_retry(&DbQuery::GetAccount("acct-c".to_string())),
        Err(DbError::AccountNotFound)
    );
}

#[test]
fn mismatched_account_and_balance_lists_are_malformed() {
    let mut db = DbConnection::new();
    let mut bad = tx_data("sig-0", &[("acct-a", 5)]);
    bad.post_balances = vec![];
    let data = block_data("hash-a", 42, Some(vec![bad]));
    assert_eq!(process_block(&mut db, &data), Err(IndexerError::MalformedLedgerData));
    assert_eq!(
        db._query_no_retry(&DbQuery::GetTransaction("sig-0".to_string())),
        Err(DbError::TransactionNotFound)
    );
}

#[test]
fn fetch_target_lags_behind_notified_slot() {
    assert_eq!(CONFIRMATION_LAG, 100);
    assert_eq!(fetch_target_slot(150), 50);
    assert_eq!(fetch_target_slot(100), 0);
}

#[test]
fn fetch_retry_delay_divides_slot_time() {
    assert_eq!(SLOT_TIME_MS, 400);
    assert_eq!(RETRIES_PER_SLOT, 3);
    assert_eq!(FETCH_RETRY_DELAY_MS, SLOT_TIME_MS / RETRIES_PER_SLOT);
}

#[test]
fn api_error_mapping_and_codes() {
    assert_eq!(ApiServerError::from(DbError::BlockNotFound), ApiServerError::InternalServerError);
    assert_eq!(
        ApiServerError::from(DbError::TransactionNotFound),
        ApiServerError::InternalServerError
    );
    assert_eq!(ApiServerError::from(DbError::AccountNotFound), ApiServerError::InternalServerError);
    assert_eq!(ApiServerError::from(DbError::SlotNotFound), ApiServerError::InternalServerError);
    assert_eq!(
        ApiServerError::from(DbError::_Other("x".to_string())),
        ApiServerError::BadRequest
    );
    assert_eq!(ApiServerError::BadRequest.status_code(), 400);
    assert_eq!(ApiServerError::InternalServerError.status_code(), 500);
    assert_eq!(ApiServerError::BadRequest.message(), "Bad Request");
    assert_eq!(ApiServerError::InternalServerError.message(), "Internal Server Error");
}
