use ledger_indexer::account::Account;
use ledger_indexer::block::Block;
use ledger_indexer::store::{
    tolerant_step, DbConnection, DbError, DbQuery, DbResponse, RetryDecision, RETRY_BACKOFF_MS,
};
use ledger_indexer::transaction::Transaction;

fn block(id: &str, slot: u64) -> Block {
    Block {
        id: id.to_string(),
        previous_blockhash: format!("prev-{id}"),
        slot,
        block_time: Some(1_700_000_000),
        block_height: Some(slot),
    }
}

#[test]
fn insert_block_then_get_by_id() {
    let mut db = DbConnection::new();
    let b = block("hash-a", 10);
    let r = db._query_no_retry(&DbQuery::InsertBlock(b.clone()));
    assert_eq!(r, Ok(DbResponse::Done));
    let got = db._query_no_retry(&DbQuery::GetBlock("hash-a".to_string()));
    assert_eq!(got, Ok(DbResponse::Block(b)));
}

#[test]
fn insert_block_then_get_by_slot() {
    let mut db = DbConnection::new();
    let b = block("hash-a", 10);
    db._query_no_retry(&DbQuery::InsertBlock(b.clone())).unwrap();
    let got = db._query_no_retry(&DbQuery::GetBlockBySlot(10));
    assert_eq!(got, Ok(DbResponse::Block(b)));
}

#[test]
fn overwrite_block_latest_wins() {
    // Inserting the same id twice with different content leaves only
    // the latest content retrievable, by id and by its changed slot.
    let mut db = DbConnection::new();
    let b1 = block("hash-a", 10);
    let mut b2 = block("hash-a", 11);
    b2.previous_blockhash = "other-prev".to_string();
    db._query_no_retry(&DbQuery::InsertBlock(b1)).unwrap();
    db._query_no_retry(&DbQuery::InsertBlock(b2.clone())).unwrap();
    let by_id = db._query_no_retry(&DbQuery::GetBlock("hash-a".to_string()));
    assert_eq!(by_id, Ok(DbResponse::Block(b2.clone())));
    let by_slot = db._query_no_retry(&DbQuery::GetBlockBySlot(11));
    assert_eq!(by_slot, Ok(DbResponse::Block(b2.clone())));
    // The old slot's index entry still resolves to the same id, and so
    // to the latest content (last write wins, no reorg detection).
    let by_old_slot = db._query_no_retry(&DbQuery::GetBlockBySlot(10));
    assert_eq!(by_old_slot, Ok(DbResponse::Block(b2)));
}

#[test]
fn get_block_missing_fails() {
    let mut db = DbConnection::new();
    let got = db._query_no_retry(&DbQuery::GetBlock("nope".to_string()));
    assert_eq!(got, Err(DbError::BlockNotFound));
}

#[test]
fn get_block_by_slot_missing_fails() {
    let mut db = DbConnection::new();
    db._query_no_retry(&DbQuery::InsertBlock(block("hash-a", 10))).unwrap();
    let got = db._query_no_retry(&DbQuery::GetBlockBySlot(99));
    assert_eq!(got, Err(DbError::SlotNotFound));
}

#[test]
fn slot_lookup_agrees_with_id_lookup() {
    // For every inserted block, the result by slot is id-equal to the
    // result by id.
    let mut db = DbConnection::new();
    for i in 0..5u64 {
        db._query_no_retry(&DbQuery::InsertBlock(block(&format!("h{i}"), i))).unwrap();
    }
    for i in 0..5u64 {
        let by_slot = db._query_no_retry(&DbQuery::GetBlockBySlot(i)).unwrap();
        let by_id = db._query_no_retry(&DbQuery::GetBlock(format!("h{i}"))).unwrap();
        assert_eq!(by_slot, by_id);
    }
}

#[test]
fn insert_transaction_then_get() {
    let mut db = DbConnection::new();
    let t = Transaction {
        id: "sig-0".to_string(),
        err: None,
        recent_blockhash: "hash-a".to_string(),
        signatures: vec!["sig-0".to_string(), "sig-1".to_string()],
        accounts: vec!["acct-a".to_string(), "acct-b".to_string()],
        balances: vec![5, 9],
        fees: 5000,
    };
    db._query_no_retry(&DbQuery::InsertTransaction(t.clone())).unwrap();
    let got = db._query_no_retry(&DbQuery::GetTransaction("sig-0".to_string()));
    assert_eq!(got, Ok(DbResponse::Transaction(t)));
}

#[test]
fn get_transaction_missing_fails() {
    let mut db = DbConnection::new();
    let got = db._query_no_retry(&DbQuery::GetTransaction("nope".to_string()));
    assert_eq!(got, Err(DbError::TransactionNotFound));
}

#[test]
fn insert_account_then_get() {
    let mut db = DbConnection::new();
    let a = Account::new("acct-a".to_string(), 42);
    db._query_no_retry(&DbQuery::InsertAccount(a.clone())).unwrap();
    let got = db._query_no_retry(&DbQuery::GetAccount("acct-a".to_string()));
    assert_eq!(got, Ok(DbResponse::Account(a)));
}

#[test]
fn overwrite_account_latest_balance_wins() {
    let mut db = DbConnection::new();
    db._query_no_retry(&DbQuery::InsertAccount(Account::new("acct-a".to_string(), 1))).unwrap();
    db._query_no_retry(&DbQuery::InsertAccount(Account::new("acct-a".to_string(), 2))).unwrap();
    let got = db._query_no_retry(&DbQuery::GetAccount("acct-a".to_string()));
    assert_eq!(got, Ok(DbResponse::Account(Account::new("acct-a".to_string(), 2))));
}

#[test]
fn empty_store_bounded_attempts_never_succeed() {
    // The tolerant read retries forever by contract; a bounded number
    // of attempts against a store that receives no write must all
    // fail, so the cap here stands in for a caller-imposed deadline.
    let mut db = DbConnection::new();
    let q = DbQuery::GetAccount("acct-a".to_string());
    for _ in 0..10 {
        let attempt = db._query_no_retry(&q);
        assert_eq!(attempt, Err(DbError::AccountNotFound));
        assert!(matches!(tolerant_step(attempt), RetryDecision::RetryAfterBackoff));
    }
}

#[test]
fn tolerant_read_succeeds_on_next_attempt_after_insert() {
    // A reader blocked on a block that does not exist yet succeeds on
    // the very next attempt once the block is inserted.
    let mut db = DbConnection::new();
    let q = DbQuery::GetBlock("hash-a".to_string());
    let first = db._query_no_retry(&q);
    assert_eq!(first, Err(DbError::BlockNotFound));
    assert!(matches!(tolerant_step(first), RetryDecision::RetryAfterBackoff));
    let b = block("hash-a", 10);
    db._query_no_retry(&DbQuery::InsertBlock(b.clone())).unwrap();
    let second = db._query_no_retry(&q);
    assert_eq!(second, Ok(DbResponse::Block(b.clone())));
    match tolerant_step(second) {
        RetryDecision::Done(resp) => assert_eq!(resp, DbResponse::Block(b)),
        RetryDecision::RetryAfterBackoff => panic!("read should have resolved"),
    }
}

#[test]
fn many_distinct_blocks_all_retrievable() {
    // No lost writes: N distinct inserts leave all N blocks readable.
    let mut db = DbConnection::new();
    for i in 0..50u64 {
        db._query_no_retry(&DbQuery::InsertBlock(block(&format!("h{i}"), i))).unwrap();
    }
    for i in 0..50u64 {
        let got = db._query_no_retry(&DbQuery::GetBlock(format!("h{i}")));
        assert_eq!(got, Ok(DbResponse::Block(block(&format!("h{i}"), i))));
    }
}

#[test]
fn from_response_extracts_entities() {
    let b = block("hash-a", 10);
    assert_eq!(Block::from_response(DbResponse::Block(b.clone())), b);
    let a = Account::new("acct-a".to_string(), 7);
    assert_eq!(Account::from_response(DbResponse::Account(a.clone())), a);
    let t = Transaction {
        id: "sig-0".to_string(),
        err: None,
        recent_blockhash: "hash-a".to_string(),
        signatures: vec!["sig-0".to_string()],
        accounts: vec![],
        balances: vec![],
        fees: 0,
    };
    assert_eq!(Transaction::from_response(DbResponse::Transaction(t.clone())), t);
}

#[test]
fn error_messages() {
    assert_eq!(DbError::BlockNotFound.message(), "Block not found");
    assert_eq!(DbError::SlotNotFound.message(), "Slot not found");
    assert_eq!(DbError::TransactionNotFound.message(), "Transaction not found");
    assert_eq!(DbError::AccountNotFound.message(), "Account not found");
    assert_eq!(DbError::_Other("oops".to_string()).message(), "Other error: oops");
}

#[test]
fn backoff_interval_is_fixed() {
    assert_eq!(RETRY_BACKOFF_MS, 100);
}
