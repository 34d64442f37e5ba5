use vstd::prelude::*;
use crate::account::{Account, AccountView};
use crate::block::{Block, BlockView};
use crate::store::{
    get_block_by_slot_spec, get_block_spec, get_transaction_spec, insert_account_spec,
    insert_block_spec, insert_transaction_spec, store_wf, DbConnection, DbError, DbQuery,
    StoreView,
};
use crate::transaction::{
    clone_string_vec, clone_u64_vec, wf_transaction, Transaction, TransactionErrors,
    TransactionView,
};

verus! {

/// Errors of the ingestion pipeline. Subscription and fetch transport
/// failures are fatal only to pipeline startup; malformed feed data is
/// fatal to one slot's processing, after which the pipeline moves on
/// to the next notification.
#[derive(Clone, Copy, Debug, PartialEq, Eq, Structural)]
pub enum IndexerError {
    WebsocketClientError,
    ClientError,
    MalformedLedgerData,
}

/// The expected slot production cadence of the ledger.
pub const SLOT_TIME_MS: u64 = 400;

/// How many fetch attempts to spread over one slot time while a
/// slot's content has not arrived yet.
pub const RETRIES_PER_SLOT: u64 = 3;

/// How long the pipeline waits before fetching the same slot again
/// after a transient failure.
pub const FETCH_RETRY_DELAY_MS: u64 = SLOT_TIME_MS / RETRIES_PER_SLOT;

/// How far behind the notified tip the pipeline fetches, so that it
/// only requests content likely already finalized.
pub const CONFIRMATION_LAG: u64 = 100;

/// Feed response code: the source reports the slot was skipped.
pub const SLOT_SKIPPED_CODE: i64 = -32007;

/// Feed response code: the source reports the slot was skipped or is
/// missing from long-term storage.
pub const SLOT_UNAVAILABLE_CODE: i64 = -32009;

/// The slot whose content is fetched for a notification of the slot
/// `notified`: a fixed confirmation-lag buffer behind the tip.
pub fn fetch_target_slot(notified: u64) -> (t: u64)
    requires
        notified >= CONFIRMATION_LAG,
    ensures
        t == notified - CONFIRMATION_LAG,
{
    notified - CONFIRMATION_LAG
}

/// A fetch failure as the feed reports it: a coded response from the
/// source, or any other transport failure.
#[derive(Clone, Copy, Debug, PartialEq, Eq, Structural)]
pub enum FetchError {
    Code(i64),
    Other,
}

/// Permanent: the slot will never produce data, skip it. Transient:
/// data may still arrive, retry it.
#[derive(Clone, Copy, Debug, PartialEq, Eq, Structural)]
pub enum FetchClass {
    Permanent,
    Transient,
}

/// A fetch failure is permanent exactly when the feed answered with
/// one of the two skipped-slot response codes; everything else,
/// including "not yet produced", is transient.
pub open spec fn classify_spec(e: FetchError) -> FetchClass {
    match e {
        FetchError::Code(code) => if code == SLOT_SKIPPED_CODE || code == SLOT_UNAVAILABLE_CODE {
            FetchClass::Permanent
        } else {
            FetchClass::Transient
        },
        FetchError::Other => FetchClass::Transient,
    }
}

/// Classifies one fetch failure at the pipeline boundary.
pub fn classify_fetch_error(e: &FetchError) -> (c: FetchClass)
    ensures
        c == classify_spec(*e),
{
    match e {
        FetchError::Code(code) => {
            if *code == SLOT_SKIPPED_CODE || *code == SLOT_UNAVAILABLE_CODE {
                FetchClass::Permanent
            } else {
                FetchClass::Transient
            }
        },
        FetchError::Other => FetchClass::Transient,
    }
}

/// The raw per-transaction content of a fetched slot, as plain values:
/// exactly what extraction reads of the feed's transaction encoding.
#[derive(Debug)]
pub struct TransactionData {
    pub signatures: Vec<String>,
    pub err: Option<TransactionErrors>,
    pub recent_blockhash: String,
    pub account_keys: Vec<String>,
    pub post_balances: Vec<u64>,
    pub fee: u64,
}

/// The mathematical value of raw transaction data.
pub struct TransactionDataView {
    pub signatures: Seq<Seq<char>>,
    pub err: Option<TransactionErrors>,
    pub recent_blockhash: Seq<char>,
    pub account_keys: Seq<Seq<char>>,
    pub post_balances: Seq<u64>,
    pub fee: u64,
}

impl View for TransactionData {
    type V = TransactionDataView;

    open spec fn view(&self) -> TransactionDataView {
        TransactionDataView {
            signatures: self.signatures.deep_view(),
            err: self.err,
            recent_blockhash: self.recent_blockhash@,
            account_keys: self.account_keys.deep_view(),
            post_balances: self.post_balances@,
            fee: self.fee,
        }
    }
}

/// The values of a sequence of raw transactions.
pub open spec fn tx_data_views(s: Seq<TransactionData>) -> Seq<TransactionDataView> {
    s.map_values(|t: TransactionData| t@)
}

/// The raw content of one fetched slot, as plain values.
#[derive(Debug)]
pub struct BlockData {
    pub blockhash: String,
    pub previous_blockhash: String,
    pub parent_slot: u64,
    pub block_time: Option<i64>,
    pub block_height: Option<u64>,
    pub transactions: Option<Vec<TransactionData>>,
}

/// The mathematical value of a raw fetched slot.
pub struct BlockDataView {
    pub blockhash: Seq<char>,
    pub previous_blockhash: Seq<char>,
    pub parent_slot: u64,
    pub block_time: Option<i64>,
    pub block_height: Option<u64>,
    pub transactions: Option<Seq<TransactionDataView>>,
}

impl View for BlockData {
    type V = BlockDataView;

    open spec fn view(&self) -> BlockDataView {
        BlockDataView {
            blockhash: self.blockhash@,
            previous_blockhash: self.previous_blockhash@,
            parent_slot: self.parent_slot,
            block_time: self.block_time,
            block_height: self.block_height,
            transactions: match self.transactions {
                Some(ts) => Some(tx_data_views(ts@)),
                None => None,
            },
        }
    }
}

/// The normalized block a raw slot denotes. Its slot number is the
/// parent slot the feed reports for the fetched content.
pub open spec fn block_of_data(d: BlockDataView) -> BlockView {
    BlockView {
        id: d.blockhash,
        previous_blockhash: d.previous_blockhash,
        slot: d.parent_slot,
        block_time: d.block_time,
        block_height: d.block_height,
    }
}

/// Raw transaction data is well formed when it carries at least one
/// signature (the first is the transaction's identifier) and its
/// account and balance lists correspond positionally.
pub open spec fn wf_transaction_data(d: TransactionDataView) -> bool {
    d.signatures.len() > 0 && d.account_keys.len() == d.post_balances.len()
}

/// The normalized transaction well-formed raw data denotes.
pub open spec fn transaction_of_data(d: TransactionDataView) -> TransactionView {
    TransactionView {
        id: d.signatures[0],
        err: d.err,
        recent_blockhash: d.recent_blockhash,
        signatures: d.signatures,
        accounts: d.account_keys,
        balances: d.post_balances,
        fees: d.fee,
    }
}

/// The account derived from position `i` of a transaction's parallel
/// account/balance lists.
pub open spec fn derived_account(t: TransactionView, i: int) -> AccountView {
    AccountView { id: t.accounts[i], balance: t.balances[i] }
}

/// Positional correspondence: a well-formed transaction has a
/// post-balance for every account, and the account derived at any
/// position carries exactly the account id and the balance found
/// there.
pub proof fn lemma_positional_correspondence(t: TransactionView, i: int)
    requires
        wf_transaction(t),
        0 <= i < t.accounts.len(),
    ensures
        t.accounts.len() == t.balances.len(),
        derived_account(t, i).id == t.accounts[i],
        derived_account(t, i).balance == t.balances[i],
{
}

/// The store after inserting the accounts derived from positions
/// `i..` of transaction `t`, in positional order.
pub open spec fn insert_derived_accounts_spec(v: StoreView, t: TransactionView, i: int) -> StoreView
    decreases t.accounts.len() - i,
{
    if i < 0 || i >= t.accounts.len() {
        v
    } else {
        insert_derived_accounts_spec(insert_account_spec(v, derived_account(t, i)), t, i + 1)
    }
}

/// The store after ingesting one well-formed raw transaction: the
/// transaction itself, then each derived account.
pub open spec fn ingest_transaction_spec(v: StoreView, d: TransactionDataView) -> StoreView {
    insert_derived_accounts_spec(
        insert_transaction_spec(v, transaction_of_data(d)),
        transaction_of_data(d),
        0,
    )
}

/// The store after processing transactions `i..` of a fetched slot:
/// well-formed transactions are ingested in order; the first malformed
/// one stops the slot's processing, keeping the partial progress.
pub open spec fn ingest_transactions_spec(
    v: StoreView,
    txs: Seq<TransactionDataView>,
    i: int,
) -> StoreView
    decreases txs.len() - i,
{
    if i < 0 || i >= txs.len() {
        v
    } else if !wf_transaction_data(txs[i]) {
        v
    } else {
        ingest_transactions_spec(ingest_transaction_spec(v, txs[i]), txs, i + 1)
    }
}

/// The transactions a raw slot carries, if any.
pub open spec fn txs_of(d: BlockDataView) -> Seq<TransactionDataView> {
    match d.transactions {
        Some(ts) => ts,
        None => Seq::empty(),
    }
}

pub open spec fn all_txs_wf(txs: Seq<TransactionDataView>) -> bool {
    forall|i: int| 0 <= i < txs.len() ==> wf_transaction_data(#[trigger] txs[i])
}

/// The store after ingesting one fetched slot: the normalized block,
/// then its transactions.
pub open spec fn ingest_block_data_spec(v: StoreView, d: BlockDataView) -> StoreView {
    ingest_transactions_spec(insert_block_spec(v, block_of_data(d)), txs_of(d), 0)
}

/// Decodes a raw slot into the normalized `Block`.
pub fn extract_block(data: &BlockData) -> (b: Block)
    ensures
        b@ == block_of_data(data@),
{
    Block {
        id: data.blockhash.clone(),
        previous_blockhash: data.previous_blockhash.clone(),
        slot: data.parent_slot,
        block_time: data.block_time,
        block_height: data.block_height,
    }
}

/// Checks raw transaction data for well-formedness.
pub fn transaction_data_wf(d: &TransactionData) -> (r: bool)
    ensures
        r == wf_transaction_data(d@),
{
    d.signatures.len() > 0 && d.account_keys.len() == d.post_balances.len()
}

/// Decodes well-formed raw transaction data into the normalized
/// `Transaction`, identified by its first signature.
pub fn extract_transaction(d: &TransactionData) -> (t: Transaction)
    requires
        wf_transaction_data(d@),
    ensures
        t@ == transaction_of_data(d@),
{
    Transaction {
        id: d.signatures[0].clone(),
        err: d.err,
        recent_blockhash: d.recent_blockhash.clone(),
        signatures: clone_string_vec(&d.signatures),
        accounts: clone_string_vec(&d.account_keys),
        balances: clone_u64_vec(&d.post_balances),
        fees: d.fee,
    }
}

/// Inserts the accounts derived from positions `i..` of `t` into the
/// store, one insert per account.
fn insert_derived_accounts(store: &mut DbConnection, t: &Transaction, i: usize)
    requires
        wf_transaction(t@),
        i <= t@.accounts.len(),
    ensures
        final(store)@ == insert_derived_accounts_spec(old(store)@, t@, i as int),
    decreases t@.accounts.len() - i,
{
    proof {
        assert(t@.accounts.len() == t.accounts@.len());
        assert(t@.balances.len() == t.balances@.len());
    }
    if i < t.accounts.len() {
        let account = Account::new(t.accounts[i].clone(), t.balances[i]);
        let _ = store._query_no_retry(&DbQuery::InsertAccount(account));
        insert_derived_accounts(store, t, i + 1);
    }
}

/// Ingests transactions `i..` of a fetched slot, one insert per
/// entity, stopping at the first malformed transaction.
fn ingest_transactions_from(store: &mut DbConnection, txs: &Vec<TransactionData>, i: usize) -> (r:
    Result<(), IndexerError>)
    requires
        i <= txs@.len(),
    ensures
        final(store)@ == ingest_transactions_spec(old(store)@, tx_data_views(txs@), i as int),
        (r is Ok <==> forall|j: int|
            i <= j < txs@.len() ==> wf_transaction_data(#[trigger] tx_data_views(txs@)[j])),
        (r is Err ==> r == Err::<(), IndexerError>(IndexerError::MalformedLedgerData)),
    decreases txs@.len() - i,
{
    if i == txs.len() {
        return Ok(());
    }
    proof {
        assert(tx_data_views(txs@)[i as int] == txs@[i as int]@);
    }
    if !transaction_data_wf(&txs[i]) {
        return Err(IndexerError::MalformedLedgerData);
    }
    let t = extract_transaction(&txs[i]);
    let _ = store._query_no_retry(&DbQuery::InsertTransaction(t.clone()));
    insert_derived_accounts(store, &t, 0);
    ingest_transactions_from(store, txs, i + 1)
}

/// Processes one fetched slot: the normalized block is inserted, then
/// each contained transaction followed by its derived accounts, in
/// order. A malformed transaction aborts this slot's processing,
/// keeping the partial progress already written.
pub fn process_block(store: &mut DbConnection, data: &BlockData) -> (r: Result<(), IndexerError>)
    ensures
        final(store)@ == ingest_block_data_spec(old(store)@, data@),
        (r is Ok <==> all_txs_wf(txs_of(data@))),
        (r is Err ==> r == Err::<(), IndexerError>(IndexerError::MalformedLedgerData)),
{
    let block = extract_block(data);
    let _ = store._query_no_retry(&DbQuery::InsertBlock(block));
    match &data.transactions {
        Some(txs) => ingest_transactions_from(store, txs, 0),
        None => {
            proof {
                assert(txs_of(data@) =~= Seq::<TransactionDataView>::empty());
            }
            Ok(())
        },
    }
}

proof fn lemma_insert_derived_accounts_preserves_wf(v: StoreView, t: TransactionView, i: int)
    requires
        store_wf(v),
    ensures
        store_wf(insert_derived_accounts_spec(v, t, i)),
    decreases t.accounts.len() - i,
{
    if 0 <= i < t.accounts.len() {
        lemma_insert_derived_accounts_preserves_wf(
            insert_account_spec(v, derived_account(t, i)),
            t,
            i + 1,
        );
    }
}

proof fn lemma_ingest_transactions_preserves_wf(
    v: StoreView,
    txs: Seq<TransactionDataView>,
    i: int,
)
    requires
        store_wf(v),
    ensures
        store_wf(ingest_transactions_spec(v, txs, i)),
    decreases txs.len() - i,
{
    if 0 <= i < txs.len() && wf_transaction_data(txs[i]) {
        let t = transaction_of_data(txs[i]);
        let v1 = insert_transaction_spec(v, t);
        assert forall|id: Seq<char>| #[trigger] v1.transactions.contains_key(id) implies
            wf_transaction(v1.transactions[id]) by {
            if id != t.id {
                assert(v.transactions.contains_key(id));
            }
        }
        lemma_insert_derived_accounts_preserves_wf(v1, t, 0);
        lemma_ingest_transactions_preserves_wf(ingest_transaction_spec(v, txs[i]), txs, i + 1);
    }
}

/// Every transaction that ingesting a slot writes is well formed, so
/// positional correspondence holds of every store the pipeline built.
pub proof fn lemma_ingest_preserves_wf(v: StoreView, d: BlockDataView)
    requires
        store_wf(v),
    ensures
        store_wf(ingest_block_data_spec(v, d)),
{
    lemma_ingest_transactions_preserves_wf(insert_block_spec(v, block_of_data(d)), txs_of(d), 0);
}

/// Any transaction read back from a well-formed store has account and
/// balance lists of equal length.
pub proof fn lemma_stored_transaction_wf(v: StoreView, id: Seq<char>)
    requires
        store_wf(v),
    ensures
        get_transaction_spec(v, id) matches Ok(t) ==> t.accounts.len() == t.balances.len(),
{
}

proof fn lemma_insert_derived_accounts_preserve_blocks(v: StoreView, t: TransactionView, i: int)
    ensures
        insert_derived_accounts_spec(v, t, i).blocks == v.blocks,
        insert_derived_accounts_spec(v, t, i).slot_index == v.slot_index,
    decreases t.accounts.len() - i,
{
    if 0 <= i < t.accounts.len() {
        lemma_insert_derived_accounts_preserve_blocks(
            insert_account_spec(v, derived_account(t, i)),
            t,
            i + 1,
        );
    }
}

proof fn lemma_ingest_transactions_preserve_blocks(
    v: StoreView,
    txs: Seq<TransactionDataView>,
    i: int,
)
    ensures
        ingest_transactions_spec(v, txs, i).blocks == v.blocks,
        ingest_transactions_spec(v, txs, i).slot_index == v.slot_index,
    decreases txs.len() - i,
{
    if 0 <= i < txs.len() && wf_transaction_data(txs[i]) {
        let t = transaction_of_data(txs[i]);
        lemma_insert_derived_accounts_preserve_blocks(insert_transaction_spec(v, t), t, 0);
        lemma_ingest_transactions_preserve_blocks(ingest_transaction_spec(v, txs[i]), txs, i + 1);
    }
}

/// Ingestion makes its slot readable: right after a fetched slot is
/// processed, the normalized block is retrievable both by its id and
/// by its slot number, whatever the store held before.
pub proof fn lemma_ingested_block_retrievable(v: StoreView, d: BlockDataView)
    ensures
        get_block_spec(ingest_block_data_spec(v, d), d.blockhash) == Ok::<BlockView, DbError>(
            block_of_data(d),
        ),
        get_block_by_slot_spec(ingest_block_data_spec(v, d), d.parent_slot) == Ok::<
            BlockView,
            DbError,
        >(block_of_data(d)),
{
    lemma_ingest_transactions_preserve_blocks(
        insert_block_spec(v, block_of_data(d)),
        txs_of(d),
        0,
    );
}

/// What the pipeline received when it fetched one slot.
#[derive(Debug)]
pub enum FetchOutcome {
    Fetched(BlockData),
    Failed(FetchError),
}

/// What the pipeline does next for the current slot.
#[derive(Clone, Copy, Debug, PartialEq, Eq, Structural)]
pub enum SlotAction {
    Advance,
    RetryAfterDelay,
}

/// The per-slot decision step of the pipeline. Fetched content is
/// ingested and the pipeline advances to the next notification
/// (malformed feed data is fatal only to this slot); a permanently
/// unavailable slot is abandoned without writing anything; any other
/// failure schedules another fetch of the same slot, also without
/// writing.
pub fn handle_fetch_outcome(store: &mut DbConnection, outcome: &FetchOutcome) -> (a: SlotAction)
    ensures
        (outcome matches FetchOutcome::Fetched(d) ==> a == SlotAction::Advance && final(store)@
            == ingest_block_data_spec(old(store)@, d@)),
        (outcome matches FetchOutcome::Failed(e) ==> final(store)@ == old(store)@ && a == (
        if classify_spec(*e) == FetchClass::Permanent {
            SlotAction::Advance
        } else {
            SlotAction::RetryAfterDelay
        })),
{
    match outcome {
        FetchOutcome::Fetched(data) => {
            let _ = process_block(store, data);
            SlotAction::Advance
        },
        FetchOutcome::Failed(e) => match classify_fetch_error(e) {
            FetchClass::Permanent => SlotAction::Advance,
            FetchClass::Transient => SlotAction::RetryAfterDelay,
        },
    }
}

} // verus!
