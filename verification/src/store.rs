use vstd::prelude::*;
use vstd::map::*;
use vstd::pervasive::unreached;
use vstd::string::StringExecFns;
use crate::account::{Account, AccountView};
use crate::block::{Block, BlockView};
use crate::transaction::{Transaction, TransactionView, wf_transaction};

verus! {

/// How long a tolerant read waits between two attempts.
pub const RETRY_BACKOFF_MS: u64 = 100;

/// One request against the store.
#[derive(Debug, Clone)]
pub enum DbQuery {
    InsertBlock(Block),
    GetBlock(String),
    GetBlockBySlot(u64),
    InsertTransaction(Transaction),
    GetTransaction(String),
    InsertAccount(Account),
    GetAccount(String),
}

/// The successful outcome of a query. Lookups hand back copies, never
/// references into store-internal state.
#[derive(Debug)]
pub enum DbResponse {
    Done,
    Block(Block),
    Transaction(Transaction),
    Account(Account),
}

/// A failed query: the requested key is absent from the store.
#[derive(Debug, Clone)]
pub enum DbError {
    BlockNotFound,
    SlotNotFound,
    TransactionNotFound,
    AccountNotFound,
    _Other(String),
}

impl PartialEq for DbResponse {
    fn eq(&self, other: &Self) -> (r: bool) {
        match (self, other) {
            (DbResponse::Done, DbResponse::Done) => true,
            (DbResponse::Block(a), DbResponse::Block(b)) => *a == *b,
            (DbResponse::Transaction(a), DbResponse::Transaction(b)) => *a == *b,
            (DbResponse::Account(a), DbResponse::Account(b)) => *a == *b,
            _ => false,
        }
    }
}

impl vstd::std_specs::cmp::PartialEqSpecImpl for DbResponse {
    open spec fn obeys_eq_spec() -> bool {
        true
    }

    open spec fn eq_spec(&self, other: &Self) -> bool {
        match (self, other) {
            (DbResponse::Done, DbResponse::Done) => true,
            (DbResponse::Block(a), DbResponse::Block(b)) => a@ == b@,
            (DbResponse::Transaction(a), DbResponse::Transaction(b)) => a@ == b@,
            (DbResponse::Account(a), DbResponse::Account(b)) => a@ == b@,
            _ => false,
        }
    }
}

impl PartialEq for DbError {
    fn eq(&self, other: &Self) -> (r: bool) {
        match (self, other) {
            (DbError::BlockNotFound, DbError::BlockNotFound) => true,
            (DbError::SlotNotFound, DbError::SlotNotFound) => true,
            (DbError::TransactionNotFound, DbError::TransactionNotFound) => true,
            (DbError::AccountNotFound, DbError::AccountNotFound) => true,
            (DbError::_Other(a), DbError::_Other(b)) => *a == *b,
            _ => false,
        }
    }
}

impl vstd::std_specs::cmp::PartialEqSpecImpl for DbError {
    open spec fn obeys_eq_spec() -> bool {
        true
    }

    open spec fn eq_spec(&self, other: &Self) -> bool {
        match (self, other) {
            (DbError::BlockNotFound, DbError::BlockNotFound) => true,
            (DbError::SlotNotFound, DbError::SlotNotFound) => true,
            (DbError::TransactionNotFound, DbError::TransactionNotFound) => true,
            (DbError::AccountNotFound, DbError::AccountNotFound) => true,
            (DbError::_Other(a), DbError::_Other(b)) => a@ == b@,
            _ => false,
        }
    }
}

impl DbError {
    /// The human-readable description of this error.
    pub open spec fn message_spec(&self) -> Seq<char> {
        match *self {
            DbError::BlockNotFound => "Block not found"@,
            DbError::SlotNotFound => "Slot not found"@,
            DbError::TransactionNotFound => "Transaction not found"@,
            DbError::AccountNotFound => "Account not found"@,
            DbError::_Other(s) => "Other error: "@ + s@,
        }
    }

    pub fn message(&self) -> (m: String)
        ensures
            m@ == self.message_spec(),
    {
        match self {
            DbError::BlockNotFound => String::from_str("Block not found"),
            DbError::SlotNotFound => String::from_str("Slot not found"),
            DbError::TransactionNotFound => String::from_str("Transaction not found"),
            DbError::AccountNotFound => String::from_str("Account not found"),
            DbError::_Other(s) => String::from_str("Other error: ").concat(s.as_str()),
        }
    }
}

impl Block {
    /// The block a successful block lookup carries. A response of any
    /// other kind is a contract violation between components, not a
    /// runtime-recoverable error, so it is ruled out by precondition.
    pub fn from_response(response: DbResponse) -> (b: Block)
        requires
            response is Block,
        ensures
            response matches DbResponse::Block(inner) && b@ == inner@,
    {
        match response {
            DbResponse::Block(block) => block,
            _ => unreached(),
        }
    }
}

impl Transaction {
    /// The transaction a successful transaction lookup carries; any
    /// other kind of response is ruled out by precondition.
    pub fn from_response(response: DbResponse) -> (t: Transaction)
        requires
            response is Transaction,
        ensures
            response matches DbResponse::Transaction(inner) && t@ == inner@,
    {
        match response {
            DbResponse::Transaction(transaction) => transaction,
            _ => unreached(),
        }
    }
}

impl Account {
    /// The account a successful account lookup carries; any other kind
    /// of response is ruled out by precondition.
    pub fn from_response(response: DbResponse) -> (a: Account)
        requires
            response is Account,
        ensures
            response matches DbResponse::Account(inner) && a@ == inner@,
    {
        match response {
            DbResponse::Account(account) => account,
            _ => unreached(),
        }
    }
}

/// The mathematical value of the store: one map per entity kind, plus
/// the index that resolves a slot number to a block id.
#[verifier::ext_equal]
pub struct StoreView {
    pub blocks: Map<Seq<char>, BlockView>,
    pub slot_index: Map<u64, Seq<char>>,
    pub transactions: Map<Seq<char>, TransactionView>,
    pub accounts: Map<Seq<char>, AccountView>,
}

/// The store before any write.
pub open spec fn empty_store() -> StoreView {
    StoreView {
        blocks: Map::empty(),
        slot_index: Map::empty(),
        transactions: Map::empty(),
        accounts: Map::empty(),
    }
}

/// The most recent entry of `s` whose key is `k`, if any: entries later
/// in the log overwrite earlier ones under the same key.
spec fn last_entry<K, V>(s: Seq<V>, key: spec_fn(V) -> K, k: K) -> Option<V>
    decreases s.len(),
{
    if s.len() == 0 {
        None
    } else if key(s.last()) == k {
        Some(s.last())
    } else {
        last_entry(s.drop_last(), key, k)
    }
}

/// The key/value map that a log of entries denotes, under last-write-wins.
spec fn entry_map<K, V, W>(s: Seq<V>, key: spec_fn(V) -> K, val: spec_fn(V) -> W) -> Map<
    K,
    W,
> {
    Map::new(
        |k: K| last_entry(s, key, k) is Some,
        |k: K| val(last_entry(s, key, k).unwrap()),
    )
}

proof fn lemma_last_entry_push<K, V>(s: Seq<V>, key: spec_fn(V) -> K, v: V, k: K)
    ensures
        last_entry(s.push(v), key, k) == (if key(v) == k {
            Some(v)
        } else {
            last_entry(s, key, k)
        }),
{
    assert(s.push(v).last() == v);
    assert(s.push(v).drop_last() =~= s);
}

proof fn lemma_last_entry_take_step<K, V>(s: Seq<V>, key: spec_fn(V) -> K, k: K, i: int)
    requires
        1 <= i <= s.len(),
    ensures
        last_entry(s.take(i), key, k) == (if key(s[i - 1]) == k {
            Some(s[i - 1])
        } else {
            last_entry(s.take(i - 1), key, k)
        }),
{
    assert(s.take(i).len() == i);
    assert(s.take(i).last() == s[i - 1]);
    assert(s.take(i).drop_last() =~= s.take(i - 1));
}

proof fn lemma_entry_map_contains<K, V, W>(
    s: Seq<V>,
    key: spec_fn(V) -> K,
    val: spec_fn(V) -> W,
    k: K,
)
    ensures
        entry_map(s, key, val).contains_key(k) == (last_entry(s, key, k) is Some),
        (last_entry(s, key, k) is Some) ==> entry_map(s, key, val)[k] == val(
            last_entry(s, key, k).unwrap(),
        ),
{
}

proof fn lemma_entry_map_push<K, V, W>(
    s: Seq<V>,
    key: spec_fn(V) -> K,
    val: spec_fn(V) -> W,
    v: V,
)
    ensures
        entry_map(s.push(v), key, val) == entry_map(s, key, val).insert(key(v), val(v)),
{
    let m1 = entry_map(s.push(v), key, val);
    let m2 = entry_map(s, key, val).insert(key(v), val(v));
    assert_maps_equal!(m1, m2, k: K => {
        lemma_last_entry_push(s, key, v, k);
    });
}

proof fn lemma_entry_map_empty<K, V, W>(key: spec_fn(V) -> K, val: spec_fn(V) -> W)
    ensures
        entry_map(Seq::<V>::empty(), key, val) == Map::<K, W>::empty(),
{
    let m1 = entry_map(Seq::<V>::empty(), key, val);
    let m2 = Map::<K, W>::empty();
    assert_maps_equal!(m1, m2, k: K => {});
}

/// Key and value extractors for the entity logs, named once so that
/// every spec and proof speaks of the same functions.
spec fn block_key() -> spec_fn(BlockView) -> Seq<char> {
    |b: BlockView| b.id
}

spec fn block_val() -> spec_fn(BlockView) -> BlockView {
    |b: BlockView| b
}

spec fn slot_key() -> spec_fn((u64, Seq<char>)) -> u64 {
    |p: (u64, Seq<char>)| p.0
}

spec fn slot_val() -> spec_fn((u64, Seq<char>)) -> Seq<char> {
    |p: (u64, Seq<char>)| p.1
}

spec fn tx_key() -> spec_fn(TransactionView) -> Seq<char> {
    |t: TransactionView| t.id
}

spec fn tx_val() -> spec_fn(TransactionView) -> TransactionView {
    |t: TransactionView| t
}

spec fn acct_key() -> spec_fn(AccountView) -> Seq<char> {
    |a: AccountView| a.id
}

spec fn acct_val() -> spec_fn(AccountView) -> AccountView {
    |a: AccountView| a
}

/// What an insert does to the store: it always succeeds and replaces
/// any prior value under the same key. A block insert also indexes the
/// block by its slot number, silently overwriting a previous entry for
/// that slot.
pub open spec fn insert_block_spec(v: StoreView, b: BlockView) -> StoreView {
    StoreView {
        blocks: v.blocks.insert(b.id, b),
        slot_index: v.slot_index.insert(b.slot, b.id),
        transactions: v.transactions,
        accounts: v.accounts,
    }
}

pub open spec fn insert_transaction_spec(v: StoreView, t: TransactionView) -> StoreView {
    StoreView {
        blocks: v.blocks,
        slot_index: v.slot_index,
        transactions: v.transactions.insert(t.id, t),
        accounts: v.accounts,
    }
}

pub open spec fn insert_account_spec(v: StoreView, a: AccountView) -> StoreView {
    StoreView {
        blocks: v.blocks,
        slot_index: v.slot_index,
        transactions: v.transactions,
        accounts: v.accounts.insert(a.id, a),
    }
}

/// What a single lookup attempt returns, for each kind of key.
pub open spec fn get_block_spec(v: StoreView, id: Seq<char>) -> Result<BlockView, DbError> {
    if v.blocks.contains_key(id) {
        Ok(v.blocks[id])
    } else {
        Err(DbError::BlockNotFound)
    }
}

/// A slot lookup resolves the slot to a block id through the index and
/// then behaves as a lookup by that id.
pub open spec fn get_block_by_slot_spec(v: StoreView, slot: u64) -> Result<BlockView, DbError> {
    if v.slot_index.contains_key(slot) {
        get_block_spec(v, v.slot_index[slot])
    } else {
        Err(DbError::SlotNotFound)
    }
}

pub open spec fn get_transaction_spec(v: StoreView, id: Seq<char>) -> Result<
    TransactionView,
    DbError,
> {
    if v.transactions.contains_key(id) {
        Ok(v.transactions[id])
    } else {
        Err(DbError::TransactionNotFound)
    }
}

pub open spec fn get_account_spec(v: StoreView, id: Seq<char>) -> Result<AccountView, DbError> {
    if v.accounts.contains_key(id) {
        Ok(v.accounts[id])
    } else {
        Err(DbError::AccountNotFound)
    }
}

/// Relates an executable response to the mathematical outcome of a
/// block lookup.
pub open spec fn block_response_matches(
    r: Result<DbResponse, DbError>,
    s: Result<BlockView, DbError>,
) -> bool {
    match s {
        Ok(bv) => r matches Ok(DbResponse::Block(b)) && b@ == bv,
        Err(e) => r == Err::<DbResponse, DbError>(e),
    }
}

pub open spec fn transaction_response_matches(
    r: Result<DbResponse, DbError>,
    s: Result<TransactionView, DbError>,
) -> bool {
    match s {
        Ok(tv) => r matches Ok(DbResponse::Transaction(t)) && t@ == tv,
        Err(e) => r == Err::<DbResponse, DbError>(e),
    }
}

pub open spec fn account_response_matches(
    r: Result<DbResponse, DbError>,
    s: Result<AccountView, DbError>,
) -> bool {
    match s {
        Ok(av) => r matches Ok(DbResponse::Account(a)) && a@ == av,
        Err(e) => r == Err::<DbResponse, DbError>(e),
    }
}

/// What one query attempt does to the store: inserts replace the value
/// under their key, lookups leave the store unchanged.
pub open spec fn query_effect(v: StoreView, q: DbQuery) -> StoreView {
    match q {
        DbQuery::InsertBlock(b) => insert_block_spec(v, b@),
        DbQuery::InsertTransaction(t) => insert_transaction_spec(v, t@),
        DbQuery::InsertAccount(a) => insert_account_spec(v, a@),
        _ => v,
    }
}

/// What one query attempt returns, given the store it observed.
pub open spec fn query_response(v: StoreView, q: DbQuery, r: Result<DbResponse, DbError>) -> bool {
    match q {
        DbQuery::InsertBlock(_) => r == Ok::<DbResponse, DbError>(DbResponse::Done),
        DbQuery::InsertTransaction(_) => r == Ok::<DbResponse, DbError>(DbResponse::Done),
        DbQuery::InsertAccount(_) => r == Ok::<DbResponse, DbError>(DbResponse::Done),
        DbQuery::GetBlock(id) => block_response_matches(r, get_block_spec(v, id@)),
        DbQuery::GetBlockBySlot(slot) => block_response_matches(r, get_block_by_slot_spec(v, slot)),
        DbQuery::GetTransaction(id) => transaction_response_matches(
            r,
            get_transaction_spec(v, id@),
        ),
        DbQuery::GetAccount(id) => account_response_matches(r, get_account_spec(v, id@)),
    }
}

/// The authoritative in-memory state for the three entity kinds. Each
/// entity log grows monotonically; a lookup observes the most recent
/// write under its key, so re-inserting a key overwrites.
#[derive(Debug)]
pub struct DbConnection {
    blocks: Vec<Block>,
    slots_to_blocks: Vec<(u64, String)>,
    transactions: Vec<Transaction>,
    accounts: Vec<Account>,
}

impl DbConnection {
    pub closed spec fn block_log(&self) -> Seq<BlockView> {
        self.blocks@.map_values(|b: Block| b@)
    }

    pub closed spec fn slot_log(&self) -> Seq<(u64, Seq<char>)> {
        self.slots_to_blocks@.map_values(|p: (u64, String)| (p.0, p.1@))
    }

    pub closed spec fn tx_log(&self) -> Seq<TransactionView> {
        self.transactions@.map_values(|t: Transaction| t@)
    }

    pub closed spec fn acct_log(&self) -> Seq<AccountView> {
        self.accounts@.map_values(|a: Account| a@)
    }
}

impl View for DbConnection {
    type V = StoreView;

    closed spec fn view(&self) -> StoreView {
        StoreView {
            blocks: entry_map(self.block_log(), block_key(), block_val()),
            slot_index: entry_map(self.slot_log(), slot_key(), slot_val()),
            transactions: entry_map(self.tx_log(), tx_key(), tx_val()),
            accounts: entry_map(self.acct_log(), acct_key(), acct_val()),
        }
    }
}

impl DbConnection {
    /// A fresh store, holding no entity of any kind.
    pub fn new() -> (c: Self)
        ensures
            c@ == empty_store(),
    {
        let c = DbConnection {
            blocks: Vec::new(),
            slots_to_blocks: Vec::new(),
            transactions: Vec::new(),
            accounts: Vec::new(),
        };
        proof {
            assert(c.block_log() =~= Seq::<BlockView>::empty());
            assert(c.slot_log() =~= Seq::<(u64, Seq<char>)>::empty());
            assert(c.tx_log() =~= Seq::<TransactionView>::empty());
            assert(c.acct_log() =~= Seq::<AccountView>::empty());
            lemma_entry_map_empty(block_key(), block_val());
            lemma_entry_map_empty(slot_key(), slot_val());
            lemma_entry_map_empty(tx_key(), tx_val());
            lemma_entry_map_empty(acct_key(), acct_val());
        }
        c
    }

    fn insert_block(&mut self, block: Block) -> (r: Result<DbResponse, DbError>)
        ensures
            final(self)@ == insert_block_spec(old(self)@, block@),
            r == Ok::<DbResponse, DbError>(DbResponse::Done),
    {
        let ghost pre = *self;
        let slot = block.slot;
        let id_for_slot = block.id.clone();
        self.blocks.push(block);
        self.slots_to_blocks.push((slot, id_for_slot));
        proof {
            assert(self.block_log() =~= pre.block_log().push(block@));
            assert(self.slot_log() =~= pre.slot_log().push((block@.slot, block@.id)));
            assert(self.tx_log() =~= pre.tx_log());
            assert(self.acct_log() =~= pre.acct_log());
            lemma_entry_map_push(pre.block_log(), block_key(), block_val(), block@);
            lemma_entry_map_push(pre.slot_log(), slot_key(), slot_val(), (block@.slot, block@.id));
        }
        Ok(DbResponse::Done)
    }

    fn insert_transaction(&mut self, transaction: Transaction) -> (r: Result<DbResponse, DbError>)
        ensures
            final(self)@ == insert_transaction_spec(old(self)@, transaction@),
            r == Ok::<DbResponse, DbError>(DbResponse::Done),
    {
        let ghost pre = *self;
        self.transactions.push(transaction);
        proof {
            assert(self.tx_log() =~= pre.tx_log().push(transaction@));
            assert(self.block_log() =~= pre.block_log());
            assert(self.slot_log() =~= pre.slot_log());
            assert(self.acct_log() =~= pre.acct_log());
            lemma_entry_map_push(pre.tx_log(), tx_key(), tx_val(), transaction@);
        }
        Ok(DbResponse::Done)
    }

    fn insert_account(&mut self, account: Account) -> (r: Result<DbResponse, DbError>)
        ensures
            final(self)@ == insert_account_spec(old(self)@, account@),
            r == Ok::<DbResponse, DbError>(DbResponse::Done),
    {
        let ghost pre = *self;
        self.accounts.push(account);
        proof {
            assert(self.acct_log() =~= pre.acct_log().push(account@));
            assert(self.block_log() =~= pre.block_log());
            assert(self.slot_log() =~= pre.slot_log());
            assert(self.tx_log() =~= pre.tx_log());
            lemma_entry_map_push(pre.acct_log(), acct_key(), acct_val(), account@);
        }
        Ok(DbResponse::Done)
    }

    fn get_block(&self, id: &String) -> (r: Result<DbResponse, DbError>)
        ensures
            block_response_matches(r, get_block_spec(self@, id@)),
    {
        let ghost log = self.block_log();
        let mut i: usize = self.blocks.len();
        proof {
            assert(log.take(i as int) =~= log);
        }
        while i > 0
            invariant
                i <= self.blocks.len(),
                log == self.block_log(),
                last_entry(log, block_key(), id@) == last_entry(
                    log.take(i as int),
                    block_key(),
                    id@,
                ),
            decreases i,
        {
            let idx = i - 1;
            proof {
                lemma_last_entry_take_step(log, block_key(), id@, i as int);
            }
            if self.blocks[idx].id == *id {
                proof {
                    lemma_entry_map_contains(log, block_key(), block_val(), id@);
                }
                return Ok(DbResponse::Block(self.blocks[idx].clone()));
            }
            i = idx;
        }
        proof {
            assert(log.take(0) =~= Seq::<BlockView>::empty());
            lemma_entry_map_contains(log, block_key(), block_val(), id@);
        }
        Err(DbError::BlockNotFound)
    }

    fn lookup_slot(&self, slot: u64) -> (r: Option<String>)
        ensures
            match r {
                Some(id) => self@.slot_index.contains_key(slot) && id@ == self@.slot_index[slot],
                None => !self@.slot_index.contains_key(slot),
            },
    {
        let ghost log = self.slot_log();
        let mut i: usize = self.slots_to_blocks.len();
        proof {
            assert(log.take(i as int) =~= log);
        }
        while i > 0
            invariant
                i <= self.slots_to_blocks.len(),
                log == self.slot_log(),
                last_entry(log, slot_key(), slot) == last_entry(log.take(i as int), slot_key(), slot),
            decreases i,
        {
            let idx = i - 1;
            proof {
                lemma_last_entry_take_step(log, slot_key(), slot, i as int);
            }
            if self.slots_to_blocks[idx].0 == slot {
                proof {
                    lemma_entry_map_contains(log, slot_key(), slot_val(), slot);
                }
                return Some(self.slots_to_blocks[idx].1.clone());
            }
            i = idx;
        }
        proof {
            assert(log.take(0) =~= Seq::<(u64, Seq<char>)>::empty());
            lemma_entry_map_contains(log, slot_key(), slot_val(), slot);
        }
        None
    }

    fn get_block_by_slot(&self, slot: u64) -> (r: Result<DbResponse, DbError>)
        ensures
            block_response_matches(r, get_block_by_slot_spec(self@, slot)),
    {
        match self.lookup_slot(slot) {
            Some(block_id) => self.get_block(&block_id),
            None => Err(DbError::SlotNotFound),
        }
    }

    fn get_transaction(&self, id: &String) -> (r: Result<DbResponse, DbError>)
        ensures
            transaction_response_matches(r, get_transaction_spec(self@, id@)),
    {
        let ghost log = self.tx_log();
        let mut i: usize = self.transactions.len();
        proof {
            assert(log.take(i as int) =~= log);
        }
        while i > 0
            invariant
                i <= self.transactions.len(),
                log == self.tx_log(),
                last_entry(log, tx_key(), id@) == last_entry(log.take(i as int), tx_key(), id@),
            decreases i,
        {
            let idx = i - 1;
            proof {
                lemma_last_entry_take_step(log, tx_key(), id@, i as int);
            }
            if self.transactions[idx].id == *id {
                proof {
                    lemma_entry_map_contains(log, tx_key(), tx_val(), id@);
                }
                return Ok(DbResponse::Transaction(self.transactions[idx].clone()));
            }
            i = idx;
        }
        proof {
            assert(log.take(0) =~= Seq::<TransactionView>::empty());
            lemma_entry_map_contains(log, tx_key(), tx_val(), id@);
        }
        Err(DbError::TransactionNotFound)
    }

    fn get_account(&self, pubkey: &String) -> (r: Result<DbResponse, DbError>)
        ensures
            account_response_matches(r, get_account_spec(self@, pubkey@)),
    {
        let ghost log = self.acct_log();
        let mut i: usize = self.accounts.len();
        proof {
            assert(log.take(i as int) =~= log);
        }
        while i > 0
            invariant
                i <= self.accounts.len(),
                log == self.acct_log(),
                last_entry(log, acct_key(), pubkey@) == last_entry(
                    log.take(i as int),
                    acct_key(),
                    pubkey@,
                ),
            decreases i,
        {
            let idx = i - 1;
            proof {
                lemma_last_entry_take_step(log, acct_key(), pubkey@, i as int);
            }
            if self.accounts[idx].id == *pubkey {
                proof {
                    lemma_entry_map_contains(log, acct_key(), acct_val(), pubkey@);
                }
                return Ok(DbResponse::Account(self.accounts[idx].clone()));
            }
            i = idx;
        }
        proof {
            assert(log.take(0) =~= Seq::<AccountView>::empty());
            lemma_entry_map_contains(log, acct_key(), acct_val(), pubkey@);
        }
        Err(DbError::AccountNotFound)
    }

    /// One attempt at a query, with no retry on failure: the building
    /// block of the tolerant read loop.
    pub fn _query_no_retry(&mut self, query: &DbQuery) -> (r: Result<DbResponse, DbError>)
        ensures
            final(self)@ == query_effect(old(self)@, *query),
            query_response(old(self)@, *query, r),
    {
        match query {
            DbQuery::InsertBlock(block) => self.insert_block(block.clone()),
            DbQuery::GetBlock(id) => self.get_block(id),
            DbQuery::GetBlockBySlot(slot) => self.get_block_by_slot(*slot),
            DbQuery::InsertTransaction(transaction) => self.insert_transaction(
                transaction.clone(),
            ),
            DbQuery::GetTransaction(id) => self.get_transaction(id),
            DbQuery::InsertAccount(account) => self.insert_account(account.clone()),
            DbQuery::GetAccount(id) => self.get_account(id),
        }
    }
}

/// All transactions the store holds are well formed: their account and
/// balance lists correspond positionally.
pub open spec fn store_wf(v: StoreView) -> bool {
    forall|id: Seq<char>|
        #[trigger] v.transactions.contains_key(id) ==> wf_transaction(v.transactions[id])
}

/// A store that has seen no write holds no transaction, so it is
/// trivially well formed.
pub proof fn lemma_empty_store_wf()
    ensures
        store_wf(empty_store()),
{
}

/// Positional correspondence is an invariant of the store: a query
/// whose transaction, if any, is well formed preserves it.
pub proof fn lemma_query_preserves_wf(v: StoreView, q: DbQuery)
    requires
        store_wf(v),
        (q matches DbQuery::InsertTransaction(t) ==> wf_transaction(t@)),
    ensures
        store_wf(query_effect(v, q)),
{
}

/// Idempotent overwrite: inserting two blocks under the same id leaves
/// only the second retrievable, both by id and by its (possibly
/// changed) slot.
pub proof fn lemma_overwrite_latest_wins(v: StoreView, b1: BlockView, b2: BlockView)
    requires
        b1.id == b2.id,
    ensures
        get_block_spec(insert_block_spec(insert_block_spec(v, b1), b2), b2.id)
            == Ok::<BlockView, DbError>(b2),
        get_block_by_slot_spec(insert_block_spec(insert_block_spec(v, b1), b2), b2.slot)
            == Ok::<BlockView, DbError>(b2),
{
}

/// Tolerant reads eventually succeed: once the awaited block is
/// inserted, the very next lookup attempt observes it.
pub proof fn lemma_insert_then_read(v: StoreView, b: BlockView)
    ensures
        get_block_spec(insert_block_spec(v, b), b.id) == Ok::<BlockView, DbError>(b),
{
}

/// Not found before any write: a lookup observes only the current
/// view, an absent account key yields the not-found error, and no
/// lookup changes the store — so against a store that receives no
/// write, every attempt fails, however many are made.
pub proof fn lemma_absent_account_read_fails(v: StoreView, id: Seq<char>)
    requires
        !v.accounts.contains_key(id),
    ensures
        get_account_spec(v, id) == Err::<AccountView, DbError>(DbError::AccountNotFound),
        forall|q: DbQuery|
            !(q is InsertBlock) && !(q is InsertTransaction) && !(q is InsertAccount)
                ==> #[trigger] query_effect(v, q) == v,
{
}

/// Slot index consistency: a slot lookup agrees with the id lookup for
/// the id the index holds, and fails with the slot-specific error for
/// a slot the index never saw.
pub proof fn lemma_slot_index_consistent(v: StoreView, slot: u64)
    ensures
        v.slot_index.contains_key(slot) ==> get_block_by_slot_spec(v, slot) == get_block_spec(
            v,
            v.slot_index[slot],
        ),
        !v.slot_index.contains_key(slot) ==> get_block_by_slot_spec(v, slot)
            == Err::<BlockView, DbError>(DbError::SlotNotFound),
{
}

/// After a block is inserted, looking it up by slot and by id give the
/// same result.
pub proof fn lemma_inserted_block_lookups_agree(v: StoreView, b: BlockView)
    ensures
        get_block_by_slot_spec(insert_block_spec(v, b), b.slot) == get_block_spec(
            insert_block_spec(v, b),
            b.id,
        ),
{
}

/// The store after inserting each block of `bs`, in order.
pub open spec fn insert_blocks_spec(v: StoreView, bs: Seq<BlockView>) -> StoreView
    decreases bs.len(),
{
    if bs.len() == 0 {
        v
    } else {
        insert_block_spec(insert_blocks_spec(v, bs.drop_last()), bs.last())
    }
}

/// No lost writes: after inserting any number of blocks with distinct
/// ids, every one of them is retrievable by its id.
pub proof fn lemma_distinct_inserts_all_retrievable(v: StoreView, bs: Seq<BlockView>)
    requires
        forall|i: int, j: int| 0 <= i < j < bs.len() ==> bs[i].id != bs[j].id,
    ensures
        forall|i: int|
            #![trigger bs[i]]
            0 <= i < bs.len() ==> get_block_spec(insert_blocks_spec(v, bs), bs[i].id)
                == Ok::<BlockView, DbError>(bs[i]),
    decreases bs.len(),
{
    if bs.len() > 0 {
        let prefix = bs.drop_last();
        assert forall|i: int, j: int| 0 <= i < j < prefix.len() implies prefix[i].id
            != prefix[j].id by {
            assert(prefix[i] == bs[i]);
            assert(prefix[j] == bs[j]);
        }
        lemma_distinct_inserts_all_retrievable(v, prefix);
        assert forall|i: int|
            0 <= i < bs.len() implies get_block_spec(insert_blocks_spec(v, bs), #[trigger] bs[i].id)
            == Ok::<BlockView, DbError>(bs[i]) by {
            if i < bs.len() - 1 {
                assert(prefix[i] == bs[i]);
                assert(bs[i].id != bs.last().id);
            }
        }
    }
}

/// What the tolerant read loop decides after one attempt: hand the
/// response out, or wait one backoff interval and attempt the same
/// lookup again. There is deliberately no bound on the number of
/// retries; a caller that wants bounded waiting must impose its own
/// deadline around the loop.
#[derive(Debug)]
pub enum RetryDecision {
    Done(DbResponse),
    RetryAfterBackoff,
}

/// The decision step of the tolerant read: a failed attempt is never
/// surfaced, it only schedules another attempt.
pub fn tolerant_step(attempt: Result<DbResponse, DbError>) -> (d: RetryDecision)
    ensures
        (attempt matches Ok(resp) ==> d matches RetryDecision::Done(got) && got == resp),
        (attempt is Err ==> d is RetryAfterBackoff),
{
    match attempt {
        Ok(resp) => RetryDecision::Done(resp),
        Err(_) => RetryDecision::RetryAfterBackoff,
    }
}

} // verus!
