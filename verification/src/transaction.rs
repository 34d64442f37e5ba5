use vstd::prelude::*;

verus! {

/// The closed vocabulary of ledger-defined transaction failure causes,
/// with `NoError` for a transaction that executed without error.
#[derive(Clone, Copy, Debug, PartialEq, Eq, Structural)]
pub enum TransactionErrors {
    NoError,
    AccountBorrowOutstanding,
    AccountInUse,
    AccountLoadedTwice,
    AccountNotFound,
    AddressLookupTableNotFound,
    AlreadyProcessed,
    BlockhashNotFound,
    CallChainTooDeep,
    ClusterMaintenance,
    CommitCancelled,
    DuplicateInstruction,
    InstructionError,
    InsufficientFundsForFee,
    InsufficientFundsForRent,
    InvalidAccountForFee,
    InvalidAccountIndex,
    InvalidAddressLookupTableData,
    InvalidAddressLookupTableIndex,
    InvalidAddressLookupTableOwner,
    InvalidLoadedAccountDataSizeLimit,
    InvalidProgramForExecution,
    InvalidRentPayingAccount,
    InvalidWritableAccount,
    MaxLoadedAccountsDataSizeExceeded,
    MissingSignatureForFee,
    ProgramAccountNotFound,
    ProgramCacheHitMaxLimit,
    ProgramExecutionTemporarilyRetsricted,
    ResanitizationNeeded,
    SanitizeFailure,
    SignatureFailure,
    TooManyAccountLocks,
    UnbalancedTransaction,
    UnsupportedVersion,
    WoulbExceedMaxAccountCostLimit,
    WouldExceedAccountDataBlockLimit,
    WouldExceedAccountDataTotalLimit,
    WouldExceedMaxBlockCostLimit,
    WouldExceedMaxVoteCostLimit,
}

/// One normalized ledger transaction. Its identifier is the first
/// signature; `accounts` and `balances` are parallel lists, where
/// `balances[i]` is the post-execution balance of `accounts[i]`.
#[derive(Debug)]
pub struct Transaction {
    pub id: String,
    pub err: Option<TransactionErrors>,
    pub recent_blockhash: String,
    pub signatures: Vec<String>,
    pub accounts: Vec<String>,
    pub balances: Vec<u64>,
    pub fees: u64,
}

/// The mathematical value of a `Transaction`.
pub struct TransactionView {
    pub id: Seq<char>,
    pub err: Option<TransactionErrors>,
    pub recent_blockhash: Seq<char>,
    pub signatures: Seq<Seq<char>>,
    pub accounts: Seq<Seq<char>>,
    pub balances: Seq<u64>,
    pub fees: u64,
}

impl View for Transaction {
    type V = TransactionView;

    open spec fn view(&self) -> TransactionView {
        TransactionView {
            id: self.id@,
            err: self.err,
            recent_blockhash: self.recent_blockhash@,
            signatures: self.signatures.deep_view(),
            accounts: self.accounts.deep_view(),
            balances: self.balances@,
            fees: self.fees,
        }
    }
}

/// A transaction is well formed when its account and balance lists
/// correspond positionally, so every account has a post-balance.
pub open spec fn wf_transaction(t: TransactionView) -> bool {
    t.accounts.len() == t.balances.len()
}

/// Copies a vector of strings element by element.
pub fn clone_string_vec(v: &Vec<String>) -> (r: Vec<String>)
    ensures
        r.deep_view() == v.deep_view(),
{
    let mut r: Vec<String> = Vec::new();
    let mut i: usize = 0;
    while i < v.len()
        invariant
            i <= v.len(),
            r.len() == i,
            forall|j: int| 0 <= j < i ==> r.deep_view()[j] == v.deep_view()[j],
        decreases v.len() - i,
    {
        r.push(v[i].clone());
        i = i + 1;
    }
    proof {
        assert(r.deep_view() =~= v.deep_view());
    }
    r
}

/// Copies a vector of integers element by element.
pub fn clone_u64_vec(v: &Vec<u64>) -> (r: Vec<u64>)
    ensures
        r@ == v@,
{
    let mut r: Vec<u64> = Vec::new();
    let mut i: usize = 0;
    while i < v.len()
        invariant
            i <= v.len(),
            r@ == v@.take(i as int),
        decreases v.len() - i,
    {
        r.push(v[i]);
        proof {
            assert(v@.take(i as int).push(v@[i as int]) =~= v@.take(i + 1 as int));
        }
        i = i + 1;
    }
    proof {
        assert(v@.take(v@.len() as int) =~= v@);
    }
    r
}

/// Compares two vectors of strings by content.
pub fn string_vecs_eq(a: &Vec<String>, b: &Vec<String>) -> (r: bool)
    ensures
        r == (a.deep_view() == b.deep_view()),
{
    if a.len() != b.len() {
        proof {
            assert(a.deep_view().len() == a@.len());
            assert(b.deep_view().len() == b@.len());
        }
        return false;
    }
    let mut i: usize = 0;
    while i < a.len()
        invariant
            i <= a.len(),
            a.len() == b.len(),
            forall|j: int| 0 <= j < i ==> a.deep_view()[j] == b.deep_view()[j],
        decreases a.len() - i,
    {
        if !(a[i] == b[i]) {
            proof {
                assert(a.deep_view()[i as int] == a@[i as int]@);
                assert(b.deep_view()[i as int] == b@[i as int]@);
            }
            return false;
        }
        i = i + 1;
    }
    proof {
        assert(a.deep_view() =~= b.deep_view());
    }
    true
}

/// Compares two vectors of integers by content.
pub fn u64_vecs_eq(a: &Vec<u64>, b: &Vec<u64>) -> (r: bool)
    ensures
        r == (a@ == b@),
{
    if a.len() != b.len() {
        return false;
    }
    let mut i: usize = 0;
    while i < a.len()
        invariant
            i <= a.len(),
            a.len() == b.len(),
            forall|j: int| 0 <= j < i ==> a@[j] == b@[j],
        decreases a.len() - i,
    {
        if a[i] != b[i] {
            return false;
        }
        i = i + 1;
    }
    proof {
        assert(a@ =~= b@);
    }
    true
}

impl Clone for Transaction {
    fn clone(&self) -> (r: Self)
        ensures
            r@ == self@,
    {
        Transaction {
            id: self.id.clone(),
            err: self.err,
            recent_blockhash: self.recent_blockhash.clone(),
            signatures: clone_string_vec(&self.signatures),
            accounts: clone_string_vec(&self.accounts),
            balances: clone_u64_vec(&self.balances),
            fees: self.fees,
        }
    }
}

impl PartialEq for Transaction {
    fn eq(&self, other: &Self) -> (r: bool) {
        let err_eq = match (self.err, other.err) {
            (Some(a), Some(b)) => a == b,
            (None, None) => true,
            _ => false,
        };
        self.id == other.id && err_eq && self.recent_blockhash == other.recent_blockhash
            && string_vecs_eq(&self.signatures, &other.signatures)
            && string_vecs_eq(&self.accounts, &other.accounts)
            && u64_vecs_eq(&self.balances, &other.balances) && self.fees == other.fees
    }
}

impl vstd::std_specs::cmp::PartialEqSpecImpl for Transaction {
    open spec fn obeys_eq_spec() -> bool {
        true
    }

    open spec fn eq_spec(&self, other: &Self) -> bool {
        self@ == other@
    }
}

} // verus!
