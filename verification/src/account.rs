use vstd::prelude::*;

verus! {

/// The latest observed balance of one ledger account. Accounts are not
/// ledger-native entities: each one is derived from the positional
/// account/balance lists of a transaction.
#[derive(Debug)]
pub struct Account {
    pub id: String,
    pub balance: u64,
}

/// The mathematical value of an `Account`.
pub struct AccountView {
    pub id: Seq<char>,
    pub balance: u64,
}

impl View for Account {
    type V = AccountView;

    open spec fn view(&self) -> AccountView {
        AccountView { id: self.id@, balance: self.balance }
    }
}

impl Account {
    pub fn new(id: String, balance: u64) -> (a: Self)
        ensures
            a@ == (AccountView { id: id@, balance: balance }),
    {
        Account { id, balance }
    }
}

impl Clone for Account {
    fn clone(&self) -> (r: Self)
        ensures
            r@ == self@,
    {
        Account { id: self.id.clone(), balance: self.balance }
    }
}

impl PartialEq for Account {
    fn eq(&self, other: &Self) -> (r: bool) {
        self.id == other.id && self.balance == other.balance
    }
}

impl vstd::std_specs::cmp::PartialEqSpecImpl for Account {
    open spec fn obeys_eq_spec() -> bool {
        true
    }

    open spec fn eq_spec(&self, other: &Self) -> bool {
        self@ == other@
    }
}

} // verus!
