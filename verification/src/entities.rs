//! The two records of the bank: clients and their accounts.

use vstd::prelude::*;
use vstd::std_specs::cmp::PartialEqSpecImpl;

verus! {

/// A bank customer. The store assigns `id` on creation; it never changes
/// afterwards.
#[derive(Debug)]
pub struct BankClient {
    pub id: i32,
    pub username: String,
}

impl Clone for BankClient {
    fn clone(&self) -> (copy: Self)
        ensures
            copy == *self,
    {
        BankClient { id: self.id, username: self.username.clone() }
    }
}

/// A balance in cents, owned by exactly one client.
#[derive(Debug, Eq, Hash)]
pub struct Account {
    pub id: i32,
    pub amount_in_cents: i32,
    pub client_id: i32,
}

impl Clone for Account {
    fn clone(&self) -> (copy: Self)
        ensures
            copy == *self,
    {
        Account { id: self.id, amount_in_cents: self.amount_in_cents, client_id: self.client_id }
    }
}

/// Two accounts are the same account when their identifiers agree, whatever
/// their balances: a caller may hold a stale copy.
impl PartialEq for Account {
    fn eq(&self, other: &Account) -> (same: bool) {
        self.id == other.id
    }
}

impl PartialEqSpecImpl for Account {
    open spec fn obeys_eq_spec() -> bool {
        true
    }

    open spec fn eq_spec(&self, other: &Account) -> bool {
        self.id == other.id
    }
}

} // verus!
