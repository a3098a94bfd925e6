//! The store as a mathematical object: two maps and two counters, with the
//! effect of every storage operation written as a function on that state.

use crate::db::{CLIENT_NOT_FOUND, NOT_FOUND};
use crate::entities::{Account, BankClient};
use vstd::prelude::*;

verus! {

/// The abstract state of a store.
///
/// `clients` maps a client's identifier to its record. `accounts` maps a
/// client's identifier to that client's accounts, keyed by account identifier.
/// The counters hold the identifier handed out last: every identifier comes
/// from a counter that only grows, so none is used twice, and account
/// identifiers are unique over the whole store, not per client.
#[verifier::ext_equal]
pub struct Bank {
    pub clients: Map<i32, BankClient>,
    pub accounts: Map<i32, Map<i32, Account>>,
    pub client_count: int,
    pub account_count: int,
}

impl Bank {
    /// The store with nothing in it.
    pub open spec fn empty() -> Bank {
        Bank { clients: Map::empty(), accounts: Map::empty(), client_count: 0, account_count: 0 }
    }

    /// Whether a client with this identifier is stored.
    pub open spec fn has_client(self, client_id: i32) -> bool {
        self.clients.contains_key(client_id)
    }

    /// Whether this client is stored and owns an account with this identifier.
    pub open spec fn has_account(self, client_id: i32, account_id: i32) -> bool {
        self.accounts.contains_key(client_id) && self.accounts[client_id].contains_key(account_id)
    }

    /// What every reachable state satisfies.
    pub open spec fn valid(self) -> bool {
        &&& 0 <= self.client_count <= i32::MAX
        &&& 0 <= self.account_count <= i32::MAX
        &&& self.clients.dom().finite()
        &&& self.clients.dom() == self.accounts.dom()
        &&& forall|c: i32| #[trigger]
            self.clients.contains_key(c) ==> self.clients[c].id == c && 0 < c <= self.client_count
        &&& forall|c: i32| #[trigger]
            self.accounts.contains_key(c) ==> self.accounts[c].dom().finite()
        &&& forall|c: i32, a: i32| #[trigger]
            self.has_account(c, a) ==> {
                &&& self.accounts[c][a].id == a
                &&& self.accounts[c][a].client_id == c
                &&& 0 < a <= self.account_count
            }
        &&& forall|c1: i32, c2: i32, a: i32|
            #![trigger self.has_account(c1, a), self.has_account(c2, a)]
            self.has_account(c1, a) && self.has_account(c2, a) ==> c1 == c2
    }

    /// What reading one client gives.
    pub open spec fn get_client(self, id: i32) -> Result<BankClient, i32> {
        if self.has_client(id) {
            Ok(self.clients[id])
        } else {
            Err(NOT_FOUND)
        }
    }

    /// What listing a client's accounts gives: an error only for a client
    /// that is not stored.
    pub open spec fn get_accounts(self, id: i32) -> Result<Map<i32, Account>, i32> {
        if self.has_client(id) {
            Ok(self.accounts[id])
        } else {
            Err(NOT_FOUND)
        }
    }

    /// What reading one account of one client gives. A missing client and a
    /// missing account under a stored client give different codes.
    pub open spec fn get_account(self, client_id: i32, account_id: i32) -> Result<Account, i32> {
        if !self.has_client(client_id) {
            Err(CLIENT_NOT_FOUND)
        } else if !self.has_account(client_id, account_id) {
            Err(NOT_FOUND)
        } else {
            Ok(self.accounts[client_id][account_id])
        }
    }

    /// Whether the client counter can still grow.
    pub open spec fn can_create_client(self) -> bool {
        self.client_count < i32::MAX
    }

    /// Whether `account` can be stored without exhausting the account counter:
    /// an account for a client that is not stored takes no identifier.
    pub open spec fn can_create_account(self, account: Account) -> bool {
        self.has_client(account.client_id) ==> self.account_count < i32::MAX
    }

    /// The record stored for a new client: the caller's identifier is ignored.
    pub open spec fn new_client(self, client: BankClient) -> BankClient {
        BankClient { id: (self.client_count + 1) as i32, username: client.username }
    }

    /// The state after a client was created, with no accounts yet.
    pub open spec fn create_client(self, client: BankClient) -> Bank {
        let stored = self.new_client(client);
        Bank {
            clients: self.clients.insert(stored.id, stored),
            accounts: self.accounts.insert(stored.id, Map::empty()),
            client_count: self.client_count + 1,
            account_count: self.account_count,
        }
    }

    /// The record stored for a new account: the caller's identifier is ignored.
    pub open spec fn new_account(self, account: Account) -> Account {
        Account {
            id: (self.account_count + 1) as i32,
            amount_in_cents: account.amount_in_cents,
            client_id: account.client_id,
        }
    }

    /// The state after an account was requested: unchanged when its client is
    /// not stored.
    pub open spec fn create_account(self, account: Account) -> Bank {
        if self.has_client(account.client_id) {
            let stored = self.new_account(account);
            Bank {
                clients: self.clients,
                accounts: self.accounts.insert(
                    account.client_id,
                    self.accounts[account.client_id].insert(stored.id, stored),
                ),
                client_count: self.client_count,
                account_count: self.account_count + 1,
            }
        } else {
            self
        }
    }

    /// What creating an account returns.
    pub open spec fn create_account_result(self, account: Account) -> Result<Account, i32> {
        if self.has_client(account.client_id) {
            Ok(self.new_account(account))
        } else {
            Err(NOT_FOUND)
        }
    }

    /// The state after a client's record was replaced: unchanged when no
    /// client has that identifier.
    pub open spec fn update_client(self, client: BankClient) -> Bank {
        if self.has_client(client.id) {
            Bank { clients: self.clients.insert(client.id, client), ..self }
        } else {
            self
        }
    }

    /// What replacing a client's record returns.
    pub open spec fn update_client_result(self, client: BankClient) -> Result<BankClient, i32> {
        if self.has_client(client.id) {
            Ok(client)
        } else {
            Err(NOT_FOUND)
        }
    }

    /// The state after an account's record was replaced: unchanged unless the
    /// client is stored and owns that account.
    pub open spec fn update_account(self, account: Account) -> Bank {
        if self.has_account(account.client_id, account.id) {
            Bank {
                accounts: self.accounts.insert(
                    account.client_id,
                    self.accounts[account.client_id].insert(account.id, account),
                ),
                ..self
            }
        } else {
            self
        }
    }

    /// What replacing an account's record returns. A missing client and a
    /// missing account under a stored client give different codes.
    pub open spec fn update_account_result(self, account: Account) -> Result<Account, i32> {
        if !self.has_client(account.client_id) {
            Err(CLIENT_NOT_FOUND)
        } else if !self.has_account(account.client_id, account.id) {
            Err(NOT_FOUND)
        } else {
            Ok(account)
        }
    }

    /// The state after a client was deleted, and with it all its accounts.
    pub open spec fn delete_client(self, client_id: i32) -> Bank {
        if self.has_client(client_id) {
            Bank {
                clients: self.clients.remove(client_id),
                accounts: self.accounts.remove(client_id),
                ..self
            }
        } else {
            self
        }
    }

    /// The state after one account was deleted from its client.
    pub open spec fn delete_account(self, client_id: i32, account_id: i32) -> Bank {
        if self.has_account(client_id, account_id) {
            Bank {
                accounts: self.accounts.insert(
                    client_id,
                    self.accounts[client_id].remove(account_id),
                ),
                ..self
            }
        } else {
            self
        }
    }
}

impl Bank {
    /// Creating a client keeps the state valid.
    pub proof fn create_client_keeps_valid(self, client: BankClient)
        requires
            self.valid(),
            self.can_create_client(),
        ensures
            self.create_client(client).valid(),
    {
        let next = self.create_client(client);
        let id = self.new_client(client).id;
        assert(!self.clients.contains_key(id));
        assert(!self.accounts.dom().contains(id));
        assert(next.clients.dom() =~= next.accounts.dom());
        assert forall|c: i32, a: i32| #[trigger] next.has_account(c, a) implies self.has_account(
            c,
            a,
        ) by {
            if c == id {
                assert(next.accounts[c] =~= Map::<i32, Account>::empty());
            }
        }
    }

    /// Creating an account keeps the state valid.
    pub proof fn create_account_keeps_valid(self, account: Account)
        requires
            self.valid(),
            self.can_create_account(account),
        ensures
            self.create_account(account).valid(),
    {
        if self.has_client(account.client_id) {
            let next = self.create_account(account);
            let stored = self.new_account(account);
            assert(self.accounts.dom().contains(account.client_id));
            assert(next.clients.dom() =~= next.accounts.dom());
            assert forall|c: i32, a: i32| #[trigger] next.has_account(c, a) implies a == stored.id
                && c == account.client_id || self.has_account(c, a) by {}
            assert forall|c: i32| !self.has_account(c, stored.id) by {}
        }
    }

    /// Replacing a client's record keeps the state valid.
    pub proof fn update_client_keeps_valid(self, client: BankClient)
        requires
            self.valid(),
        ensures
            self.update_client(client).valid(),
    {
        if self.has_client(client.id) {
            let next = self.update_client(client);
            assert(next.clients.dom() =~= self.clients.dom());
            assert forall|c: i32, a: i32| #[trigger] next.has_account(c, a) implies self.has_account(
                c,
                a,
            ) by {}
        }
    }

    /// Replacing an account's record keeps the state valid.
    pub proof fn update_account_keeps_valid(self, account: Account)
        requires
            self.valid(),
        ensures
            self.update_account(account).valid(),
    {
        if self.has_account(account.client_id, account.id) {
            let next = self.update_account(account);
            assert(next.accounts.dom() =~= self.accounts.dom());
            assert forall|c: i32, a: i32| #[trigger] next.has_account(c, a) implies self.has_account(
                c,
                a,
            ) by {}
        }
    }

    /// Deleting a client keeps the state valid.
    pub proof fn delete_client_keeps_valid(self, client_id: i32)
        requires
            self.valid(),
        ensures
            self.delete_client(client_id).valid(),
    {
        if self.has_client(client_id) {
            let next = self.delete_client(client_id);
            assert(next.clients.dom() =~= next.accounts.dom());
            assert forall|c: i32, a: i32| #[trigger] next.has_account(c, a) implies self.has_account(
                c,
                a,
            ) by {}
        }
    }

    /// Deleting an account keeps the state valid.
    pub proof fn delete_account_keeps_valid(self, client_id: i32, account_id: i32)
        requires
            self.valid(),
        ensures
            self.delete_account(client_id, account_id).valid(),
    {
        if self.has_account(client_id, account_id) {
            let next = self.delete_account(client_id, account_id);
            assert(next.accounts.dom() =~= self.accounts.dom());
            assert forall|c: i32, a: i32| #[trigger] next.has_account(c, a) implies self.has_account(
                c,
                a,
            ) by {}
        }
    }
}

} // verus!
