//! A store held in two hash maps, both keyed by client identifier.

use crate::db::model::Bank;
use crate::db::{CLIENT_NOT_FOUND, DAO, NOT_FOUND};
use crate::entities::{Account, BankClient};
use std::collections::hash_map::Entry;
use std::collections::HashMap;
use vstd::prelude::*;
use vstd::std_specs::hash::*;

verus! {

broadcast use group_hash_axioms;

/// An in-memory store: the clients, and for every client the map of its
/// accounts. A client always has its map of accounts, empty at first; that an
/// account's client exists is read off that map.
///
/// Every operation that changes the store takes it by `&mut`, so no two of
/// them ever run at once; a server that shares one store among its requests
/// keeps it behind a lock.
pub struct Memory {
    pub client_count: i32,
    pub account_count: i32,
    pub client_data: HashMap<i32, BankClient>,
    pub account_data: HashMap<i32, HashMap<i32, Account>>,
}

impl Memory {
    /// The accounts held, as maps of maps.
    pub open spec fn accounts(&self) -> Map<i32, Map<i32, Account>> {
        Map::new(
            |c: i32| self.account_data@.contains_key(c),
            |c: i32| self.account_data@[c]@,
        )
    }

    /// An empty store.
    pub fn new() -> (store: Self)
        ensures
            store.model() == Bank::empty(),
            store.model().valid(),
    {
        let store = Self {
            client_count: 0,
            account_count: 0,
            client_data: HashMap::new(),
            account_data: HashMap::new(),
        };
        assert(store.accounts() =~~= Map::empty());
        store
    }
}

impl DAO for Memory {
    open spec fn model(&self) -> Bank {
        Bank {
            clients: self.client_data@,
            accounts: self.accounts(),
            client_count: self.client_count as int,
            account_count: self.account_count as int,
        }
    }

    fn create_client(&mut self, client: BankClient) -> (created: BankClient) {
        let mut inner_client = client;
        self.client_count += 1;
        inner_client.id = self.client_count;
        let ret = inner_client.clone();
        self.client_data.insert(self.client_count, inner_client);
        self.account_data.insert(self.client_count, HashMap::new());
        proof {
            old(self).model().create_client_keeps_valid(client);
            assert(self.accounts() =~~= old(self).model().create_client(client).accounts);
        }
        ret
    }

    fn create_account(&mut self, account: Account) -> (created: Result<Account, i32>) {
        let mut inner_account = account;
        match self.account_data.entry(inner_account.client_id) {
            Entry::Occupied(mut slot) => {
                let accounts = slot.get_mut();
                self.account_count += 1;
                inner_account.id = self.account_count;
                let ret = inner_account.clone();
                accounts.insert(self.account_count, inner_account);
                proof {
                    old(self).model().create_account_keeps_valid(account);
                    assert(self.accounts() =~~= old(self).model().create_account(account).accounts);
                }
                Ok(ret)
            },
            Entry::Vacant(_) => {
                proof {
                    assert(self.accounts() =~~= old(self).accounts());
                }
                Err(NOT_FOUND)
            },
        }
    }

    fn get_all_clients(&self) -> (clients: &HashMap<i32, BankClient>) {
        &self.client_data
    }

    fn get_client(&self, id: i32) -> (found: Result<&BankClient, i32>) {
        match self.client_data.get(&id) {
            Some(client) => Ok(client),
            None => Err(NOT_FOUND),
        }
    }

    fn get_accounts(&self, id: i32) -> (found: Result<&HashMap<i32, Account>, i32>) {
        match self.account_data.get(&id) {
            Some(accounts) => Ok(accounts),
            None => Err(NOT_FOUND),
        }
    }

    fn get_account(&self, client_id: i32, account_id: i32) -> (found: Result<&Account, i32>) {
        match self.account_data.get(&client_id) {
            Some(accounts) => match accounts.get(&account_id) {
                Some(account) => Ok(account),
                None => Err(NOT_FOUND),
            },
            None => Err(CLIENT_NOT_FOUND),
        }
    }

    fn update_client(&mut self, client: BankClient) -> (updated: Result<BankClient, i32>) {
        match self.client_data.get(&client.id) {
            Some(_) => {
                let ret = client.clone();
                self.client_data.insert(client.id, client);
                proof {
                    old(self).model().update_client_keeps_valid(client);
                    assert(self.accounts() =~~= old(self).accounts());
                }
                Ok(ret)
            },
            None => Err(NOT_FOUND),
        }
    }

    fn update_account(&mut self, account: Account) -> (updated: Result<Account, i32>) {
        match self.account_data.entry(account.client_id) {
            Entry::Occupied(mut slot) => {
                let accounts = slot.get_mut();
                match accounts.get(&account.id) {
                    Some(_) => {
                        let ret = account.clone();
                        accounts.insert(account.id, account);
                        proof {
                            old(self).model().update_account_keeps_valid(account);
                            assert(self.accounts() =~~= old(self).model().update_account(
                                account,
                            ).accounts);
                        }
                        Ok(ret)
                    },
                    None => {
                        proof {
                            assert(self.accounts() =~~= old(self).accounts());
                        }
                        Err(NOT_FOUND)
                    },
                }
            },
            Entry::Vacant(_) => {
                proof {
                    assert(self.accounts() =~~= old(self).accounts());
                }
                Err(CLIENT_NOT_FOUND)
            },
        }
    }

    fn delete_client(&mut self, client: BankClient) -> (deleted: bool) {
        match self.client_data.get(&client.id) {
            Some(_) => {
                self.client_data.remove(&client.id);
                self.account_data.remove(&client.id);
                proof {
                    old(self).model().delete_client_keeps_valid(client.id);
                    assert(self.accounts() =~~= old(self).model().delete_client(
                        client.id,
                    ).accounts);
                }
                true
            },
            None => false,
        }
    }

    fn delete_account(&mut self, account: Account) -> (deleted: bool) {
        match self.account_data.entry(account.client_id) {
            Entry::Occupied(mut slot) => {
                let accounts = slot.get_mut();
                match accounts.remove(&account.id) {
                    Some(_) => {
                        proof {
                            old(self).model().delete_account_keeps_valid(
                                account.client_id,
                                account.id,
                            );
                            assert(self.accounts() =~~= old(self).model().delete_account(
                                account.client_id,
                                account.id,
                            ).accounts);
                        }
                        true
                    },
                    None => {
                        proof {
                            assert(self.accounts() =~~= old(self).accounts());
                        }
                        false
                    },
                }
            },
            Entry::Vacant(_) => {
                proof {
                    assert(self.accounts() =~~= old(self).accounts());
                }
                false
            },
        }
    }
}

} // verus!
