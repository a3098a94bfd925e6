//! The storage interface, and the stores that implement it.

use crate::entities::{Account, BankClient};
use std::collections::HashMap;
use vstd::prelude::*;

pub mod in_memory;
pub mod laws;
pub mod model;
pub mod relational;

verus! {

/// The error code of an entity that is not stored.
pub const NOT_FOUND: i32 = -1;

/// The error code of an account operation whose client is not stored, where
/// that is told apart from a missing account.
pub const CLIENT_NOT_FOUND: i32 = -2;

/// Create, read, update and delete for clients and accounts, whatever holds
/// the data. Every operation is stated over the store's abstract state.
pub trait DAO {
    /// The abstract state this store stands for.
    spec fn model(&self) -> model::Bank;

    /// Stores a new client under a fresh identifier and returns the stored
    /// record. The identifier in `client` is ignored.
    fn create_client(&mut self, client: BankClient) -> (created: BankClient)
        requires
            old(self).model().valid(),
            old(self).model().can_create_client(),
        ensures
            final(self).model().valid(),
            final(self).model() == old(self).model().create_client(client),
            created == old(self).model().new_client(client),
    ;

    /// Stores a new account under a fresh identifier, provided its client is
    /// stored, and returns the stored record. The identifier in `account` is
    /// ignored. Without the client nothing changes.
    fn create_account(&mut self, account: Account) -> (created: Result<Account, i32>)
        requires
            old(self).model().valid(),
            old(self).model().can_create_account(account),
        ensures
            final(self).model().valid(),
            final(self).model() == old(self).model().create_account(account),
            created == old(self).model().create_account_result(account),
    ;

    /// All clients, keyed by identifier.
    fn get_all_clients(&self) -> (clients: &HashMap<i32, BankClient>)
        requires
            self.model().valid(),
        ensures
            clients@ == self.model().clients,
    ;

    /// The client with this identifier.
    fn get_client(&self, id: i32) -> (found: Result<&BankClient, i32>)
        requires
            self.model().valid(),
        ensures
            self.model().get_client(id) == match found {
                Ok(client) => Ok::<BankClient, i32>(*client),
                Err(code) => Err::<BankClient, i32>(code),
            },
    ;

    /// The accounts of the client with this identifier, keyed by account
    /// identifier: an empty map for a client without accounts, an error for a
    /// client that is not stored.
    fn get_accounts(&self, id: i32) -> (found: Result<&HashMap<i32, Account>, i32>)
        requires
            self.model().valid(),
        ensures
            self.model().get_accounts(id) == match found {
                Ok(accounts) => Ok::<Map<i32, Account>, i32>(accounts@),
                Err(code) => Err::<Map<i32, Account>, i32>(code),
            },
    ;

    /// One account of one client.
    fn get_account(&self, client_id: i32, account_id: i32) -> (found: Result<&Account, i32>)
        requires
            self.model().valid(),
        ensures
            self.model().get_account(client_id, account_id) == match found {
                Ok(account) => Ok::<Account, i32>(*account),
                Err(code) => Err::<Account, i32>(code),
            },
    ;

    /// Replaces the record of the client with `client`'s identifier.
    fn update_client(&mut self, client: BankClient) -> (updated: Result<BankClient, i32>)
        requires
            old(self).model().valid(),
        ensures
            final(self).model().valid(),
            final(self).model() == old(self).model().update_client(client),
            updated == old(self).model().update_client_result(client),
    ;

    /// Replaces the record of the account with `account`'s identifier under
    /// `account`'s client.
    fn update_account(&mut self, account: Account) -> (updated: Result<Account, i32>)
        requires
            old(self).model().valid(),
        ensures
            final(self).model().valid(),
            final(self).model() == old(self).model().update_account(account),
            updated == old(self).model().update_account_result(account),
    ;

    /// Deletes the client with `client`'s identifier together with all its
    /// accounts, and says whether there was such a client.
    fn delete_client(&mut self, client: BankClient) -> (deleted: bool)
        requires
            old(self).model().valid(),
        ensures
            final(self).model().valid(),
            final(self).model() == old(self).model().delete_client(client.id),
            deleted == old(self).model().has_client(client.id),
    ;

    /// Deletes the account with `account`'s identifier from `account`'s
    /// client, and says whether there was such an account.
    fn delete_account(&mut self, account: Account) -> (deleted: bool)
        requires
            old(self).model().valid(),
        ensures
            final(self).model().valid(),
            final(self).model() == old(self).model().delete_account(
                account.client_id,
                account.id,
            ),
            deleted == old(self).model().has_account(account.client_id, account.id),
    ;
}

/// A store to start from: empty, and in memory.
pub fn get_dao() -> (dao: impl DAO)
    ensures
        dao.model() == model::Bank::empty(),
        dao.model().valid(),
{
    in_memory::Memory::new()
}

} // verus!
