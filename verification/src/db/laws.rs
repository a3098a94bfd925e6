//! What holds of every valid store, whatever was done to it before. Each
//! statement is over the abstract state, which every operation of the storage
//! interface is bound to by its contract.

use crate::db::model::Bank;
use crate::db::{CLIENT_NOT_FOUND, NOT_FOUND};
use crate::entities::{Account, BankClient};
use vstd::prelude::*;

verus! {

/// The account that `amount` becomes when it is requested for `client_id`.
pub open spec fn request(client_id: i32, amount: i32) -> Account {
    Account { id: 0, amount_in_cents: amount, client_id }
}

impl Bank {
    /// The state after one account per entry of `amounts` was created for
    /// `client_id`, in order.
    pub open spec fn create_accounts(self, client_id: i32, amounts: Seq<i32>) -> Bank
        decreases amounts.len(),
    {
        if amounts.len() == 0 {
            self
        } else {
            self.create_accounts(client_id, amounts.drop_last()).create_account(
                request(client_id, amounts.last()),
            )
        }
    }
}

/// A new client's identifier is never zero and belongs to no stored client,
/// and two clients created one after the other get different identifiers.
pub proof fn client_identifiers_are_fresh(bank: Bank, first: BankClient, second: BankClient)
    requires
        bank.valid(),
        bank.can_create_client(),
        bank.create_client(first).can_create_client(),
    ensures
        bank.new_client(first).id != 0,
        !bank.has_client(bank.new_client(first).id),
        bank.create_client(first).new_client(second).id != 0,
        bank.create_client(first).new_client(second).id != bank.new_client(first).id,
{
}

/// An account for a client that is not stored is refused, and the store stays
/// as it was.
pub proof fn account_without_client_is_refused(bank: Bank, account: Account)
    requires
        bank.valid(),
        !bank.has_client(account.client_id),
    ensures
        bank.create_account_result(account) is Err,
        bank.create_account(account) == bank,
{
}

/// An account for a stored client is created: it carries that client's
/// identifier and the requested balance, and an identifier that is not zero
/// and that no account of any client had before.
pub proof fn account_for_client_is_created(bank: Bank, account: Account)
    requires
        bank.valid(),
        bank.can_create_account(account),
        bank.has_client(account.client_id),
    ensures
        bank.create_account_result(account) == Ok::<Account, i32>(bank.new_account(account)),
        bank.new_account(account).client_id == account.client_id,
        bank.new_account(account).amount_in_cents == account.amount_in_cents,
        bank.new_account(account).id != 0,
        forall|c: i32| !bank.has_account(c, bank.new_account(account).id),
        bank.create_account(account).get_account(
            account.client_id,
            bank.new_account(account).id,
        ) == Ok::<Account, i32>(bank.new_account(account)),
{
    let id = bank.new_account(account).id;
    assert forall|c: i32| !bank.has_account(c, id) by {}
    assert(bank.accounts.dom().contains(account.client_id));
}

/// An identifier that no creation has handed out names no client: zero, a
/// negative number, or a number above the client counter.
pub proof fn unknown_client_is_not_found(bank: Bank, id: i32)
    requires
        bank.valid(),
        id <= 0 || id > bank.client_count,
    ensures
        bank.get_client(id) == Err::<BankClient, i32>(NOT_FOUND),
        bank.get_accounts(id) == Err::<Map<i32, Account>, i32>(NOT_FOUND),
{
}

/// A client that was just created can be read back: the record has the new
/// identifier and the username that was given.
pub proof fn created_client_is_found(bank: Bank, client: BankClient)
    requires
        bank.valid(),
        bank.can_create_client(),
    ensures
        bank.create_client(client).get_client(bank.new_client(client).id) == Ok::<BankClient, i32>(
            bank.new_client(client),
        ),
        bank.new_client(client).username == client.username,
{
}

/// Listing the accounts of a client that has none gives an empty map, not an
/// error. A client that was just created is such a client.
pub proof fn new_client_has_no_accounts(bank: Bank, client: BankClient)
    requires
        bank.valid(),
        bank.can_create_client(),
    ensures
        bank.create_client(client).get_accounts(bank.new_client(client).id) == Ok::<
            Map<i32, Account>,
            i32,
        >(Map::empty()),
{
    let next = bank.create_client(client);
    let id = bank.new_client(client).id;
    assert(next.accounts[id] =~= Map::<i32, Account>::empty());
}

/// After one account per entry of `amounts` was created for a stored client,
/// the store is valid, the counter has grown by their number, the client has
/// the accounts it had before and, for each entry, one more: the `i`-th new
/// account has the `i`-th identifier after the old counter and the `i`-th
/// balance. A client that had no accounts has exactly as many as were created.
pub proof fn created_accounts_are_listed(bank: Bank, client_id: i32, amounts: Seq<i32>)
    requires
        bank.valid(),
        bank.has_client(client_id),
        bank.account_count + amounts.len() <= i32::MAX,
    ensures
        bank.create_accounts(client_id, amounts).valid(),
        bank.create_accounts(client_id, amounts).clients == bank.clients,
        bank.create_accounts(client_id, amounts).account_count == bank.account_count
            + amounts.len(),
        bank.create_accounts(client_id, amounts).get_accounts(client_id) is Ok,
        forall|a: i32|
            bank.create_accounts(client_id, amounts).has_account(client_id, a) <==> (
            bank.has_account(client_id, a) || bank.account_count < a <= bank.account_count
                + amounts.len()),
        forall|a: i32| #[trigger]
            bank.has_account(client_id, a) ==> bank.create_accounts(
                client_id,
                amounts,
            ).accounts[client_id][a] == bank.accounts[client_id][a],
        forall|i: int|
            0 <= i < amounts.len() ==> (#[trigger] bank.create_accounts(
                client_id,
                amounts,
            ).accounts[client_id][(bank.account_count + 1 + i) as i32]) == (Account {
                id: (bank.account_count + 1 + i) as i32,
                amount_in_cents: amounts[i],
                client_id,
            }),
        bank.accounts[client_id].len() == 0 ==> bank.create_accounts(
            client_id,
            amounts,
        ).accounts[client_id].len() == amounts.len(),
    decreases amounts.len(),
{
    let after = bank.create_accounts(client_id, amounts);
    assert(bank.accounts.dom().contains(client_id));
    if amounts.len() == 0 {
        assert(bank.accounts[client_id].len() == 0 ==> after.accounts[client_id].len() == 0);
    } else {
        let before = bank.create_accounts(client_id, amounts.drop_last());
        let asked = request(client_id, amounts.last());
        let stored = before.new_account(asked);
        created_accounts_are_listed(bank, client_id, amounts.drop_last());
        before.create_account_keeps_valid(asked);
        assert(before.has_client(client_id));
        assert(before.accounts.dom().contains(client_id));
        assert(after.accounts[client_id] == before.accounts[client_id].insert(stored.id, stored));
        assert(stored.id == bank.account_count + amounts.len());
        assert forall|a: i32|
            after.has_account(client_id, a) <==> (bank.has_account(client_id, a)
                || bank.account_count < a <= bank.account_count + amounts.len()) by {
            if a != stored.id {
                assert(after.has_account(client_id, a) == before.has_account(client_id, a));
            }
        }
        assert forall|a: i32| #[trigger] bank.has_account(client_id, a) implies after.accounts[client_id][a]
            == bank.accounts[client_id][a] by {
            assert(a != stored.id);
        }
        assert forall|i: int| 0 <= i < amounts.len() implies (#[trigger] after.accounts[client_id][(
        bank.account_count + 1 + i) as i32]) == (Account {
            id: (bank.account_count + 1 + i) as i32,
            amount_in_cents: amounts[i],
            client_id,
        }) by {
            if i < amounts.len() - 1 {
                assert(amounts.drop_last()[i] == amounts[i]);
                assert(before.accounts[client_id][(bank.account_count + 1 + i) as i32] == (Account {
                    id: (bank.account_count + 1 + i) as i32,
                    amount_in_cents: amounts.drop_last()[i],
                    client_id,
                }));
            }
        }
        if bank.accounts[client_id].len() == 0 {
            assert(!before.accounts[client_id].contains_key(stored.id)) by {
                assert(!before.has_account(client_id, stored.id));
            }
            assert(before.accounts[client_id].dom().finite());
        }
    }
}

/// Replacing the record of a stored client changes the stored username and
/// nothing else: the identifier, every other client and every account stay.
/// Replacing the record of a client that is not stored fails and changes
/// nothing.
pub proof fn update_client_replaces_username(bank: Bank, client: BankClient)
    requires
        bank.valid(),
    ensures
        bank.has_client(client.id) ==> {
            &&& bank.update_client_result(client) == Ok::<BankClient, i32>(client)
            &&& bank.update_client(client).get_client(client.id) == Ok::<BankClient, i32>(client)
            &&& bank.update_client(client).clients[client.id].id == bank.clients[client.id].id
            &&& bank.update_client(client).clients[client.id].username == client.username
        },
        !bank.has_client(client.id) ==> {
            &&& bank.update_client_result(client) == Err::<BankClient, i32>(NOT_FOUND)
            &&& bank.update_client(client) == bank
        },
        forall|other: i32|
            other != client.id ==> bank.update_client(client).get_client(other) == bank.get_client(
                other,
            ),
        bank.update_client(client).accounts == bank.accounts,
{
}

/// Replacing the record of an account succeeds exactly when the client is
/// stored and owns the account; the stored balance is then the new one.
/// Otherwise it fails, with one code for a missing client and another for a
/// missing account, and changes nothing.
pub proof fn update_account_needs_client_and_account(bank: Bank, account: Account)
    requires
        bank.valid(),
    ensures
        bank.update_account_result(account) is Ok <==> bank.has_client(account.client_id)
            && bank.has_account(account.client_id, account.id),
        bank.update_account_result(account) is Ok ==> bank.update_account(account).get_account(
            account.client_id,
            account.id,
        ) == Ok::<Account, i32>(account),
        !bank.has_client(account.client_id) ==> bank.update_account_result(account) == Err::<
            Account,
            i32,
        >(CLIENT_NOT_FOUND),
        bank.update_account_result(account) is Err ==> bank.update_account(account) == bank,
{
    assert(bank.has_account(account.client_id, account.id) ==> bank.accounts.dom().contains(
        account.client_id,
    ));
}

/// Deleting a stored client removes it and all its accounts: reading the
/// client, listing its accounts and reading any of them fail afterwards, and
/// every other client keeps its record and its accounts. Deleting a client
/// that is not stored changes nothing.
pub proof fn delete_client_cascades(bank: Bank, client_id: i32)
    requires
        bank.valid(),
    ensures
        bank.delete_client(client_id).get_client(client_id) is Err,
        bank.delete_client(client_id).get_accounts(client_id) is Err,
        forall|a: i32| !bank.delete_client(client_id).has_account(client_id, a),
        forall|other: i32|
            other != client_id ==> {
                &&& bank.delete_client(client_id).get_client(other) == bank.get_client(other)
                &&& bank.delete_client(client_id).get_accounts(other) == bank.get_accounts(other)
            },
        !bank.has_client(client_id) ==> bank.delete_client(client_id) == bank,
{
}

/// Deleting an account removes that account and no other: every other account
/// of the same client, and every account of every other client, can still be
/// read and is unchanged. Deleting an account that is not stored changes
/// nothing.
pub proof fn delete_account_spares_siblings(bank: Bank, client_id: i32, account_id: i32)
    requires
        bank.valid(),
    ensures
        !bank.delete_account(client_id, account_id).has_account(client_id, account_id),
        forall|c: i32, a: i32|
            !(c == client_id && a == account_id) ==> bank.delete_account(
                client_id,
                account_id,
            ).get_account(c, a) == bank.get_account(c, a),
        bank.delete_account(client_id, account_id).clients == bank.clients,
        !bank.has_account(client_id, account_id) ==> bank.delete_account(client_id, account_id)
            == bank,
{
}

/// What is created can be read back field for field, but for the identifier,
/// which the store assigns.
pub proof fn create_then_read_round_trips(bank: Bank, client: BankClient, account: Account)
    requires
        bank.valid(),
        bank.can_create_client(),
        bank.can_create_account(account),
    ensures
        bank.create_client(client).get_client(bank.new_client(client).id) matches Ok(read)
            && read.username == client.username,
        bank.has_client(account.client_id) ==> (bank.create_account(account).get_account(
            account.client_id,
            bank.new_account(account).id,
        ) matches Ok(read) && read.amount_in_cents == account.amount_in_cents && read.client_id
            == account.client_id),
{
    if bank.has_client(account.client_id) {
        assert(bank.accounts.dom().contains(account.client_id));
    }
}

} // verus!
