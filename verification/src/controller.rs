//! What a request handler decides before it turns to the store: which record
//! a request names. An identifier taken from the path always replaces the one
//! in the request body.

use crate::entities::{Account, BankClient};
use crate::error::DBError;
use vstd::prelude::*;

verus! {

/// The connection that a pool handed out, or why it handed out none.
pub fn connection<C>(checkout: Result<C, deadpool_postgres::PoolError>) -> (got: Result<
    C,
    DBError,
>)
    ensures
        got == match checkout {
            Ok(client) => Ok::<C, DBError>(client),
            Err(error) => Err::<C, DBError>(DBError::PoolError(error)),
        },
{
    match checkout {
        Ok(client) => Ok(client),
        Err(error) => Err(DBError::from(error)),
    }
}

/// The account to create for `POST /clients/{client_id}/accounts`: the
/// balance of the body under the client of the path, with no identifier yet.
pub fn create_account(client_id: i32, body: Account) -> (account: Account)
    ensures
        account == (Account { id: 0, amount_in_cents: body.amount_in_cents, client_id }),
{
    let mut acc = body;
    acc.client_id = client_id;
    acc.id = 0;
    acc
}

/// The account that `GET /clients/{client_id}/accounts/{account_id}` names.
/// Only the two identifiers matter; the balance is a placeholder.
pub fn get_account(client_id: i32, account_id: i32) -> (account: Account)
    ensures
        account == (Account { id: account_id, amount_in_cents: 0, client_id }),
{
    Account { id: account_id, client_id, amount_in_cents: 0 }
}

/// The account that `DELETE /clients/{client_id}/accounts/{account_id}`
/// names. Only the two identifiers matter; the balance is a placeholder.
pub fn delete_account(client_id: i32, account_id: i32) -> (account: Account)
    ensures
        account == (Account { id: account_id, amount_in_cents: 0, client_id }),
{
    Account { id: account_id, client_id, amount_in_cents: 0 }
}

/// The record to store for `PUT /clients/{client_id}`: the username of the
/// body under the identifier of the path.
pub fn update_client(client_id: i32, body: BankClient) -> (client: BankClient)
    ensures
        client == (BankClient { id: client_id, username: body.username }),
{
    let mut client = body;
    client.id = client_id;
    client
}

/// The record to store for `PUT /clients/{client_id}/accounts/{account_id}`:
/// the balance of the body under the two identifiers of the path.
pub fn update_account(client_id: i32, account_id: i32, body: Account) -> (account: Account)
    ensures
        account == (Account { id: account_id, amount_in_cents: body.amount_in_cents, client_id }),
{
    let mut account = body;
    account.client_id = client_id;
    account.id = account_id;
    account
}

} // verus!
