//! The relational store: one parameterised statement per operation against
//! the tables `bank_client` and `bank_account`, and the reading of the rows
//! that come back.
//!
//! Nothing here talks to a database. A caller sends the statement over its
//! connection, turns each row into a record and hands the outcome back.
//! Identifiers are assigned by the database, so the identifier in a record to
//! be created is never sent.

use crate::entities::{Account, BankClient};
use crate::error::DBError;
use vstd::prelude::*;
use vstd::string::*;

verus! {

/// One value bound to a placeholder of a statement.
#[derive(Debug, PartialEq, Eq)]
pub enum Param {
    Int(i32),
    Text(String),
}

/// A statement with the values for its placeholders: the first value is bound
/// to `$1`, the second to `$2`, and so on.
#[derive(Debug)]
pub struct Statement {
    pub text: String,
    pub params: Vec<Param>,
}

/// Lists every row of `bank_client`.
pub const SELECT_CLIENTS: &'static str = "SELECT * FROM bank_client;";

/// Reads one row of `bank_client` by its key.
pub const SELECT_CLIENT: &'static str = "SELECT * FROM bank_client WHERE client_id = $1;";

/// Lists the rows of `bank_account` that belong to one client.
pub const SELECT_ACCOUNTS: &'static str = "SELECT * FROM bank_account WHERE client_id = $1;";

/// Reads one row of `bank_account` by client and key.
pub const SELECT_ACCOUNT: &'static str =
    "SELECT * FROM bank_account WHERE client_id = $1 AND account_id = $2;";

/// Head of the insert into `bank_client`; the columns to return follow.
pub const INSERT_CLIENT: &'static str = "INSERT INTO bank_client (username) values ($1) RETURNING ";

/// Head of the insert into `bank_account`; the columns to return follow.
pub const INSERT_ACCOUNT: &'static str =
    "INSERT INTO bank_account (amount_in_cents, client_id) values ($1, $2) RETURNING ";

/// Head of the delete from `bank_client`; the columns to return follow.
pub const DELETE_CLIENT: &'static str = "DELETE FROM bank_client WHERE client_id = $1 RETURNING ";

/// Head of the delete from `bank_account`; the columns to return follow.
pub const DELETE_ACCOUNT: &'static str =
    "DELETE FROM bank_account WHERE client_id = $1 AND account_id = $2 RETURNING ";

/// Head of the update of `bank_client`; the columns to return follow.
pub const UPDATE_CLIENT: &'static str =
    "UPDATE bank_client SET username = $1 WHERE client_id = $2 RETURNING ";

/// Head of the update of `bank_account`; the columns to return follow.
pub const UPDATE_ACCOUNT: &'static str =
    "UPDATE bank_account SET amount_in_cents = $1 WHERE client_id = $2 AND account_id = $3 RETURNING ";

/// What ends a statement.
pub const END: &'static str = ";";

/// The text of a statement that changes rows and hands them back in the same
/// round trip: `head`, then the columns to return, then the terminator.
pub open spec fn returning(head: Seq<char>, table_fields: Seq<char>) -> Seq<char> {
    head + table_fields + END@
}

/// Builds the text of such a statement.
fn returning_text(head: &str, table_fields: &str) -> (text: String)
    ensures
        text@ == returning(head@, table_fields@),
{
    let mut text = String::from_str(head);
    text.append(table_fields);
    text.append(END);
    text
}

/// Lists all clients.
pub fn get_all_clients() -> (statement: Statement)
    ensures
        statement.text@ == SELECT_CLIENTS@,
        statement.params@ == Seq::<Param>::empty(),
{
    Statement { text: String::from_str(SELECT_CLIENTS), params: Vec::new() }
}

/// Inserts a client and returns the new row. `table_fields` names the columns
/// of `bank_client` to return.
pub fn create_client(table_fields: &str, new_client: &BankClient) -> (statement: Statement)
    ensures
        statement.text@ == returning(INSERT_CLIENT@, table_fields@),
        statement.params@ == seq![Param::Text(new_client.username)],
{
    let mut params = Vec::new();
    params.push(Param::Text(new_client.username.clone()));
    Statement { text: returning_text(INSERT_CLIENT, table_fields), params }
}

/// Reads the client with this identifier.
pub fn get_client(id: i32) -> (statement: Statement)
    ensures
        statement.text@ == SELECT_CLIENT@,
        statement.params@ == seq![Param::Int(id)],
{
    let mut params = Vec::new();
    params.push(Param::Int(id));
    Statement { text: String::from_str(SELECT_CLIENT), params }
}

/// Inserts an account for `account`'s client and returns the new row.
/// `table_fields` names the columns of `bank_account` to return.
pub fn create_account(table_fields: &str, account: &Account) -> (statement: Statement)
    ensures
        statement.text@ == returning(INSERT_ACCOUNT@, table_fields@),
        statement.params@ == seq![Param::Int(account.amount_in_cents), Param::Int(account.client_id)],
{
    let mut params = Vec::new();
    params.push(Param::Int(account.amount_in_cents));
    params.push(Param::Int(account.client_id));
    Statement { text: returning_text(INSERT_ACCOUNT, table_fields), params }
}

/// Lists the accounts of the client with this identifier.
pub fn get_accounts(id: i32) -> (statement: Statement)
    ensures
        statement.text@ == SELECT_ACCOUNTS@,
        statement.params@ == seq![Param::Int(id)],
{
    let mut params = Vec::new();
    params.push(Param::Int(id));
    Statement { text: String::from_str(SELECT_ACCOUNTS), params }
}

/// Reads the account with `account`'s identifier under `account`'s client.
pub fn get_account(account: &Account) -> (statement: Statement)
    ensures
        statement.text@ == SELECT_ACCOUNT@,
        statement.params@ == seq![Param::Int(account.client_id), Param::Int(account.id)],
{
    let mut params = Vec::new();
    params.push(Param::Int(account.client_id));
    params.push(Param::Int(account.id));
    Statement { text: String::from_str(SELECT_ACCOUNT), params }
}

/// Deletes the client with this identifier and returns the deleted row.
pub fn delete_client(table_fields: &str, id: i32) -> (statement: Statement)
    ensures
        statement.text@ == returning(DELETE_CLIENT@, table_fields@),
        statement.params@ == seq![Param::Int(id)],
{
    let mut params = Vec::new();
    params.push(Param::Int(id));
    Statement { text: returning_text(DELETE_CLIENT, table_fields), params }
}

/// Deletes the account with `account`'s identifier under `account`'s client
/// and returns the deleted row.
pub fn delete_account(table_fields: &str, account: &Account) -> (statement: Statement)
    ensures
        statement.text@ == returning(DELETE_ACCOUNT@, table_fields@),
        statement.params@ == seq![Param::Int(account.client_id), Param::Int(account.id)],
{
    let mut params = Vec::new();
    params.push(Param::Int(account.client_id));
    params.push(Param::Int(account.id));
    Statement { text: returning_text(DELETE_ACCOUNT, table_fields), params }
}

/// Replaces the username of the client with `updated_client`'s identifier and
/// returns the new row.
pub fn update_client(table_fields: &str, updated_client: &BankClient) -> (statement: Statement)
    ensures
        statement.text@ == returning(UPDATE_CLIENT@, table_fields@),
        statement.params@ == seq![
            Param::Text(updated_client.username),
            Param::Int(updated_client.id),
        ],
{
    let mut params = Vec::new();
    params.push(Param::Text(updated_client.username.clone()));
    params.push(Param::Int(updated_client.id));
    Statement { text: returning_text(UPDATE_CLIENT, table_fields), params }
}

/// Replaces the balance of the account with `updated_account`'s identifier
/// under `updated_account`'s client and returns the new row.
pub fn update_account(table_fields: &str, updated_account: &Account) -> (statement: Statement)
    ensures
        statement.text@ == returning(UPDATE_ACCOUNT@, table_fields@),
        statement.params@ == seq![
            Param::Int(updated_account.amount_in_cents),
            Param::Int(updated_account.client_id),
            Param::Int(updated_account.id),
        ],
{
    let mut params = Vec::new();
    params.push(Param::Int(updated_account.amount_in_cents));
    params.push(Param::Int(updated_account.client_id));
    params.push(Param::Int(updated_account.id));
    Statement { text: returning_text(UPDATE_ACCOUNT, table_fields), params }
}

/// What the outcome of a statement that targets one row means: the database's
/// error if it failed, `NotFound` if no row came back, else the last row.
pub open spec fn row_of<T>(outcome: Result<Vec<T>, tokio_postgres::Error>) -> Result<T, DBError> {
    match outcome {
        Err(error) => Err(DBError::PGError(error)),
        Ok(rows) => if rows@.len() == 0 {
            Err(DBError::NotFound)
        } else {
            Ok(rows@.last())
        },
    }
}

/// What the outcome of a listing means: the database's error if it failed,
/// else all rows, in the order they came.
pub open spec fn rows_of<T>(outcome: Result<Vec<T>, tokio_postgres::Error>) -> Result<
    Seq<T>,
    DBError,
> {
    match outcome {
        Err(error) => Err(DBError::PGError(error)),
        Ok(rows) => Ok(rows@),
    }
}

/// Reads the outcome of a statement that targets one row: an insert, a read
/// by key, an update or a delete. That no row came back is how a missing
/// entity shows; there is no separate check that it exists.
pub fn returned_row<T>(outcome: Result<Vec<T>, tokio_postgres::Error>) -> (row: Result<T, DBError>)
    ensures
        row == row_of(outcome),
{
    match outcome {
        Ok(rows) => {
            let mut rows = rows;
            match rows.pop() {
                Some(row) => Ok(row),
                None => Err(DBError::NotFound),
            }
        },
        Err(error) => Err(DBError::from(error)),
    }
}

/// Reads the outcome of a listing. An empty list is a result, not an error.
pub fn returned_rows<T>(outcome: Result<Vec<T>, tokio_postgres::Error>) -> (rows: Result<
    Vec<T>,
    DBError,
>)
    ensures
        rows_of(outcome) == match rows {
            Ok(list) => Ok::<Seq<T>, DBError>(list@),
            Err(error) => Err::<Seq<T>, DBError>(error),
        },
{
    match outcome {
        Ok(rows) => Ok(rows),
        Err(error) => Err(DBError::from(error)),
    }
}

} // verus!
