//! The record that a request names: path identifiers replace those of the
//! request body.

use bank_api::controller::{
    connection, create_account, delete_account, get_account, update_account, update_client,
};
use bank_api::entities::{Account, BankClient};
use bank_api::error::DBError;

#[test]
fn create_account_takes_client_from_path() {
    let body = Account { id: 55, amount_in_cents: 1200, client_id: 66 };
    let account = create_account(3, body);
    assert_eq!(account.id, 0);
    assert_eq!(account.client_id, 3);
    assert_eq!(account.amount_in_cents, 1200);
}

#[test]
fn get_account_names_account_by_path() {
    let account = get_account(3, 9);
    assert_eq!((account.client_id, account.id, account.amount_in_cents), (3, 9, 0));
}

#[test]
fn delete_account_names_account_by_path() {
    let account = delete_account(4, 8);
    assert_eq!((account.client_id, account.id, account.amount_in_cents), (4, 8, 0));
}

#[test]
fn update_client_takes_identifier_from_path() {
    let body = BankClient { id: 55, username: String::from("grace") };
    let client = update_client(3, body);
    assert_eq!(client.id, 3);
    assert_eq!(client.username, "grace");
}

#[test]
fn update_account_takes_identifiers_from_path() {
    let body = Account { id: 55, amount_in_cents: -75, client_id: 66 };
    let account = update_account(3, 9, body);
    assert_eq!((account.client_id, account.id, account.amount_in_cents), (3, 9, -75));
}

#[test]
fn connection_is_handed_on() {
    let checkout: Result<i32, deadpool_postgres::PoolError> = Ok(17);
    assert_eq!(connection(checkout).unwrap(), 17);
}

#[test]
fn failed_checkout_is_pool_error() {
    let checkout: Result<i32, deadpool_postgres::PoolError> =
        Err(deadpool_postgres::PoolError::Closed);
    assert!(matches!(
        connection(checkout),
        Err(DBError::PoolError(deadpool_postgres::PoolError::Closed))
    ));
}
