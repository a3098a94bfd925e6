//! The in-memory store on concrete values: identifiers, error codes, and what
//! each operation leaves behind.

use bank_api::db::in_memory::Memory;
use bank_api::db::{get_dao, CLIENT_NOT_FOUND, DAO, NOT_FOUND};
use bank_api::entities::{Account, BankClient};

fn client(username: &str) -> BankClient {
    BankClient { id: 0, username: String::from(username) }
}

fn account(client_id: i32, amount_in_cents: i32) -> Account {
    Account { id: 0, amount_in_cents, client_id }
}

#[test]
fn new_store_is_empty() {
    let db = Memory::new();
    assert_eq!(db.client_count, 0);
    assert_eq!(db.account_count, 0);
    assert!(db.client_data.is_empty());
    assert!(db.account_data.is_empty());
    assert_eq!(db.get_all_clients().len(), 0);
}

#[test]
fn get_dao_starts_empty() {
    let db = get_dao();
    assert_eq!(db.get_all_clients().len(), 0);
    assert!(matches!(db.get_client(1), Err(NOT_FOUND)));
}

#[test]
fn error_codes_are_distinct() {
    assert_eq!(NOT_FOUND, -1);
    assert_eq!(CLIENT_NOT_FOUND, -2);
}

#[test]
fn client_identifiers_count_up_from_one() {
    let mut db = Memory::new();
    let first = db.create_client(client("ada"));
    let second = db.create_client(client("grace"));
    assert_eq!(first.id, 1);
    assert_eq!(second.id, 2);
    assert_ne!(first.id, second.id);
    assert_eq!(db.client_count, 2);
}

#[test]
fn supplied_client_identifier_is_ignored() {
    let mut db = Memory::new();
    let created = db.create_client(BankClient { id: 77, username: String::from("ada") });
    assert_eq!(created.id, 1);
    assert_eq!(created.username, "ada");
    assert!(db.get_client(77).is_err());
    assert_eq!(db.get_client(1).unwrap().username, "ada");
}

#[test]
fn usernames_need_not_be_unique() {
    let mut db = Memory::new();
    let first = db.create_client(client("ada"));
    let second = db.create_client(client("ada"));
    assert_ne!(first.id, second.id);
    assert_eq!(db.get_all_clients().len(), 2);
}

#[test]
fn account_without_client_leaves_store_unchanged() {
    let mut db = Memory::new();
    let owner = db.create_client(client("ada"));
    db.create_account(account(owner.id, 10)).unwrap();
    let refused = db.create_account(account(owner.id + 1, 20));
    assert_eq!(refused.unwrap_err(), NOT_FOUND);
    assert_eq!(db.account_count, 1);
    assert_eq!(db.client_count, 1);
    assert_eq!(db.get_accounts(owner.id).unwrap().len(), 1);
    assert!(db.get_accounts(owner.id + 1).is_err());
    // the refused request took no identifier
    let next = db.create_account(account(owner.id, 30)).unwrap();
    assert_eq!(next.id, 2);
}

#[test]
fn account_identifiers_are_shared_by_all_clients() {
    let mut db = Memory::new();
    let ada = db.create_client(client("ada"));
    let grace = db.create_client(client("grace"));
    let first = db.create_account(account(ada.id, 1)).unwrap();
    let second = db.create_account(account(grace.id, 2)).unwrap();
    let third = db.create_account(account(ada.id, 3)).unwrap();
    assert_eq!((first.id, second.id, third.id), (1, 2, 3));
    assert_eq!(db.get_accounts(ada.id).unwrap().len(), 2);
    assert_eq!(db.get_accounts(grace.id).unwrap().len(), 1);
}

#[test]
fn supplied_account_identifier_is_ignored() {
    let mut db = Memory::new();
    let owner = db.create_client(client("ada"));
    let created =
        db.create_account(Account { id: 99, amount_in_cents: -250, client_id: owner.id }).unwrap();
    assert_eq!(created.id, 1);
    assert_eq!(created.amount_in_cents, -250);
    assert_eq!(created.client_id, owner.id);
}

#[test]
fn unknown_client_is_not_found() {
    let mut db = Memory::new();
    db.create_client(client("ada"));
    assert_eq!(db.get_client(0).err(), Some(NOT_FOUND));
    assert_eq!(db.get_client(-1).err(), Some(NOT_FOUND));
    assert_eq!(db.get_client(2).err(), Some(NOT_FOUND));
    assert_eq!(db.get_accounts(2).err(), Some(NOT_FOUND));
}

#[test]
fn get_account_tells_missing_client_from_missing_account() {
    let mut db = Memory::new();
    let owner = db.create_client(client("ada"));
    let held = db.create_account(account(owner.id, 500)).unwrap();
    let found = db.get_account(owner.id, held.id).unwrap();
    assert_eq!(found.id, held.id);
    assert_eq!(found.amount_in_cents, 500);
    assert_eq!(found.client_id, owner.id);
    assert_eq!(db.get_account(owner.id, held.id + 1).err(), Some(NOT_FOUND));
    assert_eq!(db.get_account(owner.id + 1, held.id).err(), Some(CLIENT_NOT_FOUND));
}

#[test]
fn update_client_replaces_username_only() {
    let mut db = Memory::new();
    let ada = db.create_client(client("ada"));
    let grace = db.create_client(client("grace"));
    db.create_account(account(ada.id, 5)).unwrap();
    let updated =
        db.update_client(BankClient { id: ada.id, username: String::from("lovelace") }).unwrap();
    assert_eq!(updated.id, ada.id);
    assert_eq!(updated.username, "lovelace");
    let stored = db.get_client(ada.id).unwrap();
    assert_eq!(stored.id, ada.id);
    assert_eq!(stored.username, "lovelace");
    assert_eq!(db.get_client(grace.id).unwrap().username, "grace");
    assert_eq!(db.get_accounts(ada.id).unwrap().len(), 1);
    assert_eq!(db.get_all_clients().len(), 2);
}

#[test]
fn update_of_unknown_client_changes_nothing() {
    let mut db = Memory::new();
    let ada = db.create_client(client("ada"));
    let refused = db.update_client(BankClient { id: ada.id + 1, username: String::from("x") });
    assert_eq!(refused.err(), Some(NOT_FOUND));
    assert_eq!(db.get_all_clients().len(), 1);
    assert_eq!(db.get_client(ada.id).unwrap().username, "ada");
}

#[test]
fn update_account_tells_missing_client_from_missing_account() {
    let mut db = Memory::new();
    let owner = db.create_client(client("ada"));
    let held = db.create_account(account(owner.id, 5)).unwrap();
    let no_account = db.update_account(Account {
        id: held.id + 1,
        amount_in_cents: 9,
        client_id: owner.id,
    });
    assert_eq!(no_account.err(), Some(NOT_FOUND));
    let no_client = db.update_account(Account {
        id: held.id,
        amount_in_cents: 9,
        client_id: owner.id + 1,
    });
    assert_eq!(no_client.err(), Some(CLIENT_NOT_FOUND));
    assert_eq!(db.get_account(owner.id, held.id).unwrap().amount_in_cents, 5);
    assert_eq!(db.get_accounts(owner.id).unwrap().len(), 1);
}

#[test]
fn update_account_stores_new_balance() {
    let mut db = Memory::new();
    let owner = db.create_client(client("ada"));
    let first = db.create_account(account(owner.id, 5)).unwrap();
    let second = db.create_account(account(owner.id, 7)).unwrap();
    let updated = db
        .update_account(Account { id: first.id, amount_in_cents: -40, client_id: owner.id })
        .unwrap();
    assert_eq!(updated.id, first.id);
    assert_eq!(updated.amount_in_cents, -40);
    assert_eq!(db.get_account(owner.id, first.id).unwrap().amount_in_cents, -40);
    assert_eq!(db.get_account(owner.id, second.id).unwrap().amount_in_cents, 7);
}

#[test]
fn delete_client_removes_its_accounts() {
    let mut db = Memory::new();
    let ada = db.create_client(client("ada"));
    let grace = db.create_client(client("grace"));
    let gone = db.create_account(account(ada.id, 1)).unwrap();
    db.create_account(account(ada.id, 2)).unwrap();
    let kept = db.create_account(account(grace.id, 3)).unwrap();
    assert!(db.delete_client(BankClient { id: ada.id, username: String::new() }));
    assert_eq!(db.get_client(ada.id).err(), Some(NOT_FOUND));
    assert_eq!(db.get_accounts(ada.id).err(), Some(NOT_FOUND));
    assert_eq!(db.get_account(ada.id, gone.id).err(), Some(CLIENT_NOT_FOUND));
    assert_eq!(db.get_client(grace.id).unwrap().username, "grace");
    assert_eq!(db.get_account(grace.id, kept.id).unwrap().amount_in_cents, 3);
    // a second delete finds nothing
    assert!(!db.delete_client(BankClient { id: ada.id, username: String::new() }));
}

#[test]
fn identifiers_are_not_reused_after_delete() {
    let mut db = Memory::new();
    let ada = db.create_client(client("ada"));
    let held = db.create_account(account(ada.id, 1)).unwrap();
    assert!(db.delete_account(held.clone()));
    assert!(db.delete_client(ada.clone()));
    let grace = db.create_client(client("grace"));
    assert_eq!(grace.id, ada.id + 1);
    let next = db.create_account(account(grace.id, 1)).unwrap();
    assert_eq!(next.id, held.id + 1);
}

#[test]
fn delete_account_spares_siblings() {
    let mut db = Memory::new();
    let owner = db.create_client(client("ada"));
    let first = db.create_account(account(owner.id, 10)).unwrap();
    let second = db.create_account(account(owner.id, 20)).unwrap();
    let third = db.create_account(account(owner.id, 30)).unwrap();
    assert!(db.delete_account(second.clone()));
    assert_eq!(db.get_account(owner.id, second.id).err(), Some(NOT_FOUND));
    assert_eq!(db.get_account(owner.id, first.id).unwrap().amount_in_cents, 10);
    assert_eq!(db.get_account(owner.id, third.id).unwrap().amount_in_cents, 30);
    assert_eq!(db.get_accounts(owner.id).unwrap().len(), 2);
    assert!(!db.delete_account(second));
}

#[test]
fn delete_account_is_scoped_to_its_client() {
    let mut db = Memory::new();
    let ada = db.create_client(client("ada"));
    let grace = db.create_client(client("grace"));
    let held = db.create_account(account(ada.id, 10)).unwrap();
    // the right account under the wrong client is not deleted
    assert!(!db.delete_account(Account { id: held.id, amount_in_cents: 10, client_id: grace.id }));
    assert!(!db.delete_account(Account { id: held.id, amount_in_cents: 10, client_id: 99 }));
    assert_eq!(db.get_accounts(ada.id).unwrap().len(), 1);
}

#[test]
fn created_records_read_back() {
    let mut db = Memory::new();
    let owner = db.create_client(client("ada"));
    let read = db.get_client(owner.id).unwrap();
    assert_eq!(read.id, owner.id);
    assert_eq!(read.username, "ada");
    let held = db.create_account(account(owner.id, 1234)).unwrap();
    let read = db.get_account(owner.id, held.id).unwrap();
    assert_eq!(read.id, held.id);
    assert_eq!(read.amount_in_cents, 1234);
    assert_eq!(read.client_id, owner.id);
}

#[test]
fn many_accounts_are_all_listed() {
    let mut db = Memory::new();
    let owner = db.create_client(client("ada"));
    let amounts = [7, -3, 0, 1_000_000, 7];
    for amount in amounts.iter() {
        db.create_account(account(owner.id, *amount)).unwrap();
    }
    let listed = db.get_accounts(owner.id).unwrap();
    assert_eq!(listed.len(), amounts.len());
    for (index, amount) in amounts.iter().enumerate() {
        let id = index as i32 + 1;
        let held = listed.get(&id).unwrap();
        assert_eq!(held.id, id);
        assert_eq!(held.amount_in_cents, *amount);
        assert_eq!(held.client_id, owner.id);
    }
}

#[test]
fn accounts_are_equal_by_identifier() {
    let fresh = Account { id: 1, amount_in_cents: 500, client_id: 1 };
    let stale = Account { id: 1, amount_in_cents: 100, client_id: 1 };
    let other = Account { id: 2, amount_in_cents: 500, client_id: 1 };
    assert!(fresh == stale);
    assert!(fresh != other);
}

#[test]
fn clones_keep_every_field() {
    let owner = BankClient { id: 3, username: String::from("ada") };
    let copy = owner.clone();
    assert_eq!(copy.id, 3);
    assert_eq!(copy.username, "ada");
    let held = Account { id: 4, amount_in_cents: -5, client_id: 3 };
    let copy = held.clone();
    assert_eq!((copy.id, copy.amount_in_cents, copy.client_id), (4, -5, 3));
}
