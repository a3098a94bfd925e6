//! A small banking library: clients own accounts, accounts hold a balance in
//! cents. The storage interface and its in-memory implementation are verified
//! against an abstract model of the store.

pub mod controller;
pub mod db;
pub mod entities;
pub mod error;
