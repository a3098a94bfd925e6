//! What can go wrong between a request and the database.

use vstd::prelude::*;
use vstd::std_specs::convert::FromSpecImpl;

verus! {

/// The error type of `tokio_postgres`: a failed query, a lost connection, a
/// value that does not convert. Nothing is claimed of what it holds; it is
/// carried to the caller as it came.
#[verifier::external_type_specification]
#[verifier::external_body]
pub struct ExPgError(tokio_postgres::Error);

/// The error type of `deadpool`'s managed pools, which `deadpool_postgres`
/// instantiates with the database error: the pool could not hand out a
/// connection. Nothing is claimed of what it holds.
#[verifier::external_type_specification]
#[verifier::external_body]
#[verifier::reject_recursive_types(E)]
pub struct ExPoolError<E>(deadpool::managed::PoolError<E>);

/// Why a database operation gave no result.
#[derive(Debug)]
pub enum DBError {
    /// The row or entity that the operation names does not exist. This is an
    /// ordinary outcome, not a fault.
    NotFound,
    /// The statement failed in the database or on the way to it.
    PGError(tokio_postgres::Error),
    /// No connection could be had from the pool.
    PoolError(deadpool_postgres::PoolError),
}

impl From<tokio_postgres::Error> for DBError {
    fn from(error: tokio_postgres::Error) -> (wrapped: DBError) {
        DBError::PGError(error)
    }
}

impl FromSpecImpl<tokio_postgres::Error> for DBError {
    open spec fn obeys_from_spec() -> bool {
        true
    }

    open spec fn from_spec(error: tokio_postgres::Error) -> DBError {
        DBError::PGError(error)
    }
}

impl From<deadpool_postgres::PoolError> for DBError {
    fn from(error: deadpool_postgres::PoolError) -> (wrapped: DBError) {
        DBError::PoolError(error)
    }
}

impl FromSpecImpl<deadpool_postgres::PoolError> for DBError {
    open spec fn obeys_from_spec() -> bool {
        true
    }

    open spec fn from_spec(error: deadpool_postgres::PoolError) -> DBError {
        DBError::PoolError(error)
    }
}

/// The three kinds of failure, without what caused them.
#[derive(Debug, Clone, Copy, PartialEq, Eq, Structural)]
pub enum ErrorKind {
    /// The entity that the operation names does not exist.
    NotFound,
    /// No connection to the store could be had.
    StoreUnavailable,
    /// The store refused or failed the operation.
    StoreOperationFailed,
}

impl ErrorKind {
    /// The HTTP status that a handler answers with: 404 for a missing entity,
    /// 500 for a fault of the store.
    pub fn status_code(self) -> (code: u16)
        ensures
            code == match self {
                ErrorKind::NotFound => 404u16,
                ErrorKind::StoreUnavailable => 500u16,
                ErrorKind::StoreOperationFailed => 500u16,
            },
    {
        match self {
            ErrorKind::NotFound => 404,
            ErrorKind::StoreUnavailable => 500,
            ErrorKind::StoreOperationFailed => 500,
        }
    }
}

impl DBError {
    /// The kind of this error.
    pub open spec fn spec_kind(&self) -> ErrorKind {
        match self {
            DBError::NotFound => ErrorKind::NotFound,
            DBError::PGError(_) => ErrorKind::StoreOperationFailed,
            DBError::PoolError(_) => ErrorKind::StoreUnavailable,
        }
    }

    /// The kind of this error.
    #[verifier::when_used_as_spec(spec_kind)]
    pub fn kind(&self) -> (kind: ErrorKind)
        ensures
            kind == self.spec_kind(),
    {
        match self {
            DBError::NotFound => ErrorKind::NotFound,
            DBError::PGError(_) => ErrorKind::StoreOperationFailed,
            DBError::PoolError(_) => ErrorKind::StoreUnavailable,
        }
    }

    /// The HTTP status that a handler answers this error with.
    pub fn status_code(&self) -> (code: u16)
        ensures
            code == if self.kind() == ErrorKind::NotFound {
                404u16
            } else {
                500u16
            },
    {
        self.kind().status_code()
    }
}

} // verus!
