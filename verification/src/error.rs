//! Error taxonomy of the database layer.
//!
//! Failures reported by the database driver reach this crate as a
//! [`DriverFault`]: a plain-value description (which kind of failure,
//! with its code and message strings) that the I/O layer fills in.
//! [`DbError::from_driver`] classifies each fault into the library's
//! own taxonomy; constraint violations are told apart from other query
//! errors by their SQLSTATE code.

use vstd::prelude::*;
use vstd::string::{StringExecFns, StringSliceAdditionalSpecFns};

use crate::models::str_eq;

verus! {

/// Errors of the database operations.  Each variant carries the
/// underlying message.
#[derive(Debug)]
pub enum DbError {
    /// Failure to reach or keep the connection to the database.
    ConnectionError(String),
    /// Failure while applying a schema migration.
    MigrationError(String),
    /// Failure of a query.
    QueryError(String),
    /// The requested entity does not exist.
    NotFound(String),
    /// A database constraint was violated.
    ConstraintViolation(String),
    /// Failure inside the cryptographic subsystem.
    CryptoError(String),
    /// Any other internal failure.
    InternalError(String),
}

/// A plain-value description of a failure reported by the database
/// driver, as the I/O layer hands it over.
#[derive(Debug)]
pub enum DriverFault {
    /// A query expected to return a row returned none.
    RowNotFound,
    /// The database itself reported an error, with its optional
    /// SQLSTATE code and its message.
    Database { code: Option<String>, message: String },
    /// A column was not found.
    ColumnNotFound { column: String },
    /// A type was not found.
    TypeNotFound { name: String },
    /// A column failed to decode.
    ColumnDecode { index: String, message: String },
    /// An I/O failure underneath the driver.
    Io { message: String },
    /// The connection was misconfigured.
    Configuration { message: String },
    /// The connection pool is closed.
    PoolClosed,
    /// The connection pool timed out.
    PoolTimedOut,
    /// The background database worker crashed.
    WorkerCrashed,
    /// Any other driver failure.
    Other { message: String },
}

/// Whether a SQLSTATE code marks a constraint violation: `23000`
/// (integrity constraint violation) or SQLite's `2067` (unique
/// constraint failed).
pub open spec fn spec_is_constraint_code(code: Option<String>) -> bool {
    match code {
        Some(c) => c@ == "23000"@ || c@ == "2067"@,
        None => false,
    }
}

fn is_constraint_code(code: &Option<String>) -> (r: bool)
    ensures
        r == spec_is_constraint_code(*code),
{
    match code {
        Some(c) => str_eq(c.as_str(), "23000") || str_eq(c.as_str(), "2067"),
        None => false,
    }
}

impl DbError {
    /// Classifies a driver fault into the library's taxonomy.  No
    /// fault is silently swallowed or downgraded: every kind maps to a
    /// distinct, inspectable condition that keeps the driver's message.
    pub fn from_driver(fault: DriverFault) -> (r: DbError)
        ensures
            fault is RowNotFound ==> (r matches DbError::NotFound(m) && m@
                == "record not found"@),
            fault matches DriverFault::Database { code, message } ==> if spec_is_constraint_code(
                code,
            ) {
                r matches DbError::ConstraintViolation(m) && m@ == message@
            } else {
                r matches DbError::QueryError(m) && m@ == message@
            },
            fault matches DriverFault::ColumnNotFound { column } ==> (r matches DbError::QueryError(
                m,
            ) && m@ == "column not found: "@ + column@),
            fault matches DriverFault::TypeNotFound { name } ==> (
            r matches DbError::QueryError(m) && m@ == "type not found: "@ + name@),
            fault matches DriverFault::ColumnDecode { index, message } ==> (
            r matches DbError::QueryError(m) && m@ == "failed to decode column "@ + index@ + ": "@
                + message@),
            fault matches DriverFault::Io { message } ==> (r matches DbError::ConnectionError(m)
                && m@ == message@),
            fault matches DriverFault::Configuration { message } ==> (
            r matches DbError::ConnectionError(m) && m@ == message@),
            fault is PoolClosed ==> (r matches DbError::ConnectionError(m) && m@
                == "connection pool closed"@),
            fault is PoolTimedOut ==> (r matches DbError::ConnectionError(m) && m@
                == "connection pool timed out"@),
            fault is WorkerCrashed ==> (r matches DbError::InternalError(m) && m@
                == "database worker crashed"@),
            fault matches DriverFault::Other { message } ==> (r matches DbError::InternalError(m)
                && m@ == "unexpected error: "@ + message@),
    {
        match fault {
            DriverFault::RowNotFound => DbError::NotFound(String::from_str("record not found")),
            DriverFault::Database { code, message } => {
                if is_constraint_code(&code) {
                    DbError::ConstraintViolation(message)
                } else {
                    DbError::QueryError(message)
                }
            },
            DriverFault::ColumnNotFound { column } => {
                let mut m = String::from_str("column not found: ");
                m.append(column.as_str());
                DbError::QueryError(m)
            },
            DriverFault::TypeNotFound { name } => {
                let mut m = String::from_str("type not found: ");
                m.append(name.as_str());
                DbError::QueryError(m)
            },
            DriverFault::ColumnDecode { index, message } => {
                let mut m = String::from_str("failed to decode column ");
                m.append(index.as_str());
                m.append(": ");
                m.append(message.as_str());
                DbError::QueryError(m)
            },
            DriverFault::Io { message } => DbError::ConnectionError(message),
            DriverFault::Configuration { message } => DbError::ConnectionError(message),
            DriverFault::PoolClosed => DbError::ConnectionError(
                String::from_str("connection pool closed"),
            ),
            DriverFault::PoolTimedOut => DbError::ConnectionError(
                String::from_str("connection pool timed out"),
            ),
            DriverFault::WorkerCrashed => DbError::InternalError(
                String::from_str("database worker crashed"),
            ),
            DriverFault::Other { message } => {
                let mut m = String::from_str("unexpected error: ");
                m.append(message.as_str());
                DbError::InternalError(m)
            },
        }
    }

    /// The message carried by this error.
    pub fn message(&self) -> (r: &str)
        ensures
            match self {
                DbError::ConnectionError(m) => r@ == m@,
                DbError::MigrationError(m) => r@ == m@,
                DbError::QueryError(m) => r@ == m@,
                DbError::NotFound(m) => r@ == m@,
                DbError::ConstraintViolation(m) => r@ == m@,
                DbError::CryptoError(m) => r@ == m@,
                DbError::InternalError(m) => r@ == m@,
            },
    {
        match self {
            DbError::ConnectionError(m) => m.as_str(),
            DbError::MigrationError(m) => m.as_str(),
            DbError::QueryError(m) => m.as_str(),
            DbError::NotFound(m) => m.as_str(),
            DbError::ConstraintViolation(m) => m.as_str(),
            DbError::CryptoError(m) => m.as_str(),
            DbError::InternalError(m) => m.as_str(),
        }
    }
}

} // verus!
