//! Shared database-layer library for the clinic record store.
//!
//! The heart of the crate is the cryptographic envelope subsystem in
//! [`crypto`]: symmetric keys with guaranteed erasure, authenticated
//! field encryption, password-based key wrapping, and the versioned
//! master-key records in [`models`] that allow key rotation without
//! re-encrypting historical data.  [`error`] holds the database error
//! taxonomy and [`migrations`] the schema-migration planning logic.

use vstd::prelude::*;
use vstd::string::StringExecFns;

pub mod crypto;
pub mod error;
pub mod migrations;
pub mod models;

verus! {

/// Configuration of the connection with the database.
#[derive(Debug, Clone)]
pub struct DbConfig {
    /// Path of the SQLite file.
    pub db_path: String,
    /// Passphrase protecting the database file; turned into a derived
    /// key by the storage layer, never stored in the clear.
    pub key_phrase: String,
    /// Maximum number of connections in the pool.
    pub max_connections: u32,
    /// SQL trace level (0-3).
    pub trace_level: u8,
}

impl Default for DbConfig {
    /// The passphrase defaults to empty on purpose: it must be set
    /// explicitly before the configuration is usable.
    fn default() -> (r: Self)
        ensures
            r.db_path@ == "data/clinic.db"@,
            r.key_phrase@ == Seq::<char>::empty(),
            r.max_connections == 5u32,
            r.trace_level == 0u8,
    {
        DbConfig {
            db_path: String::from_str("data/clinic.db"),
            key_phrase: String::new(),
            max_connections: 5,
            trace_level: 0,
        }
    }
}

} // verus!
