//! Storage error types.

use vstd::prelude::*;
use vstd::std_specs::convert::FromSpec;

use crate::crypto::error::CryptoError;

verus! {

/// `rusqlite::Error`, carried as an opaque value.
#[verifier::external_type_specification]
#[verifier::external_body]
pub struct ExSqliteError(rusqlite::Error);

/// Errors of the storage layer.
#[derive(Debug)]
pub enum StoreError {
    DatabaseOpenFailed(String),
    WalCheckpointFailed,
    IntegrityCheckFailed(String),
    ShadowDbRenameFailed,
    SqlCipherKeyFailed,
    QueryFailed(String),
    Sqlite(rusqlite::Error),
    Crypto(CryptoError),
}

impl From<rusqlite::Error> for StoreError {
    fn from(err: rusqlite::Error) -> (r: StoreError) {
        StoreError::Sqlite(err)
    }
}

impl vstd::std_specs::convert::FromSpecImpl<rusqlite::Error> for StoreError {
    open spec fn obeys_from_spec() -> bool {
        true
    }

    open spec fn from_spec(v: rusqlite::Error) -> StoreError {
        StoreError::Sqlite(v)
    }
}

impl From<CryptoError> for StoreError {
    fn from(err: CryptoError) -> (r: StoreError) {
        StoreError::Crypto(err)
    }
}

impl vstd::std_specs::convert::FromSpecImpl<CryptoError> for StoreError {
    open spec fn obeys_from_spec() -> bool {
        true
    }

    open spec fn from_spec(v: CryptoError) -> StoreError {
        StoreError::Crypto(v)
    }
}

/// A cryptographic error becomes a storage error that carries it unchanged.
pub proof fn law_store_error_keeps_crypto_error(e: CryptoError)
    ensures
        <StoreError as FromSpec<CryptoError>>::from_spec(e) == StoreError::Crypto(e),
{
}

/// A SQLite error becomes a storage error that carries it unchanged.
pub proof fn law_store_error_keeps_sqlite_error(e: rusqlite::Error)
    ensures
        <StoreError as FromSpec<rusqlite::Error>>::from_spec(e) == StoreError::Sqlite(e),
{
}

} // verus!
