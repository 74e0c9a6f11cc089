//! CRDT sync error types.

use vstd::prelude::*;
use vstd::std_specs::convert::FromSpec;

use crate::crypto::error::CryptoError;

verus! {

/// Errors of DAG merging, state sync and recovery.
#[derive(Debug)]
pub enum SyncError {
    DagMergeConflict(String),
    TombstoneVacuumFailed,
    VectorClockDivergence,
    SagaRecoveryFailed,
    WalIntegrityFailed,
    Crypto(CryptoError),
    Storage(String),
}

impl From<CryptoError> for SyncError {
    fn from(err: CryptoError) -> (r: SyncError) {
        SyncError::Crypto(err)
    }
}

impl vstd::std_specs::convert::FromSpecImpl<CryptoError> for SyncError {
    open spec fn obeys_from_spec() -> bool {
        true
    }

    open spec fn from_spec(v: CryptoError) -> SyncError {
        SyncError::Crypto(v)
    }
}

/// A cryptographic error becomes a sync error that carries it unchanged.
pub proof fn law_sync_error_keeps_crypto_error(e: CryptoError)
    ensures
        <SyncError as FromSpec<CryptoError>>::from_spec(e) == SyncError::Crypto(e),
{
}

} // verus!
