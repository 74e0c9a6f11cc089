//! `.tapp` runtime error types.

use vstd::prelude::*;
use vstd::std_specs::convert::FromSpec;

use crate::crypto::error::CryptoError;
use crate::store::error::StoreError;

verus! {

/// Errors of the WASM sandbox and the host ABI.
#[derive(Debug)]
pub enum TappError {
    InstantiationFailed(String),
    AbiVersionMismatch { host_major: u16, guest_major: u16 },
    /// Instruction fuel exhausted.
    FuelExhausted,
    MemoryLimitExceeded { used_bytes: usize, limit_bytes: usize },
    EgressOutboxExceeded { used_bytes: usize, limit_bytes: usize },
    /// Host ABI call denied by policy.
    PolicyDenied(String),
    /// Manifest capability not declared.
    CapabilityNotDeclared(String),
    SandboxViolation,
    Crypto(CryptoError),
    Store(StoreError),
}

impl From<CryptoError> for TappError {
    fn from(err: CryptoError) -> (r: TappError) {
        TappError::Crypto(err)
    }
}

impl vstd::std_specs::convert::FromSpecImpl<CryptoError> for TappError {
    open spec fn obeys_from_spec() -> bool {
        true
    }

    open spec fn from_spec(v: CryptoError) -> TappError {
        TappError::Crypto(v)
    }
}

impl From<StoreError> for TappError {
    fn from(err: StoreError) -> (r: TappError) {
        TappError::Store(err)
    }
}

impl vstd::std_specs::convert::FromSpecImpl<StoreError> for TappError {
    open spec fn obeys_from_spec() -> bool {
        true
    }

    open spec fn from_spec(v: StoreError) -> TappError {
        TappError::Store(v)
    }
}

/// A cryptographic error becomes a runtime error that carries it unchanged.
pub proof fn law_tapp_error_keeps_crypto_error(e: CryptoError)
    ensures
        <TappError as FromSpec<CryptoError>>::from_spec(e) == TappError::Crypto(e),
{
}

/// A storage error becomes a runtime error that carries it unchanged.
pub proof fn law_tapp_error_keeps_store_error(e: StoreError)
    ensures
        <TappError as FromSpec<StoreError>>::from_spec(e) == TappError::Store(e),
{
}

} // verus!
