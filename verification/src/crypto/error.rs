//! Error types of the cryptographic core.
//!
//! Error messages never include key material or key paths.

use vstd::prelude::*;
use vstd::std_specs::convert::FromSpec;

verus! {

/// Top-level error type for all cryptographic operations.
///
/// The variants intentionally omit key paths, key IDs and any material that
/// could help reconstruct the key hierarchy.
#[derive(Debug)]
pub enum CryptoError {
    KeyGenerationFailed,
    EncryptionFailed,
    DecryptionFailed,
    SignatureVerificationFailed,
    KeyDerivationFailed,
    EnclaveUnavailable,
    KeyNotFound,
    ArenaCapacityExhausted,
    FfiBoundaryViolation(String),
    ZeroizationFailed,
    HardwareRootUnavailable,
}

/// FFI-safe error code returned across the `extern "C"` boundary. The codes
/// carry no sensitive information; [`FfiErrorCode::code`] gives the `i32`
/// that crosses the boundary.
#[derive(Debug, Clone, Copy, PartialEq, Eq, Structural)]
pub enum FfiErrorCode {
    /// Operation succeeded (0).
    Success,
    /// Generic internal error: the caller should retry or escalate (-1).
    InternalError,
    /// Key not found in the global arena (-2).
    KeyNotFound,
    /// Invalid argument passed across the FFI boundary (-3).
    InvalidArgument,
    /// Panic caught at the FFI boundary; the arena was wiped (-4).
    PanicCaught,
    /// Buffer too small for output (-5).
    BufferTooSmall,
    /// Hardware enclave not available (-6).
    EnclaveUnavailable,
}

/// The `i32` value of each FFI error code.
pub open spec fn ffi_code_value(c: FfiErrorCode) -> int {
    match c {
        FfiErrorCode::Success => 0,
        FfiErrorCode::InternalError => -1,
        FfiErrorCode::KeyNotFound => -2,
        FfiErrorCode::InvalidArgument => -3,
        FfiErrorCode::PanicCaught => -4,
        FfiErrorCode::BufferTooSmall => -5,
        FfiErrorCode::EnclaveUnavailable => -6,
    }
}

/// The FFI error code that reports a cryptographic error: a missing key and
/// an unavailable enclave keep their own codes, every other error is an
/// internal error.
pub open spec fn ffi_code_of(err: CryptoError) -> FfiErrorCode {
    match err {
        CryptoError::KeyNotFound => FfiErrorCode::KeyNotFound,
        CryptoError::EnclaveUnavailable => FfiErrorCode::EnclaveUnavailable,
        _ => FfiErrorCode::InternalError,
    }
}

/// Distinct FFI codes cross the boundary as distinct integers, and only
/// success is reported as 0 (every failure is negative).
pub proof fn law_ffi_codes_are_distinct(a: FfiErrorCode, b: FfiErrorCode)
    ensures
        ffi_code_value(a) == ffi_code_value(b) ==> a == b,
        ffi_code_value(a) == 0 <==> a == FfiErrorCode::Success,
        ffi_code_value(a) <= 0,
        -6 <= ffi_code_value(a),
{
}

/// How a cryptographic error crosses the boundary: a missing key and an
/// unavailable enclave keep their own codes, every other error becomes an
/// internal error, and no error is ever reported as success.
pub proof fn law_error_codes(e: CryptoError)
    ensures
        <FfiErrorCode as FromSpec<CryptoError>>::from_spec(e) == FfiErrorCode::KeyNotFound <==> e is KeyNotFound,
        <FfiErrorCode as FromSpec<CryptoError>>::from_spec(e) == FfiErrorCode::EnclaveUnavailable
            <==> e is EnclaveUnavailable,
        !(e is KeyNotFound) && !(e is EnclaveUnavailable) ==> <FfiErrorCode as FromSpec<
            CryptoError,
        >>::from_spec(e) == FfiErrorCode::InternalError,
        <FfiErrorCode as FromSpec<CryptoError>>::from_spec(e) != FfiErrorCode::Success,
        ffi_code_of(e) == <FfiErrorCode as FromSpec<CryptoError>>::from_spec(e),
{
}

impl FfiErrorCode {
    /// The `i32` that crosses the FFI boundary for this code.
    pub fn code(self) -> (r: i32)
        ensures
            r == ffi_code_value(self),
    {
        match self {
            FfiErrorCode::Success => 0,
            FfiErrorCode::InternalError => -1,
            FfiErrorCode::KeyNotFound => -2,
            FfiErrorCode::InvalidArgument => -3,
            FfiErrorCode::PanicCaught => -4,
            FfiErrorCode::BufferTooSmall => -5,
            FfiErrorCode::EnclaveUnavailable => -6,
        }
    }
}

impl From<CryptoError> for FfiErrorCode {
    fn from(err: CryptoError) -> (r: FfiErrorCode) {
        match err {
            CryptoError::KeyNotFound => FfiErrorCode::KeyNotFound,
            CryptoError::EnclaveUnavailable => FfiErrorCode::EnclaveUnavailable,
            CryptoError::ArenaCapacityExhausted => FfiErrorCode::InternalError,
            _ => FfiErrorCode::InternalError,
        }
    }
}

impl vstd::std_specs::convert::FromSpecImpl<CryptoError> for FfiErrorCode {
    open spec fn obeys_from_spec() -> bool {
        true
    }

    open spec fn from_spec(v: CryptoError) -> FfiErrorCode {
        ffi_code_of(v)
    }
}

} // verus!
