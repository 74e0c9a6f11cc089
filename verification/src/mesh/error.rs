//! Mesh network error types.

use vstd::prelude::*;
use vstd::std_specs::convert::FromSpec;

use crate::crypto::error::CryptoError;

verus! {

/// Errors of peer discovery, transports and the multiplexer.
#[derive(Debug)]
pub enum MeshError {
    PeerDiscoveryFailed,
    BleUnavailable,
    WifiDirectUnavailable,
    EmdpSessionTerminated,
    /// Priority queue overflow.
    MultiplexerOverflow,
    /// Backpressure engaged (RTT above 200 ms).
    BackpressureEngaged,
    Crypto(CryptoError),
}

impl From<CryptoError> for MeshError {
    fn from(err: CryptoError) -> (r: MeshError) {
        MeshError::Crypto(err)
    }
}

impl vstd::std_specs::convert::FromSpecImpl<CryptoError> for MeshError {
    open spec fn obeys_from_spec() -> bool {
        true
    }

    open spec fn from_spec(v: CryptoError) -> MeshError {
        MeshError::Crypto(v)
    }
}

/// A cryptographic error becomes a mesh error that carries it unchanged.
pub proof fn law_mesh_error_keeps_crypto_error(e: CryptoError)
    ensures
        <MeshError as FromSpec<CryptoError>>::from_spec(e) == MeshError::Crypto(e),
{
}

} // verus!
