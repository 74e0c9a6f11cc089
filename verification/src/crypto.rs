//! Cryptographic core: key handles, key material, the key arena, FFI error
//! codes and the raw-pointer FFI lint.
//!
//! Key material is reachable only through opaque [`KeyHandle`]s into the
//! [`GlobalKeyArena`]; key material is zeroized whenever it is dropped, and
//! every entry the arena releases is scrubbed first.

pub mod error;
pub mod ffi;
pub mod key_management;
pub mod lints;
pub mod zeroize_guard;

pub use error::CryptoError;
pub use key_management::KeyHandle;
pub use zeroize_guard::GlobalKeyArena;


