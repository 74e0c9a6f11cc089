//! `.tapp` WASM runtime: host ABI versioning and runtime errors.

pub mod abi;
pub mod error;

pub use abi::SchemaVersion;

pub use error::TappError;
