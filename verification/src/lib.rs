//! TeraChat core: the verified logic of the cryptographic key arena, the
//! CRDT DAG node, the survival-mesh types and the `.tapp` host ABI.
//!
//! Modules follow the core crates of the workspace:
//! - [`crypto`]: key handles, key material with explicit zeroization, the
//!   key arena, the FFI error codes and the raw-pointer FFI lint;
//! - [`crdt`]: DAG nodes with content hash and time-ordered identifiers;
//! - [`mesh`]: packet priorities, backpressure configuration and peers;
//! - [`store`]: storage errors;
//! - [`tapp`]: ABI schema versions and version negotiation.

pub mod crdt;
pub mod crypto;
pub mod mesh;
pub mod store;
pub mod tapp;
