//! Survival mesh network: packet priorities, backpressure and peers.

pub mod error;
pub mod multiplexer;
pub mod peer;

pub use error::MeshError;
