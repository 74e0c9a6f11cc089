//! CRDT DAG sync: the append-only message DAG.

pub mod dag;
pub mod error;

pub use error::SyncError;
