//! Storage layer: SQLite WAL with SQLCipher encryption.

pub mod error;

pub use error::StoreError;
