//! The store of roll calls and responses.

pub mod checks;
pub mod helpers;
pub mod invariants;
pub mod laws;
pub mod repo;
pub mod tables;

pub use repo::{DatabaseError, DatabaseResult, MemoryRepository, Repository};
