//! Helpers that the rest of the library leans on.

pub mod clock;
pub mod collections;
pub mod result;
pub mod sequences;
pub mod sorting;
pub mod testutil;
pub mod text;
