//! Help for trying the library out.

pub mod factories;
