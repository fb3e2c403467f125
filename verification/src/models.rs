//! The records that requests, rows and the vault are made of.

pub mod placeholder;
pub mod requirement;
pub mod target;
pub mod transformation;
pub mod vault;
