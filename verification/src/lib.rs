//! Reversible row-level disguises for a relational store.
//!
//! A disguise removes, modifies or decorrelates rows of a target store and
//! records, in a separate vault, one undo step per affected row. This crate
//! holds the decisions of that engine: which statement to run next, what to
//! record, in which order to undo. Running the statements is left to the
//! caller, which reports each outcome back.

pub mod accessor;
pub mod clock;
pub mod error;
pub mod executor;
pub mod ledger;
pub mod models;
pub mod planner;
pub mod policy;
pub mod recovery;
pub mod retention;
pub mod statements;
pub mod text;
