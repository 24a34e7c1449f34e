//! Job and node lifecycle engine of a compute marketplace scheduler.
//!
//! The crate holds the data model, the node selector, the status state
//! machines of jobs and nodes, and the decisions taken around each call to
//! the settlement ledger. Transport, storage and the ledger itself are left to
//! the program that embeds the engine.

pub mod error;
pub mod jobs;
pub mod ledger;
pub mod lifecycle;
pub mod models;
pub mod nodes;
pub mod state;
pub mod wallet;
