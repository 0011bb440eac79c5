//! Core of a peer-to-peer atomic-swap node: the maker-side and taker-side
//! protocol drivers, the durable append-only event journal those drivers
//! read and write, the registry that enforces at most one running driver
//! per swap, and the recovery logic that resumes in-flight swaps after a
//! restart.
//!
//! Every swap's current state is the deterministic fold of its journal
//! events; the drivers are pure decision functions from projected state
//! and observed outcome to the next action and the next journal event.
//! The surrounding process performs the actual messenger and chain calls
//! and feeds their outcomes back in.

pub mod actions;
pub mod error;
pub mod events;
pub mod journal;
pub mod maker;
pub mod messages;
pub mod metrics;
pub mod record;
pub mod recovery;
pub mod registry;
pub mod safety;
pub mod store;
pub mod taker;
pub mod types;
