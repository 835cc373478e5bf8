//! Engine for concurrent, resumable HTTP downloads.
//!
//! The crate holds the decision logic of a download service as plain state
//! machines with machine-checked contracts: the per-download transfer run,
//! the manager that owns the registry of downloads, the observer that keeps
//! the last known state of every download, and the subscriber registry that
//! fans updates out to external listeners. Network and file I/O are left to
//! the caller, which performs the actions these machines ask for and hands
//! the outcomes back as events.

pub mod error;
pub mod state;
pub mod run;
pub mod download;
pub mod manager;
pub mod observer;
pub mod subscribers;
pub mod laws;
pub mod api;
pub mod range;
