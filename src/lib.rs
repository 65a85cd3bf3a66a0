//! A cooperative lock over a sentinel file.
//!
//! A holder signals that it owns a shared resource by the presence of an empty
//! file at a known path, and releases it by deleting that file. This crate holds
//! the lock's decisions: which filesystem operation each request calls for, how
//! the outcome of that operation moves the lock's state, and when a waiter may
//! resume. The caller performs the filesystem operations and reports back.

pub mod laws;
pub mod lock;

pub use lock::{FileLock, FsAction, FsOutcome, LockError, LockView, WaitStep, POLL_INTERVAL_MS};
