//! Supervision of one long-lived executable: locating and preparing it,
//! restart-with-backoff watchdogs, and coordinated shutdown.
//!
//! The decisions live here, verified; the process, signal and file work that
//! carries them out is done by the caller.

pub mod error;
pub mod install;
pub mod locator;
pub mod policy;
pub mod retry;
pub mod supervisor;
pub mod watchdog;
