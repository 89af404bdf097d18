//! Idempotent, collision-safe symbolic-link reconciliation.
//!
//! The library decides, for one `(original, link)` pair, how to drive the
//! filesystem to the state "`link` is a symbolic link pointing at
//! `original`", preserving any displaced pre-existing entry under a
//! uniquely named backup path.  Every decision is a verified function on
//! plain values; the caller performs the filesystem operations the
//! decisions call for and reports each result back as an event.

pub mod errors;
pub mod laws;
pub mod naming;
pub mod pathtext;
pub mod reconcile;
