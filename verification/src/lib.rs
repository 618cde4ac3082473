//! Core of a web-page watcher: the filter chain that reduces a fetched page
//! to a comparable text, the change-detection rule, the per-tick check
//! pipeline, the scheduler's active-job set, and the notification messages
//! built for a detected change.
//!
//! Everything that talks to the network or to storage lives outside this
//! crate; the functions here decide, for every outcome of those calls, what
//! happens next, and their contracts pin those decisions down.

pub mod error;
pub mod filters;
pub mod model;
pub mod monitoring;
pub mod notifications;
pub mod scheduling;
