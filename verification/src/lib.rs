//! Core of a service that polls a cluster orchestrator for job scale status
//! and republishes the latest known status as live metric gauges.
//!
//! The crate holds the verified heart of that service: the transformation
//! from raw scale status to published measures, the shared store that the
//! poller writes and the metric callback reads, the poll-loop state machine
//! with its cancellation and failure policy, the observation builder that the
//! metric callback runs on a snapshot, and the ordered shutdown plan.
//! Network transport, metric export and task scheduling are left to the
//! binary that embeds this crate.

pub mod fetcher;
pub mod observer;
pub mod poll;
pub mod shutdown;
pub mod status;
pub mod store;
