//! Core engine of a network-traffic monitor: flow filtering, threshold
//! watching, favorite-host detection, and a bounded notification log.
//!
//! The engine is deliberately free of any I/O or rendering concern: a capture
//! collaborator feeds flows in, a UI collaborator reads notifications out, and
//! everything in between is plain verified logic.

pub mod counters;
pub mod filters;
pub mod monitor;
pub mod notification_log;
pub mod notifications;
pub mod translations;
