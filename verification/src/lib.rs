//! A minimal socket-activated HTTP server core: request handling with an
//! optional caller-specified delay, and a two-phase graceful-shutdown
//! coordinator that sequences the supervisor notifications.
//!
//! The surrounding runtime owns the sockets, signals and timers; this crate
//! owns every decision: what a request is answered with and after how long,
//! when the drain is triggered, which notifications are sent and how often,
//! and how the race between graceful completion and forced termination ends.

pub mod coordinator;
pub mod digits;
pub mod handler;
pub mod query;
pub mod startup;
