//! Extensions for the standard library and the tokio runtime: a one-time
//! event channel, a graceful-shutdown task supervisor built on it, and a few
//! small helpers for `Result` and slices.

/// Extensions to the [`Result`] type.
pub mod result;
/// Extensions to the slice type.
pub mod slice;
/// Synchronization primitives.
pub mod sync;
/// Task identity and the graceful-shutdown supervisor.
pub mod task;
/// Thread identity.
pub mod thread;
