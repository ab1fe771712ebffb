//! Task identity and the graceful-shutdown supervisor.

/// The graceful-shutdown task supervisor.
pub mod graceful;

use vstd::prelude::*;

verus! {

/// The identity of a spawned task: the runtime's task id as a plain number.
///
/// The runtime hands every spawned task a non-zero identifier; the spawning
/// side converts it to this plain value.
#[derive(Debug, Copy, Clone, Eq, PartialEq, Hash, Structural)]
pub struct TaskId(pub u64);

} // verus!
