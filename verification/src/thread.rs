//! Thread identity.

use vstd::prelude::*;

verus! {

/// The identity of an operating-system thread as a plain number.
///
/// The standard library hands every thread a non-zero identifier; the side
/// that talks to it converts that identifier to this plain value.
#[derive(Debug, Copy, Clone, Eq, PartialEq, Hash, Structural)]
pub struct ThreadId(pub u64);

} // verus!
