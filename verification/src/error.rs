//! The failures that core control reports.

use vstd::prelude::*;

verus! {

/// Why an operation on a core did not go through.
#[derive(Debug, Clone, PartialEq, Eq)]
pub enum Error {
    /// The core did not reach the halted state within the given time.
    Timeout,
    /// Talking to the probe failed; the text says how.
    Communication(String),
    /// The core's architecture family is not the one the probe was set up for.
    ArchitectureMismatch,
    /// Every hardware breakpoint comparator is already in use.
    NoAvailableBreakpoints,
    /// No hardware breakpoint comparator holds the given address.
    BreakpointNotFound(u32),
}

impl Error {
    /// True of the failures that arise below the core interface: a timeout
    /// or a communication failure. The other variants are decided above it.
    pub open spec fn is_probe_failure(&self) -> bool {
        self is Timeout || self is Communication
    }
}

} // verus!
