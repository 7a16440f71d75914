//! The run state of a core, and why a halted core stopped.

use vstd::prelude::*;

verus! {

/// Why a halted core stopped.
#[derive(Debug, PartialEq, Eq, Copy, Clone, Structural)]
pub enum HaltReason {
    /// Two or more causes at once, such as a single step that ends on a
    /// breakpoint.
    Multiple,
    /// A breakpoint, in software or in hardware.
    Breakpoint,
    /// An exception, such as an interrupt.
    Exception,
    /// A data watchpoint.
    Watchpoint,
    /// The end of a single step.
    Step,
    /// A request of the debugger.
    Request,
    /// A halt request from outside.
    External,
    /// No cause is known, as when the core was already halted on connecting.
    Unknown,
}

/// The run state of a core as the probe sees it.
#[derive(Debug, PartialEq, Eq, Copy, Clone, Structural)]
pub enum CoreStatus {
    /// The core executes instructions.
    Running,
    /// The core is stopped, for the reason given.
    Halted(HaltReason),
    /// The core is locked up. Only a Cortex-M core reports this state.
    LockedUp,
    /// The core sleeps.
    Sleeping,
    /// The state could not be told.
    Unknown,
}

impl CoreStatus {
    /// True of a halted core, whatever the reason.
    pub open spec fn spec_is_halted(&self) -> bool {
        *self is Halted
    }

    /// True of a halted core, whatever the reason.
    #[verifier::when_used_as_spec(spec_is_halted)]
    pub fn is_halted(&self) -> (halted: bool)
        ensures
            halted == (*self is Halted),
    {
        matches!(self, CoreStatus::Halted(_))
    }
}

} // verus!
