//! The state that is kept for each core of a target between probe sessions.

use vstd::prelude::*;
use probe_rs_target::{Architecture, CoreType};
use crate::cores::Core;
use crate::error::Error;
use crate::interface::CoreInterface;
use crate::status::CoreStatus;

verus! {

/// The identity of one core of a target: the number it was given when the
/// target's cores were set up.
#[derive(Debug)]
pub struct CoreState {
    id: usize,
}

impl CoreState {
    /// The number of the core.
    pub closed spec fn spec_id(&self) -> usize {
        self.id
    }

    /// The state of the core with the number `id`.
    pub fn new(id: usize) -> (state: Self)
        ensures
            state.spec_id() == id,
    {
        Self { id }
    }

    /// The number of the core.
    #[verifier::when_used_as_spec(spec_id)]
    pub fn id(&self) -> (id: usize)
        ensures
            id == self.spec_id(),
    {
        self.id
    }
}

/// The debug state of an ARM core that outlives a probe session.
#[derive(Debug)]
pub struct State {
    /// Whether debugging has been set up on the core.
    pub initialized: bool,
    /// Whether the breakpoint unit has been enabled.
    pub hw_breakpoints_enabled: bool,
    /// The run state in which the core was last seen.
    pub current_state: CoreStatus,
}

impl State {
    /// True of the state of a core that has not been touched yet.
    pub open spec fn is_fresh(&self) -> bool {
        &&& !self.initialized
        &&& !self.hw_breakpoints_enabled
        &&& self.current_state == CoreStatus::Unknown
    }

    /// The state of a core that has not been touched yet.
    pub fn new() -> (state: Self)
        ensures
            state.is_fresh(),
    {
        Self { initialized: false, hw_breakpoints_enabled: false, current_state: CoreStatus::Unknown }
    }
}

/// The state of one core, tagged with its architecture. The ARM
/// architectures carry their debug state; a RISC-V core keeps its state in
/// the interface it is reached through.
#[derive(Debug)]
pub enum SpecificCoreState {
    /// An ARMv6-M core.
    Armv6m(State),
    /// An ARMv7-M core.
    Armv7m(State),
    /// An ARMv7E-M core.
    Armv7em(State),
    /// An ARMv8-M core.
    Armv8m(State),
    /// A RISC-V core.
    Riscv,
}

/// The ARM implementation to bring up for a core, with the debug state that
/// it is to work on. ARMv7-M and ARMv7E-M cores share one implementation.
#[derive(Debug)]
pub enum ArmCore<'probe> {
    /// The ARMv6-M implementation.
    Armv6m(&'probe mut State),
    /// The ARMv7-M implementation.
    Armv7m(&'probe mut State),
    /// The ARMv8-M implementation.
    Armv8m(&'probe mut State),
}

impl SpecificCoreState {
    /// The core type that this state is tagged with.
    pub open spec fn spec_core_type(&self) -> CoreType {
        match self {
            SpecificCoreState::Armv6m(_) => CoreType::Armv6m,
            SpecificCoreState::Armv7m(_) => CoreType::Armv7m,
            SpecificCoreState::Armv7em(_) => CoreType::Armv7em,
            SpecificCoreState::Armv8m(_) => CoreType::Armv8m,
            SpecificCoreState::Riscv => CoreType::Riscv,
        }
    }

    /// The architecture family of the core.
    pub open spec fn family(&self) -> Architecture {
        match self {
            SpecificCoreState::Riscv => Architecture::Riscv,
            _ => Architecture::Arm,
        }
    }

    /// The debug state that an ARM core carries.
    pub open spec fn arm_state(&self) -> Option<State> {
        match self {
            SpecificCoreState::Armv6m(s) => Some(*s),
            SpecificCoreState::Armv7m(s) => Some(*s),
            SpecificCoreState::Armv7em(s) => Some(*s),
            SpecificCoreState::Armv8m(s) => Some(*s),
            SpecificCoreState::Riscv => None,
        }
    }

    /// The state of a core of the type `typ` that has not been touched yet.
    pub fn from_core_type(typ: CoreType) -> (state: Self)
        ensures
            state.spec_core_type() == typ,
            state.arm_state() matches Some(s) ==> s.is_fresh(),
    {
        match typ {
            CoreType::Armv6m => SpecificCoreState::Armv6m(State::new()),
            CoreType::Armv7m => SpecificCoreState::Armv7m(State::new()),
            CoreType::Armv7em => SpecificCoreState::Armv7em(State::new()),
            CoreType::Armv8m => SpecificCoreState::Armv8m(State::new()),
            CoreType::Riscv => SpecificCoreState::Riscv,
        }
    }

    /// The core type that this state is tagged with.
    #[verifier::when_used_as_spec(spec_core_type)]
    pub fn core_type(&self) -> (typ: CoreType)
        ensures
            typ == self.spec_core_type(),
    {
        match self {
            SpecificCoreState::Armv6m(_) => CoreType::Armv6m,
            SpecificCoreState::Armv7m(_) => CoreType::Armv7m,
            SpecificCoreState::Armv7em(_) => CoreType::Armv7em,
            SpecificCoreState::Armv8m(_) => CoreType::Armv8m,
            SpecificCoreState::Riscv => CoreType::Riscv,
        }
    }

    /// Chooses the ARM implementation to attach this core with, given the
    /// family that the target's debug sequence is for, and hands out the
    /// core's debug state for it. Fails with [`Error::ArchitectureMismatch`]
    /// when the debug sequence is not one for ARM or the core is not an ARM
    /// core.
    pub fn attach_arm<'probe>(&'probe mut self, debug_sequence: Architecture) -> (attached: Result<
        ArmCore<'probe>,
        Error,
    >)
        ensures
            match attached {
                Ok(ArmCore::Armv6m(s)) => {
                    &&& debug_sequence is Arm
                    &&& *old(self) == SpecificCoreState::Armv6m(*s)
                    &&& *final(self) == SpecificCoreState::Armv6m(*final(s))
                },
                Ok(ArmCore::Armv7m(s)) => {
                    &&& debug_sequence is Arm
                    &&& {
                        ||| {
                            &&& *old(self) == SpecificCoreState::Armv7m(*s)
                            &&& *final(self) == SpecificCoreState::Armv7m(*final(s))
                        }
                        ||| {
                            &&& *old(self) == SpecificCoreState::Armv7em(*s)
                            &&& *final(self) == SpecificCoreState::Armv7em(*final(s))
                        }
                    }
                },
                Ok(ArmCore::Armv8m(s)) => {
                    &&& debug_sequence is Arm
                    &&& *old(self) == SpecificCoreState::Armv8m(*s)
                    &&& *final(self) == SpecificCoreState::Armv8m(*final(s))
                },
                Err(e) => {
                    &&& e == Error::ArchitectureMismatch
                    &&& debug_sequence is Riscv || *old(self) is Riscv
                    &&& *final(self) == *old(self)
                },
            },
    {
        match debug_sequence {
            Architecture::Arm => {},
            Architecture::Riscv => {
                return Err(Error::ArchitectureMismatch);
            },
        }
        match self {
            SpecificCoreState::Armv6m(s) => Ok(ArmCore::Armv6m(s)),
            SpecificCoreState::Armv7m(s) => Ok(ArmCore::Armv7m(s)),
            SpecificCoreState::Armv7em(s) => Ok(ArmCore::Armv7m(s)),
            SpecificCoreState::Armv8m(s) => Ok(ArmCore::Armv8m(s)),
            SpecificCoreState::Riscv => Err(Error::ArchitectureMismatch),
        }
    }

    /// Attaches a RISC-V core: binds `core`, the implementation over the
    /// session's RISC-V interface, to `state`. Fails with
    /// [`Error::ArchitectureMismatch`] when this is not the state of a RISC-V
    /// core.
    pub fn attach_riscv<'probe, C: CoreInterface>(
        &self,
        state: &'probe mut CoreState,
        core: C,
    ) -> (attached: Result<Core<'probe, C>, Error>)
        ensures
            match attached {
                Ok(made) => {
                    &&& *self is Riscv
                    &&& made.backend() == core
                    &&& made.spec_id() == old(state).spec_id()
                },
                Err(e) => {
                    &&& !(*self is Riscv)
                    &&& e == Error::ArchitectureMismatch
                    &&& *final(state) == *old(state)
                },
            },
    {
        match self {
            SpecificCoreState::Riscv => Ok(Core::new(core, state)),
            _ => Err(Error::ArchitectureMismatch),
        }
    }
}

} // verus!
