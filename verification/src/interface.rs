//! What an architecture has to provide for a core to be controlled.

use vstd::prelude::*;
use std::time::Duration;
use probe_rs_target::Architecture;
use crate::error::Error;
use crate::memory::MemoryInterface;
use crate::registers::{CoreRegisterAddress, RegisterFile};
use crate::status::CoreStatus;

verus! {

/// What is known of a core once it has been halted.
#[derive(Debug, Clone)]
pub struct CoreInformation {
    /// The program counter at which the core stands.
    pub pc: u32,
}

/// What the contracts know of a core: the facts that the operations of
/// [`CoreInterface`] are stated over.
pub struct CoreModel {
    /// The architecture family of the core.
    pub family: Architecture,
    /// The register file of the core's architecture.
    pub register_file: &'static RegisterFile,
    /// Whether the core was halted when it was last looked at.
    pub halted: bool,
    /// Whether the breakpoint unit is enabled.
    pub breakpoints_enabled: bool,
    /// What the comparators hold, one entry each: the address of the
    /// breakpoint that is set there, or `None` where the comparator is free.
    pub comparators: Seq<Option<u32>>,
}

/// The operations that every architecture offers on a core: running,
/// halting and stepping it, reading and writing its registers, and setting
/// its hardware breakpoint comparators one by one.
///
/// The contracts speak of a core through its [`CoreModel`]. An
/// implementation says how its own state gives the model, and has each method
/// keep to what is stated of it here. A method that fails may leave the core
/// in any state. Its failure is one of the probe: this interface reports a
/// timeout or a communication failure, never one of the errors that are
/// decided above it.
///
/// The model does not tell everything that an operation does: not what
/// running or resetting does to the program on the core, not what a register
/// holds, not which state is reported. As in [`MemoryInterface`], the
/// implementation says that itself, in the relation that stands beside each
/// method that acts on the core, under the method's name and `_outcome`.
///
/// The model exists for the verifier alone and is never computed when the
/// program runs.
pub trait CoreInterface: MemoryInterface {
    /// The core as the contracts see it.
    spec fn model(&self) -> CoreModel;

    /// What letting the core run may do.
    open spec fn run_outcome(&self, after: &Self, done: Result<(), Error>) -> bool {
        true
    }

    /// What resetting the core may do.
    open spec fn reset_outcome(&self, after: &Self, done: Result<(), Error>) -> bool {
        true
    }

    /// What reading the register at `address` may give.
    open spec fn read_core_reg_outcome(
        &self,
        address: CoreRegisterAddress,
        after: &Self,
        value: Result<u32, Error>,
    ) -> bool {
        true
    }

    /// What writing `value` to the register at `address` may do.
    open spec fn write_core_reg_outcome(
        &self,
        address: CoreRegisterAddress,
        value: u32,
        after: &Self,
        done: Result<(), Error>,
    ) -> bool {
        true
    }

    /// What waiting up to `timeout` for the core to halt may do.
    open spec fn wait_for_core_halted_outcome(
        &self,
        timeout: Duration,
        after: &Self,
        done: Result<(), Error>,
    ) -> bool {
        true
    }

    /// What asking whether the core is halted may give.
    open spec fn core_halted_outcome(&self, after: &Self, halted: Result<bool, Error>) -> bool {
        true
    }

    /// What asking for the run state of the core may give.
    open spec fn status_outcome(&self, after: &Self, status: Result<CoreStatus, Error>) -> bool {
        true
    }

    /// What halting the core within `timeout` may do.
    open spec fn halt_outcome(
        &self,
        timeout: Duration,
        after: &Self,
        information: Result<CoreInformation, Error>,
    ) -> bool {
        true
    }

    /// What resetting the core and halting it within `timeout` may do.
    open spec fn reset_and_halt_outcome(
        &self,
        timeout: Duration,
        after: &Self,
        information: Result<CoreInformation, Error>,
    ) -> bool {
        true
    }

    /// What executing one instruction may do.
    open spec fn step_outcome(
        &self,
        after: &Self,
        information: Result<CoreInformation, Error>,
    ) -> bool {
        true
    }

    /// What asking for the number of comparators may give.
    open spec fn get_available_breakpoint_units_outcome(
        &self,
        after: &Self,
        units: Result<u32, Error>,
    ) -> bool {
        true
    }

    /// What reading the comparators may give.
    open spec fn get_hw_breakpoints_outcome(
        &self,
        after: &Self,
        breakpoints: Result<Vec<Option<u32>>, Error>,
    ) -> bool {
        true
    }

    /// What enabling or disabling the breakpoint unit may do.
    open spec fn enable_breakpoints_outcome(
        &self,
        state: bool,
        after: &Self,
        done: Result<(), Error>,
    ) -> bool {
        true
    }

    /// What setting the comparator `bp_unit_index` to `addr` may do.
    open spec fn set_hw_breakpoint_outcome(
        &self,
        bp_unit_index: usize,
        addr: u32,
        after: &Self,
        done: Result<(), Error>,
    ) -> bool {
        true
    }

    /// What freeing the comparator `unit_index` may do.
    open spec fn clear_hw_breakpoint_outcome(
        &self,
        unit_index: usize,
        after: &Self,
        done: Result<(), Error>,
    ) -> bool {
        true
    }

    /// Waits until the core is halted, and fails with [`Error::Timeout`] if it
    /// does not halt within `timeout`.
    fn wait_for_core_halted(&mut self, timeout: Duration) -> (done: Result<(), Error>)
        ensures
            old(self).wait_for_core_halted_outcome(timeout, final(self), done),
            done is Ok ==> final(self).model().halted,
            done matches Err(e) ==> e.is_probe_failure(),
    ;

    /// Tells whether the core is halted.
    fn core_halted(&mut self) -> (halted: Result<bool, Error>)
        ensures
            old(self).core_halted_outcome(final(self), halted),
            halted matches Ok(h) ==> h == final(self).model().halted,
            halted matches Err(e) ==> e.is_probe_failure(),
    ;

    /// Tells the run state of the core. A RISC-V core is never reported as
    /// locked up.
    fn status(&mut self) -> (status: Result<CoreStatus, Error>)
        ensures
            old(self).status_outcome(final(self), status),
            status matches Ok(s) ==> s.is_halted() == final(self).model().halted,
            status matches Ok(s) ==> old(self).model().family is Riscv ==> s != CoreStatus::LockedUp,
            status matches Err(e) ==> e.is_probe_failure(),
    ;

    /// Halts the core, and fails with [`Error::Timeout`] if it is not halted
    /// within `timeout`.
    fn halt(&mut self, timeout: Duration) -> (information: Result<CoreInformation, Error>)
        ensures
            old(self).halt_outcome(timeout, final(self), information),
            information is Ok ==> final(self).model().halted,
            information matches Err(e) ==> e.is_probe_failure(),
    ;

    /// Lets the core run.
    fn run(&mut self) -> (done: Result<(), Error>)
        ensures
            old(self).run_outcome(final(self), done),
            done matches Err(e) ==> e.is_probe_failure(),
    ;

    /// Resets the core and lets it run.
    fn reset(&mut self) -> (done: Result<(), Error>)
        ensures
            old(self).reset_outcome(final(self), done),
            done matches Err(e) ==> e.is_probe_failure(),
    ;

    /// Resets the core and halts it at once, and fails with
    /// [`Error::Timeout`] if it is not halted within `timeout`.
    fn reset_and_halt(&mut self, timeout: Duration) -> (information: Result<
        CoreInformation,
        Error,
    >)
        ensures
            old(self).reset_and_halt_outcome(timeout, final(self), information),
            information is Ok ==> final(self).model().halted,
            information matches Err(e) ==> e.is_probe_failure(),
    ;

    /// Executes one instruction and halts again.
    fn step(&mut self) -> (information: Result<CoreInformation, Error>)
        ensures
            old(self).step_outcome(final(self), information),
            information is Ok ==> final(self).model().halted,
            information matches Err(e) ==> e.is_probe_failure(),
    ;

    /// Reads the register at `address`.
    fn read_core_reg(&mut self, address: CoreRegisterAddress) -> (value: Result<u32, Error>)
        ensures
            old(self).read_core_reg_outcome(address, final(self), value),
            value matches Err(e) ==> e.is_probe_failure(),
    ;

    /// Writes `value` to the register at `address`.
    fn write_core_reg(&mut self, address: CoreRegisterAddress, value: u32) -> (done: Result<
        (),
        Error,
    >)
        ensures
            old(self).write_core_reg_outcome(address, value, final(self), done),
            done matches Err(e) ==> e.is_probe_failure(),
    ;

    /// Tells how many comparators the core has.
    fn get_available_breakpoint_units(&mut self) -> (units: Result<u32, Error>)
        ensures
            old(self).get_available_breakpoint_units_outcome(final(self), units),
            units matches Ok(n) ==> {
                &&& n == old(self).model().comparators.len()
                &&& final(self).model().comparators == old(self).model().comparators
                &&& final(self).model().breakpoints_enabled == old(self).model().breakpoints_enabled
            },
            units matches Err(e) ==> e.is_probe_failure(),
    ;

    /// Reads every comparator, whether the breakpoint unit is enabled or not.
    fn get_hw_breakpoints(&mut self) -> (breakpoints: Result<Vec<Option<u32>>, Error>)
        ensures
            old(self).get_hw_breakpoints_outcome(final(self), breakpoints),
            breakpoints matches Ok(slots) ==> {
                &&& slots@ == old(self).model().comparators
                &&& final(self).model().comparators == old(self).model().comparators
                &&& final(self).model().breakpoints_enabled == old(self).model().breakpoints_enabled
            },
            breakpoints matches Err(e) ==> e.is_probe_failure(),
    ;

    /// Enables or disables the breakpoint unit. What the comparators hold
    /// stays.
    fn enable_breakpoints(&mut self, state: bool) -> (done: Result<(), Error>)
        ensures
            old(self).enable_breakpoints_outcome(state, final(self), done),
            done is Ok ==> {
                &&& final(self).model().breakpoints_enabled == state
                &&& final(self).model().comparators == old(self).model().comparators
            },
            done matches Err(e) ==> e.is_probe_failure(),
    ;

    /// Sets the comparator `bp_unit_index` to `addr`.
    fn set_hw_breakpoint(&mut self, bp_unit_index: usize, addr: u32) -> (done: Result<(), Error>)
        ensures
            old(self).set_hw_breakpoint_outcome(bp_unit_index, addr, final(self), done),
            done is Ok && bp_unit_index < old(self).model().comparators.len() ==> {
                &&& final(self).model().comparators == old(self).model().comparators.update(
                    bp_unit_index as int,
                    Some(addr),
                )
                &&& final(self).model().breakpoints_enabled == old(self).model().breakpoints_enabled
            },
            done matches Err(e) ==> e.is_probe_failure(),
    ;

    /// Frees the comparator `unit_index`.
    fn clear_hw_breakpoint(&mut self, unit_index: usize) -> (done: Result<(), Error>)
        ensures
            old(self).clear_hw_breakpoint_outcome(unit_index, final(self), done),
            done is Ok && unit_index < old(self).model().comparators.len() ==> {
                &&& final(self).model().comparators == old(self).model().comparators.update(
                    unit_index as int,
                    None,
                )
                &&& final(self).model().breakpoints_enabled == old(self).model().breakpoints_enabled
            },
            done matches Err(e) ==> e.is_probe_failure(),
    ;

    /// The register file of the core's architecture.
    fn registers(&self) -> (file: &'static RegisterFile)
        ensures
            file == self.model().register_file,
    ;

    /// Whether the breakpoint unit is enabled.
    fn hw_breakpoints_enabled(&self) -> (enabled: bool)
        ensures
            enabled == self.model().breakpoints_enabled,
    ;

    /// The architecture family of the core.
    fn architecture(&self) -> (family: Architecture)
        ensures
            family == self.model().family,
    ;
}

} // verus!
