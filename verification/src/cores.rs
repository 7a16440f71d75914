//! A core of a target, as a debugger works with it.

use vstd::prelude::*;
use vstd::std_specs::convert::IntoSpec;
use std::time::Duration;
use probe_rs_target::{Architecture, CoreType};
use crate::breakpoints::{
    all_free, comparator_for, comparator_of, find_breakpoint, find_free_comparator,
    free_comparator, lemma_comparator_of, locate_breakpoint, with_breakpoint, without_breakpoint,
};
use crate::error::Error;
use crate::interface::{CoreInformation, CoreInterface, CoreModel};
use crate::memory::MemoryInterface;
use crate::registers::{CoreRegisterAddress, RegisterFile};
use crate::state::CoreState;
use crate::status::CoreStatus;

verus! {

/// One core of a target during a probe session.
///
/// A `Core` owns the architecture's implementation of [`CoreInterface`] and
/// holds the core's [`CoreState`] for as long as it lives. It hands every
/// operation on to the implementation and adds the handling of breakpoints
/// by address: which comparator a breakpoint goes to is decided here.
pub struct Core<'probe, C: CoreInterface> {
    inner: C,
    state: &'probe mut CoreState,
}

impl<'probe, C: CoreInterface> Core<'probe, C> {
    /// The implementation that this core works through.
    pub closed spec fn backend(&self) -> C {
        self.inner
    }

    /// The number of the core.
    pub closed spec fn spec_id(&self) -> usize {
        self.state.spec_id()
    }

    /// The core as the contracts see it: the model of its implementation.
    pub open spec fn model(&self) -> CoreModel {
        self.backend().model()
    }

    /// What the comparators of the core hold.
    pub open spec fn comparators(&self) -> Seq<Option<u32>> {
        self.model().comparators
    }

    /// Whether the breakpoint unit of the core is enabled.
    pub open spec fn breakpoints_enabled(&self) -> bool {
        self.model().breakpoints_enabled
    }

    /// A core that works through `core` and is identified by `state`.
    pub fn new(core: C, state: &'probe mut CoreState) -> (made: Core<'probe, C>)
        ensures
            made.backend() == core,
            made.spec_id() == old(state).spec_id(),
    {
        Self { inner: core, state }
    }

    /// The state of a core with the number `id`.
    pub fn create_state(id: usize) -> (state: CoreState)
        ensures
            state.spec_id() == id,
    {
        CoreState::new(id)
    }

    /// The number of the core.
    #[verifier::when_used_as_spec(spec_id)]
    pub fn id(&self) -> (id: usize)
        ensures
            id == self.spec_id(),
    {
        self.state.id()
    }

    /// Waits until the core is halted, and fails with [`Error::Timeout`] if it
    /// does not halt within `timeout`: the implementation's
    /// `wait_for_core_halted` with the same timeout, with what that does and
    /// returns.
    pub fn wait_for_core_halted(&mut self, timeout: Duration) -> (done: Result<(), Error>)
        ensures
            final(self).spec_id() == old(self).spec_id(),
            old(self).backend().wait_for_core_halted_outcome(
                timeout,
                &final(self).backend(),
                done,
            ),
            done is Ok ==> final(self).model().halted,
            done matches Err(e) ==> e.is_probe_failure(),
    {
        self.inner.wait_for_core_halted(timeout)
    }

    /// Tells whether the core is halted, as the implementation's
    /// `core_halted` tells it.
    pub fn core_halted(&mut self) -> (halted: Result<bool, Error>)
        ensures
            final(self).spec_id() == old(self).spec_id(),
            old(self).backend().core_halted_outcome(&final(self).backend(), halted),
            halted matches Ok(h) ==> h == final(self).model().halted,
            halted matches Err(e) ==> e.is_probe_failure(),
    {
        self.inner.core_halted()
    }

    /// Halts the core, and fails with [`Error::Timeout`] if it is not halted
    /// within `timeout`: the implementation's `halt` with the same timeout,
    /// with what that does and returns.
    pub fn halt(&mut self, timeout: Duration) -> (information: Result<CoreInformation, Error>)
        ensures
            final(self).spec_id() == old(self).spec_id(),
            old(self).backend().halt_outcome(timeout, &final(self).backend(), information),
            information is Ok ==> final(self).model().halted,
            information matches Err(e) ==> e.is_probe_failure(),
    {
        self.inner.halt(timeout)
    }

    /// Lets the core run: the implementation's `run`, with what that does
    /// and returns.
    pub fn run(&mut self) -> (done: Result<(), Error>)
        ensures
            final(self).spec_id() == old(self).spec_id(),
            old(self).backend().run_outcome(&final(self).backend(), done),
            done matches Err(e) ==> e.is_probe_failure(),
    {
        self.inner.run()
    }

    /// Resets the core and lets it run: the implementation's `reset`, with
    /// what that does and returns. To have the core halted after the reset,
    /// use [`Core::reset_and_halt`].
    pub fn reset(&mut self) -> (done: Result<(), Error>)
        ensures
            final(self).spec_id() == old(self).spec_id(),
            old(self).backend().reset_outcome(&final(self).backend(), done),
            done matches Err(e) ==> e.is_probe_failure(),
    {
        self.inner.reset()
    }

    /// Resets the core and halts it at once, and fails with
    /// [`Error::Timeout`] if it is not halted within `timeout`: the
    /// implementation's `reset_and_halt` with the same timeout, with what that
    /// does and returns.
    pub fn reset_and_halt(&mut self, timeout: Duration) -> (information: Result<
        CoreInformation,
        Error,
    >)
        ensures
            final(self).spec_id() == old(self).spec_id(),
            old(self).backend().reset_and_halt_outcome(
                timeout,
                &final(self).backend(),
                information,
            ),
            information is Ok ==> final(self).model().halted,
            information matches Err(e) ==> e.is_probe_failure(),
    {
        self.inner.reset_and_halt(timeout)
    }

    /// Executes one instruction and halts again: the implementation's
    /// `step`, with what that does and returns.
    pub fn step(&mut self) -> (information: Result<CoreInformation, Error>)
        ensures
            final(self).spec_id() == old(self).spec_id(),
            old(self).backend().step_outcome(&final(self).backend(), information),
            information is Ok ==> final(self).model().halted,
            information matches Err(e) ==> e.is_probe_failure(),
    {
        self.inner.step()
    }

    /// Tells the run state of the core, as the implementation's `status`
    /// tells it. A RISC-V core is never reported as locked up.
    pub fn status(&mut self) -> (status: Result<CoreStatus, Error>)
        ensures
            final(self).spec_id() == old(self).spec_id(),
            old(self).backend().status_outcome(&final(self).backend(), status),
            status matches Ok(s) ==> s.is_halted() == final(self).model().halted,
            status matches Ok(s) ==> old(self).model().family is Riscv ==> s
                != CoreStatus::LockedUp,
            status matches Err(e) ==> e.is_probe_failure(),
    {
        self.inner.status()
    }

    /// Reads the register at `address`, which may be given as anything that
    /// converts to the address of a register: the implementation's
    /// `read_core_reg` at the address that the conversion gives, with what that
    /// does and returns.
    pub fn read_core_reg<A: Into<CoreRegisterAddress>>(&mut self, address: A) -> (value: Result<
        u32,
        Error,
    >)
        ensures
            final(self).spec_id() == old(self).spec_id(),
            exists|at: CoreRegisterAddress|
                {
                    &&& A::obeys_into_spec() ==> at == A::into_spec(address)
                    &&& #[trigger] old(self).backend().read_core_reg_outcome(
                        at,
                        &final(self).backend(),
                        value,
                    )
                },
            value matches Err(e) ==> e.is_probe_failure(),
    {
        let at: CoreRegisterAddress = address.into();
        let value = self.inner.read_core_reg(at);
        assert(old(self).backend().read_core_reg_outcome(at, &self.backend(), value));
        value
    }

    /// Writes `value` to the register at `address`: the implementation's
    /// `write_core_reg`, with what that does and returns.
    pub fn write_core_reg(&mut self, address: CoreRegisterAddress, value: u32) -> (done: Result<
        (),
        Error,
    >)
        ensures
            final(self).spec_id() == old(self).spec_id(),
            old(self).backend().write_core_reg_outcome(
                address,
                value,
                &final(self).backend(),
                done,
            ),
            done matches Err(e) ==> e.is_probe_failure(),
    {
        self.inner.write_core_reg(address, value)
    }

    /// Tells how many comparators the core has, as the implementation's
    /// `get_available_breakpoint_units` tells it.
    pub fn get_available_breakpoint_units(&mut self) -> (units: Result<u32, Error>)
        ensures
            final(self).spec_id() == old(self).spec_id(),
            old(self).backend().get_available_breakpoint_units_outcome(
                &final(self).backend(),
                units,
            ),
            units matches Ok(n) ==> {
                &&& n == old(self).comparators().len()
                &&& final(self).comparators() == old(self).comparators()
                &&& final(self).breakpoints_enabled() == old(self).breakpoints_enabled()
            },
            units matches Err(e) ==> e.is_probe_failure(),
    {
        self.inner.get_available_breakpoint_units()
    }

    /// Enables or disables the breakpoint unit.
    fn enable_breakpoints(&mut self, state: bool) -> (done: Result<(), Error>)
        ensures
            final(self).spec_id() == old(self).spec_id(),
            old(self).backend().enable_breakpoints_outcome(state, &final(self).backend(), done),
            done is Ok ==> {
                &&& final(self).breakpoints_enabled() == state
                &&& final(self).comparators() == old(self).comparators()
            },
            done matches Err(e) ==> e.is_probe_failure(),
    {
        self.inner.enable_breakpoints(state)
    }

    /// The register file of the core's architecture.
    pub fn registers(&self) -> (file: &'static RegisterFile)
        ensures
            file == self.model().register_file,
    {
        self.inner.registers()
    }

    /// The architecture family of the core.
    pub fn architecture(&self) -> (family: Architecture)
        ensures
            family == self.model().family,
    {
        self.inner.architecture()
    }

    /// Reads the comparators and finds the first free one. Fails with
    /// [`Error::NoAvailableBreakpoints`] when every comparator is in use, and
    /// with the failure of the read when the comparators could not be read.
    fn find_free_breakpoint_comparator_index(&mut self) -> (found: Result<usize, Error>)
        ensures
            final(self).spec_id() == old(self).spec_id(),
            match found {
                Ok(i) => {
                    &&& free_comparator(old(self).comparators()) == Some(i as int)
                    &&& i < old(self).comparators().len()
                    &&& final(self).comparators() == old(self).comparators()
                    &&& final(self).breakpoints_enabled() == old(self).breakpoints_enabled()
                },
                Err(Error::NoAvailableBreakpoints) => {
                    &&& free_comparator(old(self).comparators()) is None
                    &&& final(self).comparators() == old(self).comparators()
                    &&& final(self).breakpoints_enabled() == old(self).breakpoints_enabled()
                },
                Err(e) => {
                    &&& e.is_probe_failure()
                    &&& old(self).backend().get_hw_breakpoints_outcome(
                        &final(self).backend(),
                        Err(e),
                    )
                },
            },
    {
        match self.inner.get_hw_breakpoints() {
            Ok(slots) => find_free_comparator(&slots),
            Err(e) => Err(e),
        }
    }

    /// Sets a hardware breakpoint at `address`.
    ///
    /// The breakpoint unit is enabled first if it is not yet. A breakpoint
    /// that is already set at `address` keeps its comparator and is written
    /// again; a new one takes the first free comparator. When the address is
    /// not set and no comparator is free, the call fails with
    /// [`Error::NoAvailableBreakpoints`] and no comparator is changed. Any
    /// other failure is the one that the implementation returned when the unit
    /// was enabled, the comparators were read or the comparator was written,
    /// handed on as it is, and the implementation is left as that call left
    /// it.
    pub fn set_hw_breakpoint(&mut self, address: u32) -> (done: Result<(), Error>)
        ensures
            final(self).spec_id() == old(self).spec_id(),
            match done {
                Ok(()) => {
                    &&& comparator_for(old(self).comparators(), address) matches Some(index)
                    &&& comparator_written(final(self).backend(), index, address, done)
                    &&& final(self).comparators() == with_breakpoint(
                        old(self).comparators(),
                        address,
                    )
                    &&& final(self).breakpoints_enabled()
                },
                Err(Error::NoAvailableBreakpoints) => {
                    &&& comparator_for(old(self).comparators(), address) is None
                    &&& final(self).comparators() == old(self).comparators()
                    &&& final(self).breakpoints_enabled()
                },
                Err(e) => {
                    &&& e.is_probe_failure()
                    &&& {
                        ||| unit_enabled(final(self).backend(), done)
                        ||| comparators_read(final(self).backend(), Err(e))
                        ||| (comparator_for(old(self).comparators(), address) matches Some(index)
                            && comparator_written(final(self).backend(), index, address, done))
                    }
                },
            },
    {
        if !self.inner.hw_breakpoints_enabled() {
            let ghost start = self.backend();
            match self.enable_breakpoints(true) {
                Ok(()) => {},
                Err(e) => {
                    assert(start.enable_breakpoints_outcome(true, &self.backend(), Err(e)));
                    return Err(e);
                },
            }
        }
        let ghost armed = self.backend();
        let slots = match self.inner.get_hw_breakpoints() {
            Ok(slots) => slots,
            Err(e) => {
                assert(armed.get_hw_breakpoints_outcome(&self.backend(), Err(e)));
                return Err(e);
            },
        };
        let ghost seen = self.backend();
        let breakpoint_comparator_index = match find_breakpoint(&slots, address) {
            Some(index) => index,
            None => match self.find_free_breakpoint_comparator_index() {
                Ok(index) => index,
                Err(e) => {
                    assert(e.is_probe_failure() ==> seen.get_hw_breakpoints_outcome(
                        &self.backend(),
                        Err(e),
                    ));
                    return Err(e);
                },
            },
        };
        let ghost ready = self.backend();
        let done = self.inner.set_hw_breakpoint(breakpoint_comparator_index, address);
        assert(comparator_written(self.backend(), breakpoint_comparator_index as int, address, done))
            by {
            assert(ready.set_hw_breakpoint_outcome(
                (breakpoint_comparator_index as int) as usize,
                address,
                &self.backend(),
                done,
            ));
        }
        done
    }

    /// Clears the hardware breakpoint at `address`: the first comparator
    /// that holds the address is freed. When no comparator holds it, the call
    /// fails with [`Error::BreakpointNotFound`] and no comparator is changed.
    /// Any other failure is the one that the implementation returned when the
    /// comparators were read or the comparator was freed, handed on as it is,
    /// and the implementation is left as that call left it.
    pub fn clear_hw_breakpoint(&mut self, address: u32) -> (done: Result<(), Error>)
        ensures
            final(self).spec_id() == old(self).spec_id(),
            match done {
                Ok(()) => {
                    &&& comparator_of(old(self).comparators(), address) matches Some(index)
                    &&& comparator_freed(final(self).backend(), index, done)
                    &&& final(self).comparators() == without_breakpoint(
                        old(self).comparators(),
                        address,
                    )
                    &&& final(self).breakpoints_enabled() == old(self).breakpoints_enabled()
                },
                Err(Error::BreakpointNotFound(missing)) => {
                    &&& missing == address
                    &&& comparator_of(old(self).comparators(), address) is None
                    &&& final(self).comparators() == old(self).comparators()
                    &&& final(self).breakpoints_enabled() == old(self).breakpoints_enabled()
                },
                Err(e) => {
                    &&& e.is_probe_failure()
                    &&& {
                        ||| old(self).backend().get_hw_breakpoints_outcome(
                            &final(self).backend(),
                            Err(e),
                        )
                        ||| (comparator_of(old(self).comparators(), address) matches Some(index)
                            && comparator_freed(final(self).backend(), index, done))
                    }
                },
            },
    {
        let slots = match self.inner.get_hw_breakpoints() {
            Ok(slots) => slots,
            Err(e) => {
                return Err(e);
            },
        };
        match locate_breakpoint(&slots, address) {
            Ok(bp_position) => {
                let ghost ready = self.backend();
                let done = self.inner.clear_hw_breakpoint(bp_position);
                assert(comparator_freed(self.backend(), bp_position as int, done)) by {
                    assert(ready.clear_hw_breakpoint_outcome(
                        (bp_position as int) as usize,
                        &self.backend(),
                        done,
                    ));
                }
                done
            },
            Err(e) => Err(e),
        }
    }

    /// Clears every hardware breakpoint that is set on the core, whoever set
    /// it and whether the breakpoint unit is enabled or not. Afterwards every
    /// comparator is free. On a core without breakpoints nothing is changed.
    /// A failure is the one that the implementation returned when the
    /// comparators were read or a comparator was freed, handed on as it is;
    /// the breakpoints that were not reached stay set.
    pub fn clear_all_hw_breakpoints(&mut self) -> (done: Result<(), Error>)
        ensures
            final(self).spec_id() == old(self).spec_id(),
            match done {
                Ok(()) => {
                    &&& final(self).comparators() == all_free(old(self).comparators().len())
                    &&& final(self).breakpoints_enabled() == old(self).breakpoints_enabled()
                },
                Err(e) => {
                    &&& e.is_probe_failure()
                    &&& {
                        ||| comparators_read(final(self).backend(), Err(e))
                        ||| exists|index: int| #[trigger]
                            comparator_freed(final(self).backend(), index, done)
                    }
                },
            },
    {
        let ghost start = self.backend();
        let slots = match self.inner.get_hw_breakpoints() {
            Ok(slots) => slots,
            Err(e) => {
                assert(start.get_hw_breakpoints_outcome(&self.backend(), Err(e)));
                return Err(e);
            },
        };
        let mut next: usize = 0;
        while next < slots.len()
            invariant
                next <= slots@.len(),
                slots@ == old(self).comparators(),
                self.spec_id() == old(self).spec_id(),
                self.breakpoints_enabled() == old(self).breakpoints_enabled(),
                self.comparators().len() == slots@.len(),
                forall|k: int| 0 <= k < next ==> self.comparators()[k] is None,
                forall|k: int| next <= k < slots@.len() ==> self.comparators()[k] == slots@[k],
            decreases slots@.len() - next,
        {
            if let Some(breakpoint) = slots[next] {
                let ghost before = self.backend();
                proof {
                    lemma_comparator_of(before.model().comparators, breakpoint);
                }
                match self.clear_hw_breakpoint(breakpoint) {
                    Ok(()) => {},
                    Err(e) => {
                        assert(before.get_hw_breakpoints_outcome(&self.backend(), Err(e))
                            ==> comparators_read(self.backend(), Err(e)));
                        return Err(e);
                    },
                }
            }
            next += 1;
        }
        assert(self.comparators() =~= all_free(old(self).comparators().len()));
        Ok(())
    }
}

/// True when the breakpoint unit was enabled with the outcome `done`, which
/// left the implementation as `after`.
pub open spec fn unit_enabled<C: CoreInterface>(after: C, done: Result<(), Error>) -> bool {
    exists|from: C| #[trigger] from.enable_breakpoints_outcome(true, &after, done)
}

/// True when the comparators were read with the outcome `read`, which left
/// the implementation as `after`.
pub open spec fn comparators_read<C: CoreInterface>(
    after: C,
    read: Result<Vec<Option<u32>>, Error>,
) -> bool {
    exists|from: C| #[trigger] from.get_hw_breakpoints_outcome(&after, read)
}

/// True when the comparator `index` was set to `address` with the outcome
/// `done`, which left the implementation as `after`.
pub open spec fn comparator_written<C: CoreInterface>(
    after: C,
    index: int,
    address: u32,
    done: Result<(), Error>,
) -> bool {
    exists|from: C| #[trigger] from.set_hw_breakpoint_outcome(index as usize, address, &after, done)
}

/// True when the comparator `index` was freed with the outcome `done`, which
/// left the implementation as `after`.
pub open spec fn comparator_freed<C: CoreInterface>(
    after: C,
    index: int,
    done: Result<(), Error>,
) -> bool {
    exists|from: C| #[trigger] from.clear_hw_breakpoint_outcome(index as usize, &after, done)
}

/// A core is itself a memory interface: every access is the
/// implementation's, at the same address and with the same data, and the core
/// stays the one it was.
impl<'probe, C: CoreInterface> MemoryInterface for Core<'probe, C> {
    open spec fn read_word_32_outcome(
        &self,
        address: u32,
        after: &Self,
        word: Result<u32, Error>,
    ) -> bool {
        &&& self.backend().read_word_32_outcome(address, &after.backend(), word)
        &&& after.spec_id() == self.spec_id()
    }

    open spec fn read_word_8_outcome(
        &self,
        address: u32,
        after: &Self,
        byte: Result<u8, Error>,
    ) -> bool {
        &&& self.backend().read_word_8_outcome(address, &after.backend(), byte)
        &&& after.spec_id() == self.spec_id()
    }

    open spec fn read_32_outcome(
        &self,
        address: u32,
        given: Seq<u32>,
        after: &Self,
        filled: Seq<u32>,
        done: Result<(), Error>,
    ) -> bool {
        &&& self.backend().read_32_outcome(address, given, &after.backend(), filled, done)
        &&& after.spec_id() == self.spec_id()
    }

    open spec fn read_8_outcome(
        &self,
        address: u32,
        given: Seq<u8>,
        after: &Self,
        filled: Seq<u8>,
        done: Result<(), Error>,
    ) -> bool {
        &&& self.backend().read_8_outcome(address, given, &after.backend(), filled, done)
        &&& after.spec_id() == self.spec_id()
    }

    open spec fn write_word_32_outcome(
        &self,
        addr: u32,
        data: u32,
        after: &Self,
        done: Result<(), Error>,
    ) -> bool {
        &&& self.backend().write_word_32_outcome(addr, data, &after.backend(), done)
        &&& after.spec_id() == self.spec_id()
    }

    open spec fn write_word_8_outcome(
        &self,
        addr: u32,
        data: u8,
        after: &Self,
        done: Result<(), Error>,
    ) -> bool {
        &&& self.backend().write_word_8_outcome(addr, data, &after.backend(), done)
        &&& after.spec_id() == self.spec_id()
    }

    open spec fn write_32_outcome(
        &self,
        addr: u32,
        data: Seq<u32>,
        after: &Self,
        done: Result<(), Error>,
    ) -> bool {
        &&& self.backend().write_32_outcome(addr, data, &after.backend(), done)
        &&& after.spec_id() == self.spec_id()
    }

    open spec fn write_8_outcome(
        &self,
        addr: u32,
        data: Seq<u8>,
        after: &Self,
        done: Result<(), Error>,
    ) -> bool {
        &&& self.backend().write_8_outcome(addr, data, &after.backend(), done)
        &&& after.spec_id() == self.spec_id()
    }

    open spec fn flush_outcome(&self, after: &Self, done: Result<(), Error>) -> bool {
        &&& self.backend().flush_outcome(&after.backend(), done)
        &&& after.spec_id() == self.spec_id()
    }

    fn read_word_32(&mut self, address: u32) -> (word: Result<u32, Error>)
        ensures
            final(self).spec_id() == old(self).spec_id(),
    {
        self.inner.read_word_32(address)
    }

    fn read_word_8(&mut self, address: u32) -> (byte: Result<u8, Error>)
        ensures
            final(self).spec_id() == old(self).spec_id(),
    {
        self.inner.read_word_8(address)
    }

    fn read_32(&mut self, address: u32, data: &mut [u32]) -> (done: Result<(), Error>)
        ensures
            final(self).spec_id() == old(self).spec_id(),
    {
        self.inner.read_32(address, data)
    }

    fn read_8(&mut self, address: u32, data: &mut [u8]) -> (done: Result<(), Error>)
        ensures
            final(self).spec_id() == old(self).spec_id(),
    {
        self.inner.read_8(address, data)
    }

    fn write_word_32(&mut self, addr: u32, data: u32) -> (done: Result<(), Error>)
        ensures
            final(self).spec_id() == old(self).spec_id(),
    {
        self.inner.write_word_32(addr, data)
    }

    fn write_word_8(&mut self, addr: u32, data: u8) -> (done: Result<(), Error>)
        ensures
            final(self).spec_id() == old(self).spec_id(),
    {
        self.inner.write_word_8(addr, data)
    }

    fn write_32(&mut self, addr: u32, data: &[u32]) -> (done: Result<(), Error>)
        ensures
            final(self).spec_id() == old(self).spec_id(),
    {
        self.inner.write_32(addr, data)
    }

    fn write_8(&mut self, addr: u32, data: &[u8]) -> (done: Result<(), Error>)
        ensures
            final(self).spec_id() == old(self).spec_id(),
    {
        self.inner.write_8(addr, data)
    }

    fn flush(&mut self) -> (done: Result<(), Error>)
        ensures
            final(self).spec_id() == old(self).spec_id(),
    {
        self.inner.flush()
    }
}

/// The types of the cores of a target, in the order of their numbers.
pub struct CoreList<'probe>(&'probe [CoreType]);

impl<'probe> CoreList<'probe> {
    /// The core types that the list holds.
    pub closed spec fn view(&self) -> Seq<CoreType> {
        self.0@
    }

    /// The list of the given core types.
    pub fn new(cores: &'probe [CoreType]) -> (list: Self)
        ensures
            list@ == cores@,
    {
        Self(cores)
    }
}

impl<'probe> std::ops::Deref for CoreList<'probe> {
    type Target = [CoreType];

    fn deref(&self) -> (cores: &Self::Target)
        ensures
            cores@ == self@,
    {
        self.0
    }
}

/// The name under which a breakpoint is known to whoever set it.
#[derive(Debug, Copy, Clone, PartialEq, Eq, Structural)]
pub struct BreakpointId(usize);

impl BreakpointId {
    /// The number behind the name.
    pub closed spec fn number(&self) -> usize {
        self.0
    }

    /// The name with the number `id`.
    pub fn new(id: usize) -> (made: Self)
        ensures
            made.number() == id,
    {
        BreakpointId(id)
    }

    /// A name is its number and nothing else: two names are the same exactly
    /// when their numbers are.
    pub proof fn lemma_same_number_same_name(first: BreakpointId, second: BreakpointId)
        ensures
            first == second <==> first.number() == second.number(),
    {
    }
}

/// A breakpoint that is set on a core: its address, and the comparator that
/// holds it.
#[derive(Clone, Debug)]
pub struct Breakpoint {
    address: u32,
    register_hw: usize,
}

} // verus!
