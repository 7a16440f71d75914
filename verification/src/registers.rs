//! The registers of a core: how one is addressed, and the table that an
//! architecture describes its registers with.

use vstd::prelude::*;
use vstd::std_specs::convert::FromSpecImpl;

verus! {

/// A register of a core that is known by type: it converts to and from its
/// raw value and knows its address and its name.
pub trait CoreRegister: Clone + From<u32> + Into<u32> + Sized + std::fmt::Debug {
    /// The address of the register in the numbering of its architecture.
    const ADDRESS: u32;

    /// The name of the register.
    const NAME: &'static str;
}

/// The address of a register, in the numbering of the core's architecture.
#[derive(Debug, Copy, Clone, PartialEq, Eq, Hash, Structural)]
pub struct CoreRegisterAddress(pub u16);

impl From<CoreRegisterAddress> for u32 {
    fn from(value: CoreRegisterAddress) -> (number: u32) {
        value.0 as u32
    }
}

impl FromSpecImpl<CoreRegisterAddress> for u32 {
    open spec fn obeys_from_spec() -> bool {
        true
    }

    open spec fn from_spec(value: CoreRegisterAddress) -> u32 {
        value.0 as u32
    }
}

impl From<u16> for CoreRegisterAddress {
    fn from(value: u16) -> (address: CoreRegisterAddress) {
        CoreRegisterAddress(value)
    }
}

impl FromSpecImpl<u16> for CoreRegisterAddress {
    open spec fn obeys_from_spec() -> bool {
        true
    }

    open spec fn from_spec(value: u16) -> CoreRegisterAddress {
        CoreRegisterAddress(value)
    }
}

/// What a register is used for.
#[derive(Debug, Clone, Copy, PartialEq, Eq, Structural)]
pub enum RegisterKind {
    /// A general purpose register.
    General,
    /// The program counter.
    PC,
}

/// The description of one register: its name, its kind and its address.
#[derive(Debug, Clone)]
pub struct RegisterDescription {
    /// The name of the register.
    pub name: &'static str,
    /// What the register is used for.
    pub kind: RegisterKind,
    /// The address of the register.
    pub address: CoreRegisterAddress,
}

impl RegisterDescription {
    /// The name of the register.
    pub fn name(&self) -> (name: &'static str)
        ensures
            name == self.name,
    {
        self.name
    }
}

impl From<RegisterDescription> for CoreRegisterAddress {
    fn from(description: RegisterDescription) -> (address: CoreRegisterAddress) {
        description.address
    }
}

impl FromSpecImpl<RegisterDescription> for CoreRegisterAddress {
    open spec fn obeys_from_spec() -> bool {
        true
    }

    open spec fn from_spec(description: RegisterDescription) -> CoreRegisterAddress {
        description.address
    }
}

impl From<&RegisterDescription> for CoreRegisterAddress {
    fn from(description: &RegisterDescription) -> (address: CoreRegisterAddress) {
        description.address
    }
}

impl FromSpecImpl<&RegisterDescription> for CoreRegisterAddress {
    open spec fn obeys_from_spec() -> bool {
        true
    }

    open spec fn from_spec(description: &RegisterDescription) -> CoreRegisterAddress {
        description.address
    }
}

/// The registers of one architecture. The tables are constant data, shared
/// by every core of the architecture.
#[derive(Debug)]
pub struct RegisterFile {
    /// Every register of the platform, in the architecture's order.
    pub platform_registers: &'static [RegisterDescription],
    /// The program counter.
    pub program_counter: &'static RegisterDescription,
    /// The stack pointer.
    pub stack_pointer: &'static RegisterDescription,
    /// The register that holds the return address.
    pub return_address: &'static RegisterDescription,
    /// The registers that carry the arguments of a call, in order.
    pub argument_registers: &'static [RegisterDescription],
    /// The registers that carry the results of a call, in order.
    pub result_registers: &'static [RegisterDescription],
}

impl RegisterFile {
    /// An iterator over every register of the platform, in the
    /// architecture's order.
    pub fn registers(&self) -> (registers: std::slice::Iter<'static, RegisterDescription>)
        ensures
            registers == vstd::std_specs::slice::spec_slice_iter(self.platform_registers),
    {
        self.platform_registers.iter()
    }

    /// The program counter.
    pub fn program_counter(&self) -> (register: &RegisterDescription)
        ensures
            register == self.program_counter,
    {
        self.program_counter
    }

    /// The stack pointer.
    pub fn stack_pointer(&self) -> (register: &RegisterDescription)
        ensures
            register == self.stack_pointer,
    {
        self.stack_pointer
    }

    /// The register that holds the return address.
    pub fn return_address(&self) -> (register: &RegisterDescription)
        ensures
            register == self.return_address,
    {
        self.return_address
    }

    /// The argument register at `index`, which must be one of them.
    pub fn argument_register(&self, index: usize) -> (register: &RegisterDescription)
        requires
            index < self.argument_registers@.len(),
        ensures
            *register == self.argument_registers@[index as int],
    {
        &self.argument_registers[index]
    }

    /// The argument register at `index`, or `None` past the last one.
    pub fn get_argument_register(&self, index: usize) -> (register: Option<&RegisterDescription>)
        ensures
            register matches Some(found) ==> entry_at(self.argument_registers@, index) == Some(*found),
            register is None ==> entry_at(self.argument_registers@, index) is None,
    {
        if index < self.argument_registers.len() {
            Some(&self.argument_registers[index])
        } else {
            None
        }
    }

    /// The result register at `index`, which must be one of them.
    pub fn result_register(&self, index: usize) -> (register: &RegisterDescription)
        requires
            index < self.result_registers@.len(),
        ensures
            *register == self.result_registers@[index as int],
    {
        &self.result_registers[index]
    }

    /// The result register at `index`, or `None` past the last one.
    pub fn get_result_register(&self, index: usize) -> (register: Option<&RegisterDescription>)
        ensures
            register matches Some(found) ==> entry_at(self.result_registers@, index) == Some(*found),
            register is None ==> entry_at(self.result_registers@, index) is None,
    {
        if index < self.result_registers.len() {
            Some(&self.result_registers[index])
        } else {
            None
        }
    }

    /// The platform register at `index`, which must be one of them.
    pub fn platform_register(&self, index: usize) -> (register: &RegisterDescription)
        requires
            index < self.platform_registers@.len(),
        ensures
            *register == self.platform_registers@[index as int],
    {
        &self.platform_registers[index]
    }

    /// The platform register at `index`, or `None` past the last one.
    pub fn get_platform_register(&self, index: usize) -> (register: Option<&RegisterDescription>)
        ensures
            register matches Some(found) ==> entry_at(self.platform_registers@, index) == Some(*found),
            register is None ==> entry_at(self.platform_registers@, index) is None,
    {
        if index < self.platform_registers.len() {
            Some(&self.platform_registers[index])
        } else {
            None
        }
    }
}

/// The entry of `table` at `index`, or `None` where the table has none.
pub open spec fn entry_at(table: Seq<RegisterDescription>, index: usize) -> Option<
    RegisterDescription,
> {
    if index < table.len() {
        Some(table[index as int])
    } else {
        None
    }
}

} // verus!
