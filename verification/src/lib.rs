//! Core control for debug probes and the framing of the GDB remote serial
//! protocol.
//!
//! The [`packet`] and [`writer`] modules frame packets for the wire and drive
//! the acknowledgement handshake. The remaining modules describe a CPU core
//! behind a debug probe: its registers, its run state and its hardware
//! breakpoint comparators.

pub mod architecture;
pub mod breakpoints;
pub mod cores;
pub mod error;
pub mod interface;
pub mod memory;
pub mod packet;
pub mod registers;
pub mod search;
pub mod state;
pub mod status;
pub mod writer;

pub use cores::{Breakpoint, BreakpointId, Core, CoreList};
pub use error::Error;
pub use interface::{CoreInformation, CoreInterface, CoreModel};
pub use memory::MemoryInterface;
pub use packet::{CheckedPacket, Kind};
pub use probe_rs_target::Architecture;
pub use registers::{CoreRegister, CoreRegisterAddress, RegisterDescription, RegisterFile};
pub use state::{CoreState, SpecificCoreState};
pub use status::{CoreStatus, HaltReason};
