//! The architectures of the cores that a target description names.

use vstd::prelude::*;

verus! {

/// `probe_rs_target::CoreType`, the type of a core as a target description
/// declares it. The verifier reads its variants from the crate itself:
/// `Armv6m`, `Armv7m`, `Armv7em`, `Armv8m` and `Riscv`, none with a field.
#[verifier::external_type_specification]
pub struct ExCoreType(probe_rs_target::CoreType);

/// `probe_rs_target::Architecture`, the family that a core type belongs to.
/// The verifier reads its variants from the crate itself: `Arm` and `Riscv`.
#[verifier::external_type_specification]
pub struct ExArchitecture(probe_rs_target::Architecture);

} // verus!
