use probe_gdb::registers::{
    CoreRegister, CoreRegisterAddress, RegisterDescription, RegisterFile, RegisterKind,
};

static PLATFORM: [RegisterDescription; 4] = [
    RegisterDescription { name: "R0", kind: RegisterKind::General, address: CoreRegisterAddress(0) },
    RegisterDescription { name: "R1", kind: RegisterKind::General, address: CoreRegisterAddress(1) },
    RegisterDescription { name: "SP", kind: RegisterKind::General, address: CoreRegisterAddress(13) },
    RegisterDescription { name: "PC", kind: RegisterKind::PC, address: CoreRegisterAddress(15) },
];

static LINK: RegisterDescription =
    RegisterDescription { name: "LR", kind: RegisterKind::General, address: CoreRegisterAddress(14) };

static ARGUMENTS: [RegisterDescription; 2] = [
    RegisterDescription { name: "a0", kind: RegisterKind::General, address: CoreRegisterAddress(0) },
    RegisterDescription { name: "a1", kind: RegisterKind::General, address: CoreRegisterAddress(1) },
];

static RESULTS: [RegisterDescription; 1] =
    [RegisterDescription { name: "r0", kind: RegisterKind::General, address: CoreRegisterAddress(0) }];

static FILE: RegisterFile = RegisterFile {
    platform_registers: &PLATFORM,
    program_counter: &PLATFORM[3],
    stack_pointer: &PLATFORM[2],
    return_address: &LINK,
    argument_registers: &ARGUMENTS,
    result_registers: &RESULTS,
};

#[test]
fn address_converts_to_its_number() {
    assert_eq!(u32::from(CoreRegisterAddress(0)), 0);
    assert_eq!(u32::from(CoreRegisterAddress(0x1234)), 0x1234);
    assert_eq!(u32::from(CoreRegisterAddress(u16::MAX)), 0xffff);
    let number: u32 = CoreRegisterAddress(15).into();
    assert_eq!(number, 15);
}

#[test]
fn number_converts_to_its_address() {
    assert_eq!(CoreRegisterAddress::from(7u16), CoreRegisterAddress(7));
    assert_eq!(CoreRegisterAddress::from(u16::MAX).0, u16::MAX);
}

#[test]
fn description_converts_to_its_address() {
    assert_eq!(CoreRegisterAddress::from(&PLATFORM[2]), CoreRegisterAddress(13));
    assert_eq!(CoreRegisterAddress::from(LINK.clone()), CoreRegisterAddress(14));
}

#[test]
fn description_has_its_name() {
    assert_eq!(PLATFORM[0].name(), "R0");
    assert_eq!(LINK.name(), "LR");
}

#[test]
fn file_names_its_special_registers() {
    assert_eq!(FILE.program_counter().name(), "PC");
    assert_eq!(FILE.program_counter().address, CoreRegisterAddress(15));
    assert_eq!(FILE.stack_pointer().name(), "SP");
    assert_eq!(FILE.return_address().name(), "LR");
}

#[test]
fn registers_come_in_platform_order() {
    let names: Vec<&str> = FILE.registers().map(|register| register.name()).collect();
    assert_eq!(names, vec!["R0", "R1", "SP", "PC"]);
}

#[test]
fn registers_by_index() {
    assert_eq!(FILE.platform_register(1).name(), "R1");
    assert_eq!(FILE.platform_register(3).name(), "PC");
    assert_eq!(FILE.argument_register(0).name(), "a0");
    assert_eq!(FILE.argument_register(1).name(), "a1");
    assert_eq!(FILE.result_register(0).name(), "r0");
}

#[test]
fn registers_by_index_past_the_end() {
    assert_eq!(FILE.get_platform_register(3).map(|register| register.name()), Some("PC"));
    assert!(FILE.get_platform_register(4).is_none());
    assert_eq!(FILE.get_argument_register(1).map(|register| register.name()), Some("a1"));
    assert!(FILE.get_argument_register(2).is_none());
    assert_eq!(FILE.get_result_register(0).map(|register| register.name()), Some("r0"));
    assert!(FILE.get_result_register(1).is_none());
    assert!(FILE.get_result_register(usize::MAX).is_none());
}

/// A register that is known by type.
#[derive(Debug, Clone, PartialEq)]
struct Dhcsr(u32);

impl From<u32> for Dhcsr {
    fn from(value: u32) -> Self {
        Dhcsr(value)
    }
}

impl From<Dhcsr> for u32 {
    fn from(register: Dhcsr) -> u32 {
        register.0
    }
}

impl CoreRegister for Dhcsr {
    const ADDRESS: u32 = 0xe000_edf0;
    const NAME: &'static str = "DHCSR";
}

fn describe<R: CoreRegister>(register: R) -> (u32, &'static str, u32) {
    (R::ADDRESS, R::NAME, register.into())
}

#[test]
fn typed_register_knows_its_address_and_name() {
    assert_eq!(describe(Dhcsr::from(0x0003_0003)), (0xe000_edf0, "DHCSR", 0x0003_0003));
}
