use avr_sim::constraint::Constraint;
use avr_sim::device::address_space::{Access, AddressSpace, Endianess, MemorySegment};
use avr_sim::device::info::Device;
use avr_sim::device::module::{Module, ModuleRegisterGroup, Register};
use avr_sim::device::property_group::{number, PropertyValue};
use avr_sim::device::register_map::{find_by_name, find_entry, gen_operand_details, get_register_map};
use avr_sim::device::{AvrDeviceFile, DataLayout};
use avr_sim::error::Error;
use avr_sim::instruction::Instruction;
use avr_sim::machine::RamSize;
use avr_sim::operand::Operand;
use avr_sim::project::{get_mcu_list, get_tree_map_entry, ProjectState, Tables};
use avr_sim::register::{CommonRegister, CommonRegisters};

fn segment(name: &str, size: u64) -> MemorySegment {
    MemorySegment {
        start: 0,
        size,
        name: name.to_string(),
        data_type: "ram".to_string(),
        access: Some(Access::RW),
        page_size: None,
        executable: None,
        external: None,
    }
}

fn space(id: &str, size: u64, segments: Vec<MemorySegment>) -> AddressSpace {
    AddressSpace {
        memory_segments: segments,
        endianess: Endianess::Little,
        name: id.to_string(),
        id: id.to_string(),
        start: 0,
        size,
    }
}

fn register(name: &str, caption: Option<&str>, offset: u64, size: u64) -> Register {
    Register {
        caption: caption.map(|c| c.to_string()),
        name: name.to_string(),
        offset,
        size,
        initval: 0,
        bitfields: None,
    }
}

fn module(name: &str, groups: Vec<(&str, Vec<Register>)>) -> Module {
    Module {
        caption: None,
        name: name.to_string(),
        register_group: groups
            .into_iter()
            .map(|(name, register)| ModuleRegisterGroup {
                caption: None,
                name: name.to_string(),
                register,
            })
            .collect(),
        value_grop: vec![],
    }
}

fn device(name: &str) -> AvrDeviceFile {
    AvrDeviceFile {
        devices: Device {
            name: name.to_string(),
            architecture: "AVR8".to_string(),
            family: "megaAVR".to_string(),
            address_spaces: vec![
                space("prog", 0x8000, vec![]),
                space(
                    "data",
                    0x0900,
                    vec![segment("REGISTERS", 32), segment("MAPPED_IO", 224), segment("IRAM", 2048)],
                ),
                space("eeprom", 1024, vec![]),
            ],
            peripherals: vec![],
            interrupts: vec![],
            interfaces: vec![],
            propery_groups: vec![],
        },
        modules: vec![
            module(
                "PORT",
                vec![(
                    "PORTB",
                    vec![
                        register("PINB", Some("Port B Input Pins"), 0x23, 1),
                        register("DDRB", None, 0x24, 1),
                        register("PORTB", Some("Port B Data Register"), 0x25, 1),
                    ],
                )],
            ),
            module(
                "CPU",
                vec![
                    ("OTHER", vec![register("SREG", None, 0x10, 1)]),
                    (
                        "CPU",
                        vec![
                            register("SREG", Some("Status Register"), 0x5f, 1),
                            register("SP", Some("Stack Pointer"), 0x5d, 2),
                            register("WIDE", None, 0x60, 4),
                            register("OCR1A", None, 0x88, 2),
                        ],
                    ),
                ],
            ),
        ],
        pinouts: None,
    }
}

#[test]
fn the_layout_of_a_device() {
    assert_eq!(
        device("m328").data_layout(),
        Ok(DataLayout { registers: 32, io: 224, ram: 2048, flash_words: 0x4000, eeprom: 1024 })
    );
    let d = device("m328");
    assert_eq!(d.segment_size("IRAM"), Some(2048));
    assert_eq!(d.segment_size("XRAM"), None);
    assert_eq!(d.address_space_size("prog"), Some(0x8000));
    assert_eq!(d.address_space_size("fuses"), None);
    let mut without = device("m328");
    without.devices.address_spaces[1].memory_segments.remove(1);
    assert_eq!(without.data_layout(), Err(Error::InvalidDevice));
    // the first space of an id counts
    let mut twice = device("m328");
    twice.devices.address_spaces.insert(0, space("prog", 0x100, vec![]));
    assert_eq!(twice.data_layout().unwrap().flash_words, 0x80);
}

#[test]
fn the_special_registers_of_a_device() {
    let found = CommonRegisters::init(&device("m328"), 32, 224).unwrap();
    assert_eq!(found.sreg.offset, Some(0x3f));
    assert_eq!(found.spl.offset, Some(0x3d));
    assert_eq!(found.sph.offset, Some(0x3e));
    assert_eq!(found.eind.offset, None);
    assert_eq!(found.rampz.offset, None);
    assert_eq!(found.offset_of(CommonRegister::Sph), Some(0x3e));
    assert_eq!(CommonRegisters::new().offset_of(CommonRegister::Sreg), None);
    // an I/O region that ends before the status register
    assert_eq!(
        CommonRegisters::init(&device("m328"), 32, 0x3f),
        Err(Error::InvalidAddress { address: 0x5f })
    );
    // the high byte of the stack pointer must fit as well
    let mut stack_only = device("m328");
    stack_only.modules[1].register_group[1].register = vec![register("SP", None, 0x5d, 2)];
    assert_eq!(
        CommonRegisters::init(&stack_only, 32, 0x3e).unwrap_err(),
        Error::InvalidAddress { address: 0x5d }
    );
    assert_eq!(CommonRegisters::init(&stack_only, 32, 0x3f).unwrap().sph.offset, Some(0x3e));
    let mut split = device("m328");
    split.modules[1].register_group[1].register =
        vec![register("SPL", None, 0x5d, 1), register("SPH", None, 0x5e, 1)];
    let found = CommonRegisters::init(&split, 32, 224).unwrap();
    assert_eq!((found.spl.offset, found.sph.offset), (Some(0x3d), Some(0x3e)));
    assert_eq!(found.sreg.offset, None);
    let names = CommonRegisters::get_reg_list();
    assert!(names.contains(&"SREG".to_string()));
    assert!(names.contains(&"RAMPZ".to_string()));
    assert_eq!(names.len(), 10);
}

#[test]
fn the_register_map_of_a_device() {
    let map = get_register_map(&device("m328"));
    let seen: Vec<(u64, &str)> = map.iter().map(|e| (e.offset, e.name.as_str())).collect();
    assert_eq!(
        seen,
        vec![
            (0x23, "PINB"),
            (0x24, "DDRB"),
            (0x25, "PORTB"),
            (0x10, "SREG"),
            (0x5f, "SREG"),
            (0x5e, "SP(H)"),
            (0x5d, "SP(L)"),
            (0x89, "OCR1A(H)"),
            (0x88, "OCR1A(L)")
        ]
    );
    assert_eq!((map[5].module, map[5].group, map[5].register), (1, 1, 1));
    assert_eq!(map[5].caption.as_deref(), Some("Stack Pointer"));
    assert_eq!(find_entry(&map, 0x25), Some(2));
    assert_eq!(find_entry(&map, 0x5e), Some(5));
    assert_eq!(find_entry(&map, 0x60), None);
    assert_eq!(find_by_name(&map, &"SREG".to_string()), Some(3));
    assert_eq!(find_by_name(&map, &"SP(L)".to_string()), Some(6));
    assert_eq!(find_by_name(&map, &"SP".to_string()), None);
    // a later register at the same place replaces an earlier one
    let mut later = device("m328");
    later.modules[0].register_group[0].register.push(register("ALIAS", None, 0x25, 1));
    let map = get_register_map(&later);
    assert_eq!(map[find_entry(&map, 0x25).unwrap()].name, "ALIAS");
}

#[test]
fn details_of_port_operands() {
    let map = get_register_map(&device("m328"));
    let masks: Vec<String> = (0..map.len()).map(|k| format!("[mask {}]", k)).collect();
    let mut inst = Instruction::new(
        String::new(),
        62,
        vec![
            Operand::new(Constraint::P, 0x05),
            Operand::new(Constraint::r, 0x05),
            Operand::new(Constraint::p, 0x04),
            Operand::new(Constraint::P, 0x30),
            Operand::new(Constraint::P, -1),
        ],
    );
    gen_operand_details(&mut inst, &map, &masks);
    let operands = inst.operands.as_ref().unwrap();
    let info = operands[0].operand_info.as_ref().unwrap();
    assert_eq!(info.register_name, "PORTB");
    assert_eq!(info.register_mask, "[mask 2]");
    assert_eq!(info.description, "Port B Data Register");
    assert!(operands[1].operand_info.is_none());
    // a register without caption is described by its name
    let info = operands[2].operand_info.as_ref().unwrap();
    assert_eq!(info.register_name, "DDRB");
    assert_eq!(info.description, "DDRB");
    assert!(operands[3].operand_info.is_none());
    assert!(operands[4].operand_info.is_none());
    assert_eq!(operands[0].value, 5);
    // without mask texts the mask is empty
    let mut inst = Instruction::new(String::new(), 62, vec![Operand::new(Constraint::P, 0x05)]);
    inst.gen_comment(&map, &vec![]).unwrap();
    let info = inst.operands.as_ref().unwrap()[0].operand_info.as_ref().unwrap();
    assert_eq!(info.register_mask, "");
    assert_eq!(info.register_name, "PORTB");
    let mut none = Instruction::decode_from_opcode(0).unwrap();
    gen_operand_details(&mut none, &map, &masks);
    assert!(none.operands.is_none());
}

#[test]
fn text_of_descriptions() {
    assert_eq!(Access::option_from("R"), Some(Access::R));
    assert_eq!(Access::option_from("RW"), Some(Access::RW));
    assert_eq!(Access::option_from("rw"), None);
    assert_eq!(Access::option_from(""), None);
    assert_eq!(Access::option_from("err"), None);
    assert_eq!(Endianess::from_str("big"), Ok(Endianess::Big));
    assert_eq!(Endianess::from_str("Little"), Ok(Endianess::Little));
    assert_eq!(Endianess::from_str("LITTLE"), Ok(Endianess::Little));
    assert_eq!(Endianess::from_str("bigger"), Err(Error::InvalidValue));
    assert_eq!(Endianess::from_str(""), Err(Error::InvalidValue));
    assert_eq!(Endianess::from_str("b\u{ec}g"), Err(Error::InvalidValue));
}

#[test]
fn the_device_of_a_project() {
    let table = vec![device("atmega328p"), device("atmega2560")];
    let list = get_mcu_list(&table);
    assert_eq!(list, vec!["atmega328p".to_string(), "atmega2560".to_string()]);
    assert_eq!(
        get_tree_map_entry(&table, &"atmega2560".to_string()).unwrap().devices.name,
        "atmega2560"
    );
    assert!(get_tree_map_entry(&table, &"attiny85".to_string()).is_none());
    let mut state =
        ProjectState { name: "blink".to_string(), mcu: String::new(), freq: 16_000_000 };
    assert_eq!(state.set_mcu("atmega2560".to_string(), &list), Ok(()));
    assert_eq!(state.mcu, "atmega2560");
    assert_eq!(state.set_mcu("attiny85".to_string(), &list), Err(Error::InvalidMcu));
    assert_eq!(state.mcu, "atmega2560");
    assert_eq!(state.name, "blink");
    assert_eq!(state.freq, 16_000_000);
    assert_eq!(Tables::instruction.name(), "instruction");
    assert_eq!(Tables::project.name(), "project");
}

#[test]
fn instructions_from_text() {
    let texts = |list: &[&str]| list.iter().map(|t| t.to_string()).collect::<Vec<String>>();
    // entry 33 is `add`
    let inst = Instruction::from_text(33, &texts(&["r1", "r31"])).unwrap();
    assert_eq!(inst.opcode_id, 33);
    let operands = inst.operands.unwrap();
    assert_eq!((operands[0].constraint, operands[0].value), (Constraint::r, 1));
    assert_eq!((operands[1].constraint, operands[1].value), (Constraint::r, 31));
    assert_eq!(
        Instruction::from_text(33, &texts(&["r1"])).unwrap_err(),
        Error::InvalidOperandCount { expected: 2, got: 1 }
    );
    assert_eq!(
        Instruction::from_text(33, &texts(&["r1", "r2", "r3"])).unwrap_err(),
        Error::InvalidOperandCount { expected: 2, got: 3 }
    );
    assert_eq!(
        Instruction::from_text(33, &texts(&["r1", "two"])).unwrap_err(),
        Error::InvalidValue
    );
    assert_eq!(
        Instruction::from_text(124, &texts(&[])).unwrap_err(),
        Error::UnknownInstruction { id: 124 }
    );
    assert_eq!(
        Instruction::from_text(999, &texts(&[])).unwrap_err(),
        Error::UnknownInstruction { id: 999 }
    );
    // entry 24 is `nop`
    assert_eq!(Instruction::from_text(24, &texts(&[])).unwrap().operands.unwrap().len(), 0);
}

#[test]
fn register_map_test() {
    let table = vec![device("atmega328p")];
    let found = get_tree_map_entry(&table, &"Atmega328P".to_string().to_lowercase()).unwrap();
    let res = get_register_map(found);
    println!("{:?}", res);
    assert_eq!(res.len(), 9);
}

#[test]
fn get_mcu_list_test() {
    let table = vec![device("atmega328p"), device("attiny85")];
    let res = get_mcu_list(&table);
    println!("{:?}", res);
    assert_eq!(res, vec!["atmega328p".to_string(), "attiny85".to_string()]);
}

#[test]
fn numbers_of_a_description() {
    assert_eq!(number("0"), Some(0));
    assert_eq!(number("2048"), Some(2048));
    assert_eq!(number("+7"), Some(7));
    assert_eq!(number("0x5F"), Some(0x5f));
    assert_eq!(number("0x5f"), Some(0x5f));
    assert_eq!(number("0x0800"), Some(0x800));
    assert_eq!(number("18446744073709551615"), Some(u64::MAX));
    assert_eq!(number("18446744073709551616"), None);
    assert_eq!(number("0xffffffffffffffff"), Some(u64::MAX));
    assert_eq!(number("0x10000000000000000"), None);
    assert_eq!(number(""), None);
    assert_eq!(number("0x"), None);
    assert_eq!(number("+"), None);
    assert_eq!(number("-1"), None);
    assert_eq!(number("12a"), None);
    assert_eq!(number("0X10"), None);
    assert_eq!(number(" 1"), None);
    assert_eq!(number("1\u{e9}"), None);
}

#[test]
fn values_of_properties() {
    let show = |text: &str| format!("{:?}", PropertyValue::from(text));
    assert_eq!(show("42"), "Number(42)");
    assert_eq!(show("0x2A"), "Number(42)");
    assert_eq!(show("0x1E 0x95 0x0F"), "Vec([30, 149, 15])");
    assert_eq!(show("ISP"), "String(\"ISP\")");
    assert_eq!(show(""), "String(\"\")");
    assert_eq!(show("0x1E 0x95 "), "String(\"0x1E 0x95 \")");
    assert_eq!(show("0x1E  0x95"), "String(\"0x1E  0x95\")");
    assert_eq!(show("0x1E 95"), "String(\"0x1E 95\")");
    assert_eq!(show("0xZZ"), "String(\"0xZZ\")");
    assert_eq!(show("1 2"), "String(\"1 2\")");
    assert_eq!(show("caf\u{e9}"), "String(\"caf\u{e9}\")");
}

#[test]
fn the_width_of_the_program_counter() {
    assert_eq!(RamSize::Size16.into(), 2);
    assert_eq!(RamSize::Size24.into(), 3);
}
