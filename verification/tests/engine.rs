use avr_sim::alu;
use avr_sim::constraint::Constraint;
use avr_sim::device::address_space::{AddressSpace, Endianess, MemorySegment};
use avr_sim::device::info::Device;
use avr_sim::device::module::{Module, ModuleRegisterGroup, Register};
use avr_sim::device::AvrDeviceFile;
use avr_sim::error::Error;
use avr_sim::instruction::Instruction;
use avr_sim::machine::{Outcome, RamSize};
use avr_sim::opcode::{CustomOpcodes, Opcode, RawInst};
use avr_sim::operand::Operand;
use avr_sim::register::{CommonRegister, Flags};
use avr_sim::sim::Sim;

fn segment(name: &str, start: u64, size: u64) -> MemorySegment {
    MemorySegment {
        start,
        size,
        name: name.to_string(),
        data_type: "ram".to_string(),
        access: None,
        page_size: None,
        executable: None,
        external: None,
    }
}

fn space(id: &str, size: u64, segments: Vec<MemorySegment>) -> AddressSpace {
    AddressSpace {
        memory_segments: segments,
        endianess: Endianess::Little,
        name: id.to_string(),
        id: id.to_string(),
        start: 0,
        size,
    }
}

fn register(name: &str, offset: u64, size: u64) -> Register {
    Register { caption: None, name: name.to_string(), offset, size, initval: 0, bitfields: None }
}

fn device_with(flash_bytes: u64, registers: Vec<Register>) -> AvrDeviceFile {
    AvrDeviceFile {
        devices: Device {
            name: "ATmega328P".to_string(),
            architecture: "AVR8".to_string(),
            family: "megaAVR".to_string(),
            address_spaces: vec![
                space("prog", flash_bytes, vec![segment("FLASH", 0, flash_bytes)]),
                space(
                    "data",
                    0x0900,
                    vec![
                        segment("REGISTERS", 0, 32),
                        segment("MAPPED_IO", 0x20, 224),
                        segment("IRAM", 0x100, 2048),
                    ],
                ),
                space("eeprom", 1024, vec![segment("EEPROM", 0, 1024)]),
            ],
            peripherals: vec![],
            interrupts: vec![],
            interfaces: vec![],
            propery_groups: vec![],
        },
        modules: vec![Module {
            caption: None,
            name: "CPU".to_string(),
            register_group: vec![ModuleRegisterGroup {
                caption: None,
                name: "CPU".to_string(),
                register: registers,
            }],
            value_grop: vec![],
        }],
        pinouts: None,
    }
}

fn device() -> AvrDeviceFile {
    device_with(
        0x8000,
        vec![
            register("SREG", 0x5f, 1),
            register("SP", 0x5d, 2),
            register("MCUCR", 0x55, 1),
            register("PORTB", 0x25, 1),
        ],
    )
}

fn named(opcode: Opcode, operands: &[i64]) -> Instruction {
    let id = RawInst::get_inst_id_from_opcode(opcode).unwrap();
    let list = operands.iter().map(|v| Operand::new(Constraint::i, *v)).collect();
    Instruction::new(String::new(), id, list)
}

fn machine(program: Vec<Instruction>) -> Sim {
    let mut sim = Sim::init_debug(&device(), program).unwrap();
    sim.debug_init_stack().unwrap();
    sim
}

/// A machine with one instruction at word 0 and a `nop` behind it.
fn with(opcode: Opcode, operands: &[i64]) -> Sim {
    let inst = named(opcode, operands);
    let len = inst.get_raw_inst().unwrap().len as u32;
    let mut nop = named(Opcode::NOP, &[]);
    nop.address = len;
    machine(vec![inst, nop])
}

fn flag(sim: &Sim, flag: Flags) -> bool {
    sim.get_flag(flag).unwrap()
}

fn sp(sim: &Sim) -> u16 {
    sim.stack_pointer().unwrap() as u16
}

fn snapshot(sim: &Sim) -> String {
    format!("{:?}", sim)
}

#[test]
fn the_machine_of_a_device() {
    let sim = machine(vec![]);
    assert_eq!(sim.memory.flash.len(), 0x4000);
    assert_eq!(sim.memory.data.registers.len(), 32);
    assert_eq!(sim.memory.data.io.data.len(), 224);
    assert_eq!(sim.memory.data.ram.len(), 2048);
    assert_eq!(sim.memory.eeprom.len(), 1024);
    assert!(sim.memory.eeprom.iter().all(|b| *b == 0xff));
    assert!(sim.memory.flash.iter().all(|cell| cell.opcode_id == CustomOpcodes::EMPTY.id()));
    assert_eq!(sim.registers.sreg.offset, Some(0x3f));
    assert_eq!(sim.registers.spl.offset, Some(0x3d));
    assert_eq!(sim.registers.sph.offset, Some(0x3e));
    assert_eq!(sim.registers.mcucr.offset, Some(0x35));
    assert_eq!(sim.registers.eind.offset, None);
    assert_eq!(sim.ram_size, RamSize::Size16);
    assert_eq!(sp(&sim), 32 + 224 + 2048 - 1);
    assert_eq!(sim.memory.program_couter, 0);
}

#[test]
fn a_large_flash_has_a_program_counter_of_three_bytes() {
    let regs = vec![register("SREG", 0x5f, 1), register("SP", 0x5d, 2), register("EIND", 0x5c, 1)];
    let sim = Sim::init_debug(&device_with(0x40000, regs), vec![]).unwrap();
    assert_eq!(sim.ram_size, RamSize::Size24);
    assert_eq!(sim.registers.eind.offset, Some(0x3c));
}

#[test]
fn a_device_without_cpu_or_sizes_is_refused() {
    let mut no_cpu = device();
    no_cpu.modules.clear();
    assert_eq!(Sim::init_debug(&no_cpu, vec![]).unwrap_err(), Error::InvalidDevice);
    let mut no_eeprom = device();
    no_eeprom.devices.address_spaces.pop();
    assert_eq!(Sim::init_debug(&no_eeprom, vec![]).unwrap_err(), Error::InvalidDevice);
    let outside = device_with(0x8000, vec![register("SREG", 0x200, 1)]);
    assert_eq!(
        Sim::init_debug(&outside, vec![]).unwrap_err(),
        Error::InvalidAddress { address: 0x200 }
    );
    let below = device_with(0x8000, vec![register("SREG", 0x10, 1)]);
    assert_eq!(
        Sim::init_debug(&below, vec![]).unwrap_err(),
        Error::InvalidAddress { address: 0x10 }
    );
}

#[test]
fn a_program_is_put_at_its_addresses() {
    let mut call = Instruction::decode_from_opcode(0x940e).unwrap();
    call.raw_opcode = 0x940e_0100;
    call.address = 4;
    let mut nop = named(Opcode::NOP, &[]);
    nop.address = 9;
    let sim = machine(vec![call, nop]);
    assert_eq!(sim.memory.flash[4].raw_opcode, 0x940e_0100);
    assert_eq!(sim.memory.flash[5].opcode_id, CustomOpcodes::REMINDER.id());
    assert_eq!(sim.memory.flash[5].address, 5);
    assert_eq!(sim.memory.flash[9].opcode_id, RawInst::get_inst_id_from_opcode(Opcode::NOP).unwrap());
    assert_eq!(sim.memory.flash[3].opcode_id, CustomOpcodes::EMPTY.id());
    let mut far = named(Opcode::NOP, &[]);
    far.address = 0x4000;
    assert_eq!(
        Sim::init_debug(&device(), vec![far]).unwrap_err(),
        Error::InvalidAddress { address: 0x4000 }
    );
    let unknown = Instruction::new(String::new(), 700, vec![]);
    assert_eq!(
        Sim::init_debug(&device(), vec![unknown]).unwrap_err(),
        Error::UnknownInstruction { id: 700 }
    );
}

#[test]
fn add() {
    let mut s = with(Opcode::ADD, &[0, 1]);
    s.memory.data.registers[0] = 10;
    s.memory.data.registers[1] = 20;
    assert_eq!(s.exec_debug(), Ok(Outcome::Continue));
    assert_eq!(s.memory.data.registers[0], 30);
    assert_eq!(s.memory.data.registers[1], 20);
    assert!(!flag(&s, Flags::C));
    assert!(!flag(&s, Flags::Z));
    assert!(!flag(&s, Flags::N));
    assert!(!flag(&s, Flags::V));
    assert!(!flag(&s, Flags::S));
    assert!(!flag(&s, Flags::H));
    assert_eq!(s.memory.program_couter, 1);
}

#[test]
fn add_with_carry_out_and_half_carry() {
    let mut s = with(Opcode::ADD, &[2, 3]);
    s.memory.data.registers[2] = 0xff;
    s.memory.data.registers[3] = 0x01;
    s.exec_debug().unwrap();
    assert_eq!(s.memory.data.registers[2], 0);
    assert!(flag(&s, Flags::C));
    assert!(flag(&s, Flags::Z));
    assert!(flag(&s, Flags::H));
    assert!(!flag(&s, Flags::N));
    assert!(!flag(&s, Flags::V));
    let mut s = with(Opcode::ADD, &[2, 3]);
    s.memory.data.registers[2] = 0x7f;
    s.memory.data.registers[3] = 0x01;
    s.exec_debug().unwrap();
    assert_eq!(s.memory.data.registers[2], 0x80);
    assert!(flag(&s, Flags::V));
    assert!(flag(&s, Flags::N));
    assert!(!flag(&s, Flags::S));
    assert!(!flag(&s, Flags::C));
}

#[test]
fn adc() {
    let mut s = with(Opcode::ADC, &[0, 1]);
    s.memory.data.registers[0] = 10;
    s.memory.data.registers[1] = 20;
    s.set_flag(Flags::C, true).unwrap();
    s.exec_debug().unwrap();
    assert_eq!(s.memory.data.registers[0], 31);
    assert!(!flag(&s, Flags::C));
}

#[test]
fn adiw() {
    let mut s = with(Opcode::ADIW, &[24, 10]);
    s.memory.data.registers[24] = 0xfe;
    s.memory.data.registers[25] = 0x40;
    s.exec_debug().unwrap();
    assert_eq!(s.memory.data.registers[24], 0x08);
    assert_eq!(s.memory.data.registers[25], 0x41);
    assert_eq!(
        ((s.memory.data.registers[25] as u16) << 8) + s.memory.data.registers[24] as u16,
        0x4108
    );
    assert!(!flag(&s, Flags::C));
    assert!(!flag(&s, Flags::Z));
    assert_eq!(s.memory.program_couter, 1);
}

#[test]
fn adiw_wraps_with_carry() {
    let mut s = with(Opcode::ADIW, &[30, 1]);
    s.memory.data.registers[30] = 0xff;
    s.memory.data.registers[31] = 0xff;
    s.exec_debug().unwrap();
    assert_eq!((s.memory.data.registers[30], s.memory.data.registers[31]), (0, 0));
    assert!(flag(&s, Flags::C));
    assert!(flag(&s, Flags::Z));
    let mut s = with(Opcode::ADIW, &[31, 1]);
    let before = snapshot(&s);
    assert_eq!(s.exec_debug(), Err(Error::InvalidRegister { index: 31 }));
    assert_eq!(snapshot(&s), before);
}

#[test]
fn sbiw() {
    let mut s = with(Opcode::SBIW, &[24, 1]);
    s.memory.data.registers[24] = 0x00;
    s.memory.data.registers[25] = 0x01;
    s.exec_debug().unwrap();
    assert_eq!(s.memory.data.registers[24], 0xff);
    assert_eq!(s.memory.data.registers[25], 0x00);
    assert!(!flag(&s, Flags::C));
    let mut s = with(Opcode::SBIW, &[24, 1]);
    s.exec_debug().unwrap();
    assert_eq!((s.memory.data.registers[24], s.memory.data.registers[25]), (0xff, 0xff));
    assert!(flag(&s, Flags::C));
    assert!(flag(&s, Flags::N));
}

#[test]
fn subtractions() {
    let mut s = with(Opcode::SUB, &[16, 17]);
    s.memory.data.registers[16] = 10;
    s.memory.data.registers[17] = 3;
    s.exec_debug().unwrap();
    assert_eq!(s.memory.data.registers[16], 7);
    let mut s = with(Opcode::SUBI, &[16, 5]);
    s.memory.data.registers[16] = 10;
    s.exec_debug().unwrap();
    assert_eq!(s.memory.data.registers[16], 5);
    let mut s = with(Opcode::SBC, &[16, 17]);
    s.memory.data.registers[16] = 10;
    s.memory.data.registers[17] = 3;
    s.set_flag(Flags::C, true).unwrap();
    s.exec_debug().unwrap();
    assert_eq!(s.memory.data.registers[16], 6);
    let mut s = with(Opcode::SBCI, &[16, 5]);
    s.memory.data.registers[16] = 10;
    s.set_flag(Flags::C, true).unwrap();
    s.exec_debug().unwrap();
    assert_eq!(s.memory.data.registers[16], 4);
    let mut s = with(Opcode::SUB, &[16, 17]);
    s.memory.data.registers[16] = 3;
    s.memory.data.registers[17] = 10;
    s.exec_debug().unwrap();
    assert_eq!(s.memory.data.registers[16], 249);
    assert!(flag(&s, Flags::C));
    assert!(flag(&s, Flags::N));
    assert!(flag(&s, Flags::H));
}

#[test]
fn logic() {
    let mut s = with(Opcode::AND, &[16, 17]);
    s.memory.data.registers[16] = 0xff;
    s.memory.data.registers[17] = 0x0f;
    s.exec_debug().unwrap();
    assert_eq!(s.memory.data.registers[16], 0x0f);
    let mut s = with(Opcode::ANDI, &[16, 0x0f]);
    s.memory.data.registers[16] = 0xff;
    s.exec_debug().unwrap();
    assert_eq!(s.memory.data.registers[16], 0x0f);
    let mut s = with(Opcode::OR, &[16, 17]);
    s.memory.data.registers[16] = 0xf0;
    s.memory.data.registers[17] = 0x0f;
    s.exec_debug().unwrap();
    assert_eq!(s.memory.data.registers[16], 0xff);
    assert!(flag(&s, Flags::N));
    assert!(flag(&s, Flags::S));
    let mut s = with(Opcode::ORI, &[16, 0x0f]);
    s.memory.data.registers[16] = 0xf0;
    s.exec_debug().unwrap();
    assert_eq!(s.memory.data.registers[16], 0xff);
    let mut s = with(Opcode::EOR, &[16, 17]);
    s.memory.data.registers[16] = 0xff;
    s.memory.data.registers[17] = 0x0f;
    s.exec_debug().unwrap();
    assert_eq!(s.memory.data.registers[16], 0xf0);
    let mut s = with(Opcode::SBR, &[16, 0x01]);
    s.exec_debug().unwrap();
    assert_eq!(s.memory.data.registers[16], 0x01);
    let mut s = with(Opcode::CBR, &[16, 0x01]);
    s.memory.data.registers[16] = 0x01;
    s.exec_debug().unwrap();
    assert_eq!(s.memory.data.registers[16], 0x00);
    assert!(flag(&s, Flags::Z));
    let mut s = with(Opcode::CLR, &[16]);
    s.memory.data.registers[16] = 0xff;
    s.exec_debug().unwrap();
    assert_eq!(s.memory.data.registers[16], 0x00);
    assert!(flag(&s, Flags::Z));
    let mut s = with(Opcode::SER, &[16]);
    s.exec_debug().unwrap();
    assert_eq!(s.memory.data.registers[16], 0xff);
    let mut s = with(Opcode::TST, &[16]);
    s.memory.data.registers[16] = 0xff;
    s.exec_debug().unwrap();
    assert!(!flag(&s, Flags::Z));
    assert_eq!(s.memory.data.registers[16], 0xff);
}

#[test]
fn one_register() {
    let mut s = with(Opcode::COM, &[16]);
    s.exec_debug().unwrap();
    assert_eq!(s.memory.data.registers[16], 0xff);
    assert!(flag(&s, Flags::C));
    let mut s = with(Opcode::NEG, &[16]);
    s.memory.data.registers[16] = 1;
    s.exec_debug().unwrap();
    assert_eq!(s.memory.data.registers[16], 0xff);
    assert!(flag(&s, Flags::C));
    assert!(flag(&s, Flags::H));
    let mut s = with(Opcode::INC, &[16]);
    s.memory.data.registers[16] = 10;
    s.exec_debug().unwrap();
    assert_eq!(s.memory.data.registers[16], 11);
    let mut s = with(Opcode::INC, &[16]);
    s.memory.data.registers[16] = 0x7f;
    s.exec_debug().unwrap();
    assert_eq!(s.memory.data.registers[16], 0x80);
    assert!(flag(&s, Flags::V));
    let mut s = with(Opcode::DEC, &[16]);
    s.memory.data.registers[16] = 10;
    s.exec_debug().unwrap();
    assert_eq!(s.memory.data.registers[16], 9);
    let mut s = with(Opcode::DEC, &[16]);
    s.memory.data.registers[16] = 0x80;
    s.exec_debug().unwrap();
    assert_eq!(s.memory.data.registers[16], 0x7f);
    assert!(flag(&s, Flags::V));
    let mut s = with(Opcode::SWAP, &[16]);
    s.memory.data.registers[16] = 0xf0;
    s.exec_debug().unwrap();
    assert_eq!(s.memory.data.registers[16], 0x0f);
}

#[test]
fn shifts() {
    let mut s = with(Opcode::LSL, &[16]);
    s.memory.data.registers[16] = 0x01;
    s.exec_debug().unwrap();
    assert_eq!(s.memory.data.registers[16], 0x02);
    let mut s = with(Opcode::LSR, &[16]);
    s.memory.data.registers[16] = 0x02;
    s.exec_debug().unwrap();
    assert_eq!(s.memory.data.registers[16], 0x01);
    let mut s = with(Opcode::ROL, &[16]);
    s.memory.data.registers[16] = 0x80;
    s.exec_debug().unwrap();
    assert_eq!(s.memory.data.registers[16], 0x00);
    assert!(flag(&s, Flags::C));
    let mut s = with(Opcode::ROR, &[16]);
    s.memory.data.registers[16] = 0x01;
    s.exec_debug().unwrap();
    assert_eq!(s.memory.data.registers[16], 0x00);
    assert!(flag(&s, Flags::C));
    let mut s = with(Opcode::ROR, &[16]);
    s.memory.data.registers[16] = 0x02;
    s.set_flag(Flags::C, true).unwrap();
    s.exec_debug().unwrap();
    assert_eq!(s.memory.data.registers[16], 0x81);
    assert!(!flag(&s, Flags::C));
    let mut s = with(Opcode::ASR, &[16]);
    s.memory.data.registers[16] = 0x80;
    s.exec_debug().unwrap();
    assert_eq!(s.memory.data.registers[16], 0xc0);
    assert!(!flag(&s, Flags::C));
    let mut s = with(Opcode::ASR, &[16]);
    s.memory.data.registers[16] = 0x03;
    s.exec_debug().unwrap();
    assert_eq!(s.memory.data.registers[16], 0x01);
    assert!(flag(&s, Flags::C));
}

#[test]
fn multiplications() {
    let mut s = with(Opcode::MUL, &[16, 17]);
    s.memory.data.registers[16] = 2;
    s.memory.data.registers[17] = 3;
    s.exec_debug().unwrap();
    assert_eq!(s.memory.data.registers[0], 6);
    assert_eq!(s.memory.data.registers[1], 0);
    let mut s = with(Opcode::MUL, &[16, 17]);
    s.memory.data.registers[16] = 0xff;
    s.memory.data.registers[17] = 0xff;
    s.exec_debug().unwrap();
    assert_eq!((s.memory.data.registers[1], s.memory.data.registers[0]), (0xfe, 0x01));
    assert!(flag(&s, Flags::C));
    let mut s = with(Opcode::MULS, &[16, 17]);
    s.memory.data.registers[16] = 0xff;
    s.memory.data.registers[17] = 2;
    s.exec_debug().unwrap();
    assert_eq!(s.memory.data.registers[0], 0xfe);
    assert_eq!(s.memory.data.registers[1], 0xff);
    let mut s = with(Opcode::MULSU, &[16, 17]);
    s.memory.data.registers[16] = 0xff;
    s.memory.data.registers[17] = 0xff;
    s.exec_debug().unwrap();
    // -1 * 255
    assert_eq!((s.memory.data.registers[1], s.memory.data.registers[0]), (0xff, 0x01));
    let mut s = with(Opcode::FMUL, &[16, 17]);
    s.memory.data.registers[16] = 0x80;
    s.memory.data.registers[17] = 0x80;
    s.exec_debug().unwrap();
    assert_eq!(s.memory.data.registers[1], 0x80);
    assert_eq!(s.memory.data.registers[0], 0x00);
    assert!(!flag(&s, Flags::C));
    let mut s = with(Opcode::FMULS, &[16, 17]);
    s.memory.data.registers[16] = 0x80;
    s.memory.data.registers[17] = 0x80;
    s.exec_debug().unwrap();
    // -128 * -128 = 0x4000, shifted 0x8000
    assert_eq!((s.memory.data.registers[1], s.memory.data.registers[0]), (0x80, 0x00));
    let mut s = with(Opcode::FMULSU, &[16, 17]);
    s.memory.data.registers[16] = 0xff;
    s.memory.data.registers[17] = 0x02;
    s.exec_debug().unwrap();
    // -1 * 2 = 0xfffe, carry from bit 15, shifted 0xfffc
    assert_eq!((s.memory.data.registers[1], s.memory.data.registers[0]), (0xff, 0xfc));
    assert!(flag(&s, Flags::C));
}

#[test]
fn comparisons() {
    let mut s = with(Opcode::CP, &[16, 17]);
    s.memory.data.registers[16] = 10;
    s.memory.data.registers[17] = 10;
    s.exec_debug().unwrap();
    assert!(flag(&s, Flags::Z));
    assert_eq!(s.memory.data.registers[16], 10);
    let mut s = with(Opcode::CPI, &[16, 10]);
    s.memory.data.registers[16] = 10;
    s.exec_debug().unwrap();
    assert!(flag(&s, Flags::Z));
    // with carry the zero flag only stays set
    let mut s = with(Opcode::CPC, &[16, 17]);
    s.memory.data.registers[16] = 10;
    s.memory.data.registers[17] = 9;
    s.set_flag(Flags::C, true).unwrap();
    s.set_flag(Flags::Z, true).unwrap();
    s.exec_debug().unwrap();
    assert!(flag(&s, Flags::Z));
    let mut s = with(Opcode::CPC, &[16, 17]);
    s.memory.data.registers[16] = 10;
    s.memory.data.registers[17] = 9;
    s.set_flag(Flags::C, true).unwrap();
    s.exec_debug().unwrap();
    assert!(!flag(&s, Flags::Z));
}

#[test]
fn moves() {
    let mut s = with(Opcode::MOV, &[16, 17]);
    s.memory.data.registers[17] = 0xaa;
    s.set_flag(Flags::C, true).unwrap();
    s.exec_debug().unwrap();
    assert_eq!(s.memory.data.registers[16], 0xaa);
    assert!(flag(&s, Flags::C));
    let mut s = with(Opcode::MOVW, &[16, 18]);
    s.memory.data.registers[18] = 0xaa;
    s.memory.data.registers[19] = 0xbb;
    s.exec_debug().unwrap();
    assert_eq!(s.memory.data.registers[16], 0xaa);
    assert_eq!(s.memory.data.registers[17], 0xbb);
    let mut s = with(Opcode::LDI, &[16, 0xff]);
    s.exec_debug().unwrap();
    assert_eq!(s.memory.data.registers[16], 0xff);
}

#[test]
fn flags_set_and_cleared() {
    let pairs = [
        (Opcode::SEC, Opcode::CLC, Flags::C),
        (Opcode::SEZ, Opcode::CLZ, Flags::Z),
        (Opcode::SEN, Opcode::CLN, Flags::N),
        (Opcode::SEV, Opcode::CLV, Flags::V),
        (Opcode::SES, Opcode::CLS, Flags::S),
        (Opcode::SEH, Opcode::CLH, Flags::H),
        (Opcode::SET, Opcode::CLT, Flags::T),
        (Opcode::SEI, Opcode::CLI, Flags::I),
    ];
    for (set, clear, which) in pairs {
        let mut s = with(set, &[]);
        s.exec_debug().unwrap();
        assert!(flag(&s, which));
        assert_eq!(s.memory.data.io.data[0x3f], 1 << which.bit());
        let mut s = with(clear, &[]);
        s.memory.data.io.data[0x3f] = 0xff;
        s.exec_debug().unwrap();
        assert!(!flag(&s, which));
        assert_eq!(s.memory.data.io.data[0x3f], 0xff - (1 << which.bit()));
    }
    let mut s = with(Opcode::BSET, &[1]);
    s.exec_debug().unwrap();
    assert!(flag(&s, Flags::Z));
    let mut s = with(Opcode::BCLR, &[1]);
    s.set_flag(Flags::Z, true).unwrap();
    s.exec_debug().unwrap();
    assert!(!flag(&s, Flags::Z));
    let mut s = with(Opcode::BSET, &[8]);
    assert_eq!(s.exec_debug(), Err(Error::InvalidValue));
}

#[test]
fn bits_of_registers_and_ports() {
    let mut s = with(Opcode::SBI, &[0x10, 0]);
    s.exec_debug().unwrap();
    assert_eq!(s.memory.data.io.data[0x10], 0x01);
    let mut s = with(Opcode::CBI, &[0x10, 0]);
    s.memory.data.io.data[0x10] = 0x01;
    s.exec_debug().unwrap();
    assert_eq!(s.memory.data.io.data[0x10], 0x00);
    let mut s = with(Opcode::BST, &[16, 0]);
    s.memory.data.registers[16] = 0x01;
    s.exec_debug().unwrap();
    assert!(flag(&s, Flags::T));
    let mut s = with(Opcode::BST, &[16, 1]);
    s.memory.data.registers[16] = 0x01;
    s.set_flag(Flags::T, true).unwrap();
    s.exec_debug().unwrap();
    assert!(!flag(&s, Flags::T));
    let mut s = with(Opcode::BLD, &[16, 3]);
    s.set_flag(Flags::T, true).unwrap();
    s.memory.data.registers[16] = 0xf7;
    s.exec_debug().unwrap();
    assert_eq!(s.memory.data.registers[16], 0xff);
    let mut s = with(Opcode::BLD, &[16, 3]);
    s.memory.data.registers[16] = 0xff;
    s.exec_debug().unwrap();
    assert_eq!(s.memory.data.registers[16], 0xf7);
}

#[test]
fn ports() {
    let mut s = with(Opcode::IN, &[0, 0x3f]);
    s.memory.data.io.data[0x3f] = 0x55;
    s.exec_debug().unwrap();
    assert_eq!(s.memory.data.registers[0], 0x55);
    let mut s = with(Opcode::OUT, &[0x3f, 0]);
    s.memory.data.registers[0] = 0x55;
    s.exec_debug().unwrap();
    assert_eq!(s.memory.data.io.data[0x3f], 0x55);
    let mut s = with(Opcode::OUT, &[224, 0]);
    let before = snapshot(&s);
    assert_eq!(s.exec_debug(), Err(Error::InvalidAddress { address: 224 }));
    assert_eq!(snapshot(&s), before);
    let mut s = with(Opcode::IN, &[0, -1]);
    assert_eq!(s.exec_debug(), Err(Error::InvalidValue));
}

#[test]
fn cpse() {
    let mut s = with(Opcode::CPSE, &[16, 17]);
    s.memory.data.registers[16] = 5;
    s.memory.data.registers[17] = 5;
    s.exec_debug().unwrap();
    assert_eq!(s.memory.program_couter, 2);
    let mut s = with(Opcode::CPSE, &[16, 17]);
    s.memory.data.registers[16] = 5;
    s.memory.data.registers[17] = 6;
    s.exec_debug().unwrap();
    assert_eq!(s.memory.program_couter, 1);
}

#[test]
fn a_skip_passes_over_both_words_of_a_long_instruction() {
    let skip = named(Opcode::SBRS, &[16, 0]);
    let mut long = named(Opcode::JMP, &[0x200]);
    long.address = 1;
    let mut s = machine(vec![skip, long]);
    s.memory.data.registers[16] = 0x01;
    s.exec_debug().unwrap();
    assert_eq!(s.memory.program_couter, 3);
    let mut s = with(Opcode::SBRC, &[16, 0]);
    s.exec_debug().unwrap();
    assert_eq!(s.memory.program_couter, 2);
    let mut s = with(Opcode::SBRC, &[16, 0]);
    s.memory.data.registers[16] = 0x01;
    s.exec_debug().unwrap();
    assert_eq!(s.memory.program_couter, 1);
    let mut s = with(Opcode::SBIS, &[0x10, 7]);
    s.memory.data.io.data[0x10] = 0x80;
    s.exec_debug().unwrap();
    assert_eq!(s.memory.program_couter, 2);
    let mut s = with(Opcode::SBIC, &[0x10, 7]);
    s.memory.data.io.data[0x10] = 0x80;
    s.exec_debug().unwrap();
    assert_eq!(s.memory.program_couter, 1);
}

#[test]
fn branches() {
    // the operand is the offset in bytes: ten bytes are five words
    let mut s = with(Opcode::BREQ, &[10]);
    s.set_flag(Flags::Z, true).unwrap();
    s.exec_debug().unwrap();
    assert_eq!(s.memory.program_couter, 6);
    let mut s = with(Opcode::BREQ, &[10]);
    s.exec_debug().unwrap();
    assert_eq!(s.memory.program_couter, 1);
    let mut s = with(Opcode::BRNE, &[10]);
    s.exec_debug().unwrap();
    assert_eq!(s.memory.program_couter, 6);
    let mut s = with(Opcode::BRBS, &[1, 10]);
    s.set_flag(Flags::Z, true).unwrap();
    s.exec_debug().unwrap();
    assert_eq!(s.memory.program_couter, 6);
    let mut s = with(Opcode::BRBC, &[1, 10]);
    s.set_flag(Flags::Z, true).unwrap();
    s.exec_debug().unwrap();
    assert_eq!(s.memory.program_couter, 1);
    let table = [
        (Opcode::BRCS, Flags::C, true),
        (Opcode::BRCC, Flags::C, false),
        (Opcode::BRLO, Flags::C, true),
        (Opcode::BRSH, Flags::C, false),
        (Opcode::BRMI, Flags::N, true),
        (Opcode::BRPL, Flags::N, false),
        (Opcode::BRVS, Flags::V, true),
        (Opcode::BRVC, Flags::V, false),
        (Opcode::BRLT, Flags::S, true),
        (Opcode::BRGE, Flags::S, false),
        (Opcode::BRHS, Flags::H, true),
        (Opcode::BRHC, Flags::H, false),
        (Opcode::BRTS, Flags::T, true),
        (Opcode::BRTC, Flags::T, false),
        (Opcode::BRIE, Flags::I, true),
        (Opcode::BRID, Flags::I, false),
    ];
    for (opcode, which, when) in table {
        let mut s = with(opcode, &[4]);
        s.set_flag(which, when).unwrap();
        s.exec_debug().unwrap();
        assert_eq!(s.memory.program_couter, 3);
        let mut s = with(opcode, &[4]);
        s.set_flag(which, !when).unwrap();
        s.exec_debug().unwrap();
        assert_eq!(s.memory.program_couter, 1);
    }
    let mut s = with(Opcode::BREQ, &[-4]);
    s.set_flag(Flags::Z, true).unwrap();
    let before = snapshot(&s);
    assert_eq!(s.exec_debug(), Err(Error::InvalidTarget { target: -4 }));
    assert_eq!(snapshot(&s), before);
    let mut s = with(Opcode::BREQ, &[3]);
    s.set_flag(Flags::Z, true).unwrap();
    assert_eq!(s.exec_debug(), Err(Error::InvalidTarget { target: 3 }));
}

#[test]
fn jumps() {
    let mut s = with(Opcode::JMP, &[0x0200]);
    s.exec_debug().unwrap();
    assert_eq!(s.memory.program_couter, 0x0100);
    let mut s = with(Opcode::RJMP, &[10]);
    s.exec_debug().unwrap();
    assert_eq!(s.memory.program_couter, 6);
    let mut s = with(Opcode::RJMP, &[-2]);
    s.exec_debug().unwrap();
    assert_eq!(s.memory.program_couter, 0);
    let mut s = with(Opcode::IJMP, &[]);
    s.memory.data.registers[30] = 0x00;
    s.memory.data.registers[31] = 0x01;
    s.exec_debug().unwrap();
    assert_eq!(s.memory.program_couter, 0x0100);
    let mut s = with(Opcode::EIJMP, &[]);
    s.memory.data.registers[30] = 0x34;
    s.memory.data.registers[31] = 0x12;
    s.exec_debug().unwrap();
    assert_eq!(s.memory.program_couter, 0x1234);
    let mut s = with(Opcode::JMP, &[0x0201]);
    assert_eq!(s.exec_debug(), Err(Error::InvalidTarget { target: 0x0201 }));
}

#[test]
fn call_and_return() {
    // call 0x0100, as the assembler writes it, at word 0x0010
    let mut call = Instruction::decode_from_opcode(0x940e).unwrap();
    call.raw_opcode = (call.raw_opcode << 16) + 0x0100;
    call.mach_registers().unwrap();
    call.address = 0x0010;
    let mut ret = Instruction::decode_from_opcode(0x9508).unwrap();
    ret.mach_registers().unwrap();
    ret.address = 0x0100;
    let mut s = machine(vec![call, ret]);
    s.memory.program_couter = 0x0010;
    let top = sp(&s);
    assert_eq!(s.exec_debug(), Ok(Outcome::Continue));
    assert_eq!(s.memory.program_couter, 0x0100);
    assert_eq!(sp(&s), top - 2);
    assert_eq!(s.memory.data.get(top as usize), Some(0x12));
    assert_eq!(s.memory.data.get(top as usize - 1), Some(0x00));
    assert_eq!(s.exec_debug(), Ok(Outcome::Continue));
    assert_eq!(s.memory.program_couter, 0x0012);
    assert_eq!(sp(&s), top);
}

#[test]
fn calls_through_the_pointer_and_relative_calls() {
    let mut s = with(Opcode::ICALL, &[]);
    s.memory.data.registers[30] = 0x00;
    s.memory.data.registers[31] = 0x01;
    let top = sp(&s);
    s.exec_debug().unwrap();
    assert_eq!(s.memory.program_couter, 0x0100);
    assert_eq!(sp(&s), top - 2);
    assert_eq!(s.memory.data.get(top as usize), Some(0x01));
    let mut s = with(Opcode::RCALL, &[10]);
    s.exec_debug().unwrap();
    assert_eq!(s.memory.program_couter, 6);
    assert_eq!(sp(&s), top - 2);
    let mut s = with(Opcode::EICALL, &[]);
    s.memory.data.registers[30] = 0x10;
    s.exec_debug().unwrap();
    assert_eq!(s.memory.program_couter, 0x10);
    let mut s = with(Opcode::RETI, &[]);
    let address = sp(&s) as usize;
    s.memory.data.set(address, 0x34).unwrap();
    s.memory.data.set(address - 1, 0x12).unwrap();
    s.registers.spl.offset.map(|at| s.memory.data.io.data[at] = ((address - 2) & 0xff) as u8);
    s.registers.sph.offset.map(|at| s.memory.data.io.data[at] = ((address - 2) >> 8) as u8);
    s.exec_debug().unwrap();
    assert_eq!(s.memory.program_couter, 0x1234);
    assert!(flag(&s, Flags::I));
    assert_eq!(sp(&s) as usize, address);
}

#[test]
fn three_bytes_of_return_address() {
    let regs = vec![register("SREG", 0x5f, 1), register("SP", 0x5d, 2), register("EIND", 0x5c, 1)];
    let mut call = named(Opcode::CALL, &[0x2_0000]);
    call.address = 0x1_2345;
    let mut s = Sim::init_debug(&device_with(0x40000, regs), vec![call]).unwrap();
    s.debug_init_stack().unwrap();
    s.memory.program_couter = 0x1_2345;
    let top = sp(&s) as usize;
    s.exec_debug().unwrap();
    assert_eq!(s.memory.program_couter, 0x1_0000);
    assert_eq!(sp(&s) as usize, top - 3);
    assert_eq!(s.memory.data.get(top), Some(0x47));
    assert_eq!(s.memory.data.get(top - 1), Some(0x23));
    assert_eq!(s.memory.data.get(top - 2), Some(0x01));
    assert_eq!(s.execute_inst(&named(Opcode::RET, &[])), Ok(Outcome::Continue));
    assert_eq!(s.memory.program_couter, 0x1_2347);
    assert_eq!(sp(&s) as usize, top);
    s.memory.data.registers[30] = 0x02;
    s.memory.data.registers[31] = 0x01;
    s.memory.data.io.data[0x3c] = 0x01;
    s.execute_inst(&named(Opcode::EIJMP, &[])).unwrap();
    assert_eq!(s.memory.program_couter, 0x1_0102);
}

#[test]
fn push_and_pop() {
    let mut s = with(Opcode::PUSH, &[5]);
    s.memory.data.registers[5] = 0xab;
    let top = sp(&s);
    s.exec_debug().unwrap();
    assert_eq!(sp(&s), top - 1);
    assert_eq!(s.memory.data.get(top as usize), Some(0xab));
    assert_eq!(s.memory.program_couter, 1);
    assert_eq!(s.execute_inst(&named(Opcode::POP, &[6])), Ok(Outcome::Continue));
    assert_eq!(s.memory.data.registers[6], 0xab);
    assert_eq!(sp(&s), top);
    // nothing lies above the last byte of the data space
    let before = snapshot(&s);
    assert_eq!(
        s.execute_inst(&named(Opcode::POP, &[6])),
        Err(Error::InvalidAddress { address: top as u64 + 1 })
    );
    assert_eq!(snapshot(&s), before);
}

#[test]
fn the_stack_does_not_wrap_below_zero() {
    let mut s = with(Opcode::CALL, &[0x200]);
    s.memory.data.io.data[0x3d] = 1;
    s.memory.data.io.data[0x3e] = 0;
    let before = snapshot(&s);
    assert_eq!(s.exec_debug(), Err(Error::InvalidAddress { address: 1 }));
    assert_eq!(snapshot(&s), before);
}

#[test]
fn a_device_without_stack_pointer() {
    let mut s = Sim::init_debug(
        &device_with(0x8000, vec![register("SREG", 0x5f, 1)]),
        vec![named(Opcode::PUSH, &[0])],
    )
    .unwrap();
    assert_eq!(
        s.debug_init_stack(),
        Err(Error::MissingRegister { register: CommonRegister::Spl })
    );
    assert_eq!(s.exec_debug(), Err(Error::MissingRegister { register: CommonRegister::Spl }));
    assert_eq!(s.memory.program_couter, 0);
}

#[test]
fn a_device_without_status_register() {
    let mut s = Sim::init_debug(
        &device_with(0x8000, vec![register("SP", 0x5d, 2)]),
        vec![named(Opcode::ADD, &[0, 1])],
    )
    .unwrap();
    s.memory.data.registers[0] = 1;
    assert_eq!(s.exec_debug(), Err(Error::MissingRegister { register: CommonRegister::Sreg }));
    assert_eq!(s.memory.data.registers[0], 1);
    // an instruction that touches no flag needs no status register
    assert_eq!(s.execute_inst(&named(Opcode::LDI, &[16, 7])), Ok(Outcome::Continue));
    assert_eq!(s.memory.data.registers[16], 7);
}

#[test]
fn loads_and_stores_through_pointers() {
    // ld r16, X
    let mut s = with(Opcode::LD, &[16, 0, 3]);
    s.memory.data.registers[26] = 0x00;
    s.memory.data.registers[27] = 0x01;
    s.memory.data.ram[0] = 0x5a;
    s.exec_debug().unwrap();
    assert_eq!(s.memory.data.registers[16], 0x5a);
    assert_eq!((s.memory.data.registers[26], s.memory.data.registers[27]), (0x00, 0x01));
    // ld r16, Y+
    let mut s = with(Opcode::LD, &[16, 1, 2]);
    s.memory.data.registers[28] = 0xff;
    s.memory.data.registers[29] = 0x01;
    s.memory.data.ram[0xff] = 0x77;
    s.exec_debug().unwrap();
    assert_eq!(s.memory.data.registers[16], 0x77);
    assert_eq!((s.memory.data.registers[28], s.memory.data.registers[29]), (0x00, 0x02));
    // ld r16, -Z
    let mut s = with(Opcode::LD, &[16, 2, 0]);
    s.memory.data.registers[30] = 0x00;
    s.memory.data.registers[31] = 0x02;
    s.memory.data.ram[0xff] = 0x99;
    s.exec_debug().unwrap();
    assert_eq!(s.memory.data.registers[16], 0x99);
    assert_eq!((s.memory.data.registers[30], s.memory.data.registers[31]), (0xff, 0x01));
    // st X+, r17
    let mut s = with(Opcode::ST, &[1, 17, 3]);
    s.memory.data.registers[17] = 0x42;
    s.memory.data.registers[26] = 0x10;
    s.memory.data.registers[27] = 0x01;
    s.exec_debug().unwrap();
    assert_eq!(s.memory.data.ram[0x10], 0x42);
    assert_eq!(s.memory.data.registers[26], 0x11);
    // the pointer reaches every region: X = 5 is register 5, X = 0x25 is a port
    let mut s = with(Opcode::ST, &[0, 17, 3]);
    s.memory.data.registers[17] = 0x42;
    s.memory.data.registers[26] = 0x05;
    s.exec_debug().unwrap();
    assert_eq!(s.memory.data.registers[5], 0x42);
    let mut s = with(Opcode::ST, &[0, 17, 3]);
    s.memory.data.registers[17] = 0x42;
    s.memory.data.registers[26] = 0x25;
    s.exec_debug().unwrap();
    assert_eq!(s.memory.data.io.data[0x05], 0x42);
    // behind the data space
    let mut s = with(Opcode::LD, &[16, 0, 3]);
    s.memory.data.registers[27] = 0x09;
    let before = snapshot(&s);
    assert_eq!(s.exec_debug(), Err(Error::InvalidAddress { address: 0x0900 }));
    assert_eq!(snapshot(&s), before);
    let mut s = with(Opcode::LD, &[16, 0, 1]);
    assert_eq!(s.exec_debug(), Err(Error::InvalidValue));
    let mut s = with(Opcode::LD, &[16, 3, 3]);
    assert_eq!(s.exec_debug(), Err(Error::InvalidValue));
}

#[test]
fn loads_and_stores_with_displacement_and_direct() {
    // ldd r16, Y+5
    let mut s = with(Opcode::LDD, &[16, 5, 1]);
    s.memory.data.registers[28] = 0x00;
    s.memory.data.registers[29] = 0x01;
    s.memory.data.ram[5] = 0x31;
    s.exec_debug().unwrap();
    assert_eq!(s.memory.data.registers[16], 0x31);
    // std Z+63, r2
    let mut s = with(Opcode::STD, &[63, 2, 0]);
    s.memory.data.registers[2] = 0x32;
    s.memory.data.registers[30] = 0x00;
    s.memory.data.registers[31] = 0x01;
    s.exec_debug().unwrap();
    assert_eq!(s.memory.data.ram[63], 0x32);
    let mut s = with(Opcode::LDD, &[16, 64, 1]);
    assert_eq!(s.exec_debug(), Err(Error::InvalidValue));
    // lds r16, 0x0100 and sts 0x0100, r16: two words each
    let mut s = with(Opcode::LDS, &[16, 0x0100]);
    s.memory.data.ram[0] = 0x44;
    s.exec_debug().unwrap();
    assert_eq!(s.memory.data.registers[16], 0x44);
    assert_eq!(s.memory.program_couter, 2);
    let mut s = with(Opcode::STS, &[0x0100, 16]);
    s.memory.data.registers[16] = 0x45;
    s.exec_debug().unwrap();
    assert_eq!(s.memory.data.ram[0], 0x45);
    assert_eq!(s.memory.program_couter, 2);
    let mut s = with(Opcode::STS, &[0x1_0000, 16]);
    assert_eq!(s.exec_debug(), Err(Error::InvalidValue));
}

#[test]
fn exchanges_with_memory() {
    let setup = |opcode| {
        let mut s = with(opcode, &[0, 16]);
        s.memory.data.registers[16] = 0b1100;
        s.memory.data.registers[30] = 0x00;
        s.memory.data.registers[31] = 0x01;
        s.memory.data.ram[0] = 0b1010;
        s.exec_debug().unwrap();
        (s.memory.data.registers[16], s.memory.data.ram[0])
    };
    assert_eq!(setup(Opcode::XCH), (0b1010, 0b1100));
    assert_eq!(setup(Opcode::LAS), (0b1010, 0b1110));
    assert_eq!(setup(Opcode::LAC), (0b1010, 0b0010));
    assert_eq!(setup(Opcode::LAT), (0b1010, 0b0110));
}

#[test]
fn loads_from_program_memory() {
    let mut first = Instruction::decode_from_opcode(0x1234).unwrap();
    first.address = 0x20;
    let mut long = Instruction::decode_from_opcode(0x940e).unwrap();
    long.raw_opcode = 0x940e_5678;
    long.address = 0x21;
    let lpm = named(Opcode::LPM, &[16, 1]);
    let mut s = machine(vec![lpm, first, long]);
    let mut read = |z: u16| {
        s.memory.program_couter = 0;
        s.memory.data.registers[30] = (z & 0xff) as u8;
        s.memory.data.registers[31] = (z >> 8) as u8;
        s.exec_debug().unwrap();
        let after = s.memory.data.registers[30] as u16 + 256 * s.memory.data.registers[31] as u16;
        (s.memory.data.registers[16], after)
    };
    assert_eq!(read(0x40), (0x34, 0x41));
    assert_eq!(read(0x41), (0x12, 0x42));
    assert_eq!(read(0x42), (0x0e, 0x43));
    assert_eq!(read(0x43), (0x94, 0x44));
    assert_eq!(read(0x44), (0x78, 0x45));
    assert_eq!(read(0x45), (0x56, 0x46));
    // an empty cell reads as erased flash
    assert_eq!(read(0x46), (0xff, 0x47));
    // without operands: register 0, pointer unchanged
    let mut s = machine(vec![named(Opcode::LPM, &[])]);
    s.memory.data.registers[30] = 0x10;
    s.exec_debug().unwrap();
    assert_eq!(s.memory.data.registers[0], 0xff);
    assert_eq!(s.memory.data.registers[30], 0x10);
    let mut s = machine(vec![named(Opcode::ELPM, &[3, 0])]);
    s.memory.data.registers[31] = 0xff;
    assert_eq!(s.exec_debug(), Err(Error::InvalidAddress { address: 0x7f80 }));
}

#[test]
fn nothing_to_do() {
    for opcode in [Opcode::NOP, Opcode::SLEEP, Opcode::WDR] {
        let mut s = with(opcode, &[]);
        let before = s.memory.data.io.data.clone();
        assert_eq!(s.exec_debug(), Ok(Outcome::Continue));
        assert_eq!(s.memory.program_couter, 1);
        assert_eq!(s.memory.data.io.data, before);
    }
}

#[test]
fn break_halts_and_changes_nothing() {
    let mut s = with(Opcode::BREAK, &[]);
    let before = snapshot(&s);
    assert_eq!(s.exec_debug(), Ok(Outcome::Halt));
    assert_eq!(snapshot(&s), before);
}

#[test]
fn what_is_not_executed() {
    let mut s = with(Opcode::DES, &[0]);
    assert_eq!(s.exec_debug(), Err(Error::UnsupportedInstruction { name: Opcode::DES }));
    let mut s = with(Opcode::SPM, &[]);
    assert_eq!(s.exec_debug(), Err(Error::UnsupportedInstruction { name: Opcode::SPM }));
    // an empty cell
    let mut s = machine(vec![]);
    assert_eq!(s.exec_debug(), Err(Error::NotExecutable { id: 1000 }));
    let mut s = machine(vec![]);
    assert_eq!(
        s.execute_inst(&Instruction::new(String::new(), 555, vec![])),
        Err(Error::UnknownInstruction { id: 555 })
    );
    let mut s = machine(vec![]);
    s.memory.program_couter = 0x4000;
    assert_eq!(s.exec_debug(), Err(Error::InvalidAddress { address: 0x4000 }));
}

#[test]
fn an_error_leaves_the_machine_as_it_was() {
    let mut s = with(Opcode::ADD, &[0, 40]);
    s.memory.data.registers[0] = 10;
    s.set_flag(Flags::C, true).unwrap();
    let before = snapshot(&s);
    assert_eq!(s.exec_debug(), Err(Error::InvalidRegister { index: 40 }));
    assert_eq!(snapshot(&s), before);
    let mut s = with(Opcode::ADD, &[-1, 0]);
    assert_eq!(s.exec_debug(), Err(Error::InvalidRegister { index: -1 }));
    let mut s = with(Opcode::NOP, &[]);
    s.memory.program_couter = u32::MAX;
    assert_eq!(
        s.execute_inst(&named(Opcode::NOP, &[])),
        Err(Error::InvalidAddress { address: u32::MAX as u64 + 1 })
    );
    assert_eq!(s.memory.program_couter, u32::MAX);
}

#[test]
fn add_flags_match_plain_arithmetic_for_every_pair() {
    for a in 0..=255u8 {
        for b in 0..=255u8 {
            for carry in [false, true] {
                let r = alu::add(a, b, carry);
                let sum = a as u16 + b as u16 + carry as u16;
                let signed = a as i8 as i16 + b as i8 as i16 + carry as i16;
                let n = sum & 0x80 != 0;
                let v = !(-128..=127).contains(&signed);
                assert_eq!(r.value, sum as u8);
                assert_eq!(r.status.c, Some(sum > 255));
                assert_eq!(r.status.h, Some((a & 15) + (b & 15) + carry as u8 > 15));
                assert_eq!(r.status.v, Some(v));
                assert_eq!(r.status.n, Some(n));
                assert_eq!(r.status.z, Some(sum as u8 == 0));
                assert_eq!(r.status.s, Some(n != v));
            }
        }
    }
}

#[test]
fn sub_flags_match_plain_arithmetic_for_every_pair() {
    for a in 0..=255u8 {
        for b in 0..=255u8 {
            for carry in [false, true] {
                let r = alu::sub(a, b, carry, false, false);
                let diff = a as i16 - b as i16 - carry as i16;
                let signed = a as i8 as i16 - b as i8 as i16 - carry as i16;
                let n = (diff as u8) & 0x80 != 0;
                let v = !(-128..=127).contains(&signed);
                assert_eq!(r.value, diff as u8);
                assert_eq!(r.status.c, Some(diff < 0));
                assert_eq!(r.status.h, Some((a & 15) < (b & 15) + carry as u8));
                assert_eq!(r.status.v, Some(v));
                assert_eq!(r.status.n, Some(n));
                assert_eq!(r.status.z, Some(diff as u8 == 0));
                assert_eq!(r.status.s, Some(n != v));
            }
        }
    }
}

#[test]
fn word_flags_match_plain_arithmetic() {
    for word in [0u16, 1, 0x40fe, 0x7fff, 0x8000, 0xffc1, 0xffff] {
        for k in 0..64u16 {
            let r = alu::add_word(word, k);
            let sum = word as u32 + k as u32;
            assert_eq!(r.value, sum as u16);
            assert_eq!(r.status.c, Some(sum > 0xffff));
            assert_eq!(r.status.v, Some(word < 0x8000 && sum as u16 >= 0x8000));
            assert_eq!(r.status.z, Some(sum as u16 == 0));
            let r = alu::sub_word(word, k);
            assert_eq!(r.value, word.wrapping_sub(k));
            assert_eq!(r.status.c, Some(word < k));
            assert_eq!(r.status.v, Some(word >= 0x8000 && word.wrapping_sub(k) < 0x8000));
        }
    }
}

#[test]
fn flags_by_number() {
    assert_eq!(Flags::get_flag(0), Ok(Flags::C));
    assert_eq!(Flags::get_flag(7), Ok(Flags::I));
    assert_eq!(Flags::get_flag(8), Err(Error::InvalidValue));
    assert_eq!(Flags::H.bit(), 5);
}
