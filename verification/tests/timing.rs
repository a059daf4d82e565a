use avr_sim::constraint::Constraint;
use avr_sim::error::Error;
use avr_sim::instruction::Instruction;
use avr_sim::machine::RamSize;
use avr_sim::opcode::{Opcode, RawInst};
use avr_sim::operand::Operand;
use avr_sim::sim::Sim;
use avr_sim::timing::{core_cycles, cycles_of, get_time, Core};

const CORES: [Core; 6] = [Core::AVR, Core::AVRe, Core::AVRep, Core::AVRxm, Core::AVRxt, Core::AVRrc];

fn named(opcode: Opcode, operands: &[i64]) -> Instruction {
    let id = RawInst::get_inst_id_from_opcode(opcode).unwrap();
    let list = operands.iter().map(|v| Operand::new(Constraint::i, *v)).collect();
    Instruction::new(String::new(), id, list)
}

fn on(core: Core, opcode: Opcode) -> Result<u8, Error> {
    cycles_of(core, opcode, false, Some(1), 0, false)
}

#[test]
fn cycles_that_depend_on_nothing() {
    for core in CORES {
        assert_eq!(on(core, Opcode::ADD), Ok(1));
        assert_eq!(on(core, Opcode::NOP), Ok(1));
        assert_eq!(on(core, Opcode::JMP), Ok(3));
        assert_eq!(on(core, Opcode::RJMP), Ok(2));
        assert_eq!(on(core, Opcode::SEC), Ok(1));
        assert_eq!(on(core, Opcode::CUSTOM_INST(999)), Err(Error::NotOnThisCore));
    }
}

#[test]
fn cycles_by_core() {
    assert_eq!(on(Core::AVR, Opcode::ADIW), Ok(2));
    assert_eq!(on(Core::AVRrc, Opcode::ADIW), Err(Error::NotOnThisCore));
    assert_eq!(on(Core::AVRe, Opcode::MUL), Ok(2));
    assert_eq!(on(Core::AVRrc, Opcode::MUL), Err(Error::NotOnThisCore));
    assert_eq!(on(Core::AVR, Opcode::LDS), Ok(2));
    assert_eq!(on(Core::AVRxm, Opcode::LDS), Ok(3));
    assert_eq!(on(Core::AVRxt, Opcode::LDS), Ok(3));
    assert_eq!(on(Core::AVRrc, Opcode::LDS), Ok(2));
    assert_eq!(on(Core::AVRrc, Opcode::STS), Ok(1));
    assert_eq!(on(Core::AVRep, Opcode::PUSH), Ok(2));
    assert_eq!(on(Core::AVRxm, Opcode::PUSH), Ok(1));
    assert_eq!(on(Core::AVRrc, Opcode::POP), Ok(3));
    assert_eq!(on(Core::AVRxt, Opcode::POP), Ok(2));
    assert_eq!(on(Core::AVRxm, Opcode::XCH), Ok(2));
    assert_eq!(on(Core::AVR, Opcode::XCH), Err(Error::NotOnThisCore));
    assert_eq!(on(Core::AVR, Opcode::SBI), Ok(2));
    assert_eq!(on(Core::AVRxt, Opcode::CBI), Ok(1));
    assert_eq!(on(Core::AVRxt, Opcode::STD), Ok(1));
    assert_eq!(on(Core::AVRrc, Opcode::LDD), Err(Error::NotOnThisCore));
    assert_eq!(on(Core::AVRxm, Opcode::LDD), Ok(3));
    assert_eq!(on(Core::AVRrc, Opcode::LPM), Err(Error::NotOnThisCore));
    assert_eq!(on(Core::AVRxm, Opcode::ELPM), Ok(3));
    assert_eq!(on(Core::AVRxm, Opcode::EICALL), Ok(3));
    assert_eq!(on(Core::AVR, Opcode::EICALL), Ok(4));
    assert_eq!(core_cycles(Core::AVRe, Some(7), None, None, None), Ok(7));
    assert_eq!(core_cycles(Core::AVRxm, Some(7), None, None, None), Err(Error::NotOnThisCore));
}

#[test]
fn cycles_of_calls_and_returns() {
    let wide = |core, opcode| cycles_of(core, opcode, true, Some(1), 0, false);
    assert_eq!(on(Core::AVR, Opcode::RCALL), Ok(3));
    assert_eq!(on(Core::AVRxm, Opcode::ICALL), Ok(2));
    assert_eq!(on(Core::AVRrc, Opcode::RCALL), Ok(3));
    assert_eq!(wide(Core::AVR, Opcode::RCALL), Ok(4));
    assert_eq!(wide(Core::AVRrc, Opcode::RCALL), Err(Error::NotOnThisCore));
    assert_eq!(on(Core::AVR, Opcode::CALL), Ok(4));
    assert_eq!(wide(Core::AVR, Opcode::CALL), Ok(5));
    assert_eq!(wide(Core::AVRxt, Opcode::CALL), Ok(4));
    assert_eq!(on(Core::AVRrc, Opcode::CALL), Err(Error::NotOnThisCore));
    assert_eq!(on(Core::AVR, Opcode::RET), Ok(4));
    assert_eq!(on(Core::AVRrc, Opcode::RETI), Ok(6));
    assert_eq!(wide(Core::AVRxm, Opcode::RET), Ok(5));
    assert_eq!(wide(Core::AVRrc, Opcode::RET), Err(Error::NotOnThisCore));
}

#[test]
fn cycles_of_branches_and_skips() {
    let moved = |opcode, advance| cycles_of(Core::AVR, opcode, false, advance, 0, false);
    assert_eq!(moved(Opcode::BREQ, Some(1)), Ok(1));
    assert_eq!(moved(Opcode::BREQ, Some(6)), Ok(2));
    assert_eq!(moved(Opcode::BRBS, None), Ok(2));
    assert_eq!(moved(Opcode::CPSE, Some(1)), Ok(1));
    assert_eq!(moved(Opcode::CPSE, Some(2)), Ok(2));
    assert_eq!(moved(Opcode::CPSE, Some(3)), Ok(3));
    assert_eq!(moved(Opcode::SBIS, Some(4)), Err(Error::NotOnThisCore));
    assert_eq!(moved(Opcode::SBRC, None), Err(Error::NotOnThisCore));
    assert_eq!(
        cycles_of(Core::AVRrc, Opcode::SBRS, false, Some(3), 0, false),
        Err(Error::NotOnThisCore)
    );
}

#[test]
fn cycles_of_indirect_access_and_des() {
    let toward = |core, opcode, direction| cycles_of(core, opcode, false, Some(1), direction, false);
    assert_eq!(toward(Core::AVRxm, Opcode::LD, 0), Ok(2));
    assert_eq!(toward(Core::AVRxm, Opcode::LD, 1), Ok(2));
    assert_eq!(toward(Core::AVRxm, Opcode::LD, 2), Ok(3));
    assert_eq!(toward(Core::AVR, Opcode::LD, 2), Ok(2));
    assert_eq!(toward(Core::AVR, Opcode::LD, 3), Err(Error::NotOnThisCore));
    assert_eq!(toward(Core::AVR, Opcode::ST, 2), Ok(2));
    assert_eq!(toward(Core::AVRxt, Opcode::ST, 2), Ok(1));
    assert_eq!(toward(Core::AVRxm, Opcode::ST, 2), Ok(2));
    assert_eq!(toward(Core::AVRxm, Opcode::ST, 1), Ok(1));
    assert_eq!(toward(Core::AVRrc, Opcode::ST, 0), Ok(1));
    assert_eq!(cycles_of(Core::AVRxm, Opcode::DES, false, Some(1), 0, false), Ok(2));
    assert_eq!(cycles_of(Core::AVRxm, Opcode::DES, false, Some(1), 0, true), Ok(1));
    assert_eq!(
        cycles_of(Core::AVR, Opcode::DES, false, Some(1), 0, true),
        Err(Error::NotOnThisCore)
    );
}

#[test]
fn the_time_of_an_executed_instruction() {
    let mut sim = Sim::new();
    let mut first = named(Opcode::DES, &[0]);
    first.address = 0;
    let mut second = named(Opcode::DES, &[1]);
    second.address = 1;
    sim.memory.flash = vec![
        named(Opcode::DES, &[0]),
        named(Opcode::DES, &[1]),
        named(Opcode::BREQ, &[4]),
        named(Opcode::LD, &[16, 2, 3]),
        named(Opcode::ST, &[2, 16, 3]),
    ];
    assert_eq!(get_time(Core::AVRxm, &first, &sim), Ok(2));
    assert_eq!(get_time(Core::AVRxm, &second, &sim), Ok(1));
    let mut branch = named(Opcode::BREQ, &[4]);
    branch.address = 2;
    sim.memory.program_couter = 3;
    assert_eq!(get_time(Core::AVR, &branch, &sim), Ok(1));
    sim.memory.program_couter = 5;
    assert_eq!(get_time(Core::AVR, &branch, &sim), Ok(2));
    sim.memory.program_couter = 0;
    assert_eq!(get_time(Core::AVR, &branch, &sim), Ok(2));
    let mut load = named(Opcode::LD, &[16, 2, 3]);
    load.address = 3;
    assert_eq!(get_time(Core::AVRxm, &load, &sim), Ok(3));
    let mut store = named(Opcode::ST, &[2, 16, 3]);
    store.address = 4;
    assert_eq!(get_time(Core::AVRxm, &store, &sim), Ok(2));
    assert_eq!(get_time(Core::AVRxt, &store, &sim), Ok(1));
    sim.ram_size = RamSize::Size24;
    assert_eq!(get_time(Core::AVR, &named(Opcode::CALL, &[0]), &sim), Ok(5));
    let placeholder = Instruction::new(String::new(), 1000, vec![]);
    assert_eq!(get_time(Core::AVR, &placeholder, &sim), Err(Error::NotOnThisCore));
    let unknown = Instruction::new(String::new(), 300, vec![]);
    assert_eq!(get_time(Core::AVR, &unknown, &sim), Err(Error::UnknownInstruction { id: 300 }));
}
