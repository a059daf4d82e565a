//! How many clock cycles an instruction takes on each core.

use vstd::prelude::*;
use crate::error::Error;
use crate::instruction::Instruction;
use crate::machine::{operand_value, Machine, RamSize};
use crate::opcode::{is_custom_id, Opcode, OPCODE_NAMES};
use crate::sim::{operand_of, Sim};

verus! {

/// The cores of the AVR family.
#[derive(Clone, Copy, Debug, PartialEq, Eq, Structural)]
pub enum Core {
    /// The first core.
    AVR,
    /// The enhanced core.
    AVRe,
    /// The enhanced core with extended program memory.
    AVRep,
    /// The XMEGA core.
    AVRxm,
    /// The core of the newer tinyAVR and megaAVR.
    AVRxt,
    /// The reduced core.
    AVRrc,
}

/// The cycles of an instruction whose timing depends on the core only: one
/// number for the three older cores, and one for each of the others. `None`
/// stands for a core that does not have the instruction.
pub open spec fn by_core(
    core: Core,
    classic: Option<u8>,
    xm: Option<u8>,
    xt: Option<u8>,
    rc: Option<u8>,
) -> Result<u8, Error> {
    let cycles = match core {
        Core::AVR | Core::AVRe | Core::AVRep => classic,
        Core::AVRxm => xm,
        Core::AVRxt => xt,
        Core::AVRrc => rc,
    };
    match cycles {
        Some(n) => Ok(n),
        None => Err(Error::NotOnThisCore),
    }
}

/// The cycles that the instruction `name` takes on `core`. `wide` tells
/// whether the program counter has three bytes; `advance` is how many words
/// the program counter moved on from the instruction, which shows whether a
/// branch or skip was taken; `direction` is the direction operand of `ld`
/// and `st`; `after_des` tells whether the instruction before is a `des`.
pub open spec fn cycles(
    core: Core,
    name: Opcode,
    wide: bool,
    advance: Option<u32>,
    direction: i64,
    after_des: bool,
) -> Result<u8, Error> {
    match name {
        Opcode::ADD | Opcode::ADC | Opcode::SUB | Opcode::SUBI | Opcode::SBC | Opcode::SBCI => Ok(1),
        Opcode::ADIW | Opcode::SBIW => by_core(core, Some(2), Some(2), Some(2), None),
        Opcode::AND | Opcode::ANDI | Opcode::OR | Opcode::ORI | Opcode::EOR | Opcode::COM | Opcode::NEG | Opcode::SBR | Opcode::CBR | Opcode::INC | Opcode::DEC | Opcode::TST | Opcode::CLR | Opcode::SER => Ok(1),
        Opcode::MUL | Opcode::MULS | Opcode::MULSU | Opcode::FMUL | Opcode::FMULS | Opcode::FMULSU => by_core(core, Some(2), Some(2), Some(2), None),
        Opcode::DES => by_core(core, None, Some(if after_des { 1 } else { 2 }), None, None),
        Opcode::RJMP | Opcode::IJMP => Ok(2),
        Opcode::EIJMP => by_core(core, Some(2), Some(2), Some(2), None),
        Opcode::JMP => Ok(3),
        Opcode::RCALL | Opcode::ICALL => if wide { by_core(core, Some(4), Some(3), Some(3), None) } else { by_core(core, Some(3), Some(2), Some(2), Some(3)) },
        Opcode::EICALL => by_core(core, Some(4), Some(3), Some(3), None),
        Opcode::CALL => if wide { by_core(core, Some(5), Some(4), Some(4), None) } else { by_core(core, Some(4), Some(3), Some(3), None) },
        Opcode::RET | Opcode::RETI => if wide { by_core(core, Some(5), Some(5), Some(5), None) } else { by_core(core, Some(4), Some(4), Some(4), Some(6)) },
        Opcode::CPSE | Opcode::SBRC | Opcode::SBRS | Opcode::SBIC | Opcode::SBIS => match advance {
            Some(1) => Ok(1),
            Some(2) => Ok(2),
            Some(3) => by_core(core, Some(3), Some(3), Some(3), None),
            _ => Err(Error::NotOnThisCore),
        },
        Opcode::CP | Opcode::CPC | Opcode::CPI => Ok(1),
        Opcode::BRBS | Opcode::BRBC | Opcode::BREQ | Opcode::BRNE | Opcode::BRCS | Opcode::BRCC | Opcode::BRSH | Opcode::BRLO | Opcode::BRMI | Opcode::BRPL | Opcode::BRGE | Opcode::BRLT | Opcode::BRHS | Opcode::BRHC | Opcode::BRTS | Opcode::BRTC | Opcode::BRVS | Opcode::BRVC | Opcode::BRIE | Opcode::BRID => if advance == Some(1u32) {
            Ok(1)
        } else {
            Ok(2)
        },
        Opcode::MOV | Opcode::LDI => Ok(1),
        Opcode::MOVW => by_core(core, Some(1), Some(1), Some(1), None),
        Opcode::LDS => by_core(core, Some(2), Some(3), Some(3), Some(2)),
        Opcode::LD => if direction == 0 || direction == 1 {
            Ok(2)
        } else if direction == 2 {
            by_core(core, Some(2), Some(3), Some(2), Some(2))
        } else {
            Err(Error::NotOnThisCore)
        },
        Opcode::LDD => by_core(core, Some(2), Some(3), Some(2), None),
        Opcode::STS => by_core(core, Some(2), Some(2), Some(2), Some(1)),
        Opcode::ST => by_core(core, Some(2), Some(if direction == 2 { 2 } else { 1 }), Some(1), Some(if direction == 2 { 2 } else { 1 })),
        Opcode::STD => by_core(core, Some(2), Some(2), Some(1), None),
        Opcode::LPM | Opcode::ELPM => by_core(core, Some(3), Some(3), Some(3), None),
        Opcode::SPM => Ok(1),
        Opcode::IN | Opcode::OUT => Ok(1),
        Opcode::PUSH => by_core(core, Some(2), Some(1), Some(1), Some(1)),
        Opcode::POP => by_core(core, Some(2), Some(2), Some(2), Some(3)),
        Opcode::XCH | Opcode::LAS | Opcode::LAC | Opcode::LAT => by_core(core, None, Some(2), None, None),
        Opcode::LSL | Opcode::LSR | Opcode::ROL | Opcode::ROR | Opcode::ASR | Opcode::SWAP => Ok(1),
        Opcode::SBI | Opcode::CBI => by_core(core, Some(2), Some(1), Some(1), Some(1)),
        Opcode::BST | Opcode::BLD | Opcode::BSET | Opcode::BCLR | Opcode::SEC | Opcode::CLC | Opcode::SEN | Opcode::CLN | Opcode::SEZ | Opcode::CLZ | Opcode::SEI | Opcode::CLI | Opcode::SES | Opcode::CLS | Opcode::SEV | Opcode::CLV | Opcode::SET | Opcode::CLT | Opcode::SEH | Opcode::CLH => Ok(1),
        Opcode::BREAK | Opcode::NOP | Opcode::SLEEP | Opcode::WDR => Ok(1),
        Opcode::CUSTOM_INST(_) => Err(Error::NotOnThisCore),
    }
}

/// The cycles of an instruction whose timing depends on the core only.
pub fn core_cycles(
    core: Core,
    classic: Option<u8>,
    xm: Option<u8>,
    xt: Option<u8>,
    rc: Option<u8>,
) -> (r: Result<u8, Error>)
    ensures
        r == by_core(core, classic, xm, xt, rc),
{
    let cycles = match core {
        Core::AVR | Core::AVRe | Core::AVRep => classic,
        Core::AVRxm => xm,
        Core::AVRxt => xt,
        Core::AVRrc => rc,
    };
    match cycles {
        Some(n) => Ok(n),
        None => Err(Error::NotOnThisCore),
    }
}

/// The cycles that the instruction `name` takes on `core`.
pub fn cycles_of(
    core: Core,
    name: Opcode,
    wide: bool,
    advance: Option<u32>,
    direction: i64,
    after_des: bool,
) -> (r: Result<u8, Error>)
    ensures
        r == cycles(core, name, wide, advance, direction, after_des),
{
    match name {
        Opcode::ADD | Opcode::ADC | Opcode::SUB | Opcode::SUBI | Opcode::SBC | Opcode::SBCI => Ok(1),
        Opcode::ADIW | Opcode::SBIW => core_cycles(core, Some(2), Some(2), Some(2), None),
        Opcode::AND | Opcode::ANDI | Opcode::OR | Opcode::ORI | Opcode::EOR | Opcode::COM | Opcode::NEG | Opcode::SBR | Opcode::CBR | Opcode::INC | Opcode::DEC | Opcode::TST | Opcode::CLR | Opcode::SER => Ok(1),
        Opcode::MUL | Opcode::MULS | Opcode::MULSU | Opcode::FMUL | Opcode::FMULS | Opcode::FMULSU => core_cycles(core, Some(2), Some(2), Some(2), None),
        Opcode::DES => core_cycles(core, None, Some(if after_des { 1 } else { 2 }), None, None),
        Opcode::RJMP | Opcode::IJMP => Ok(2),
        Opcode::EIJMP => core_cycles(core, Some(2), Some(2), Some(2), None),
        Opcode::JMP => Ok(3),
        Opcode::RCALL | Opcode::ICALL => if wide { core_cycles(core, Some(4), Some(3), Some(3), None) } else { core_cycles(core, Some(3), Some(2), Some(2), Some(3)) },
        Opcode::EICALL => core_cycles(core, Some(4), Some(3), Some(3), None),
        Opcode::CALL => if wide { core_cycles(core, Some(5), Some(4), Some(4), None) } else { core_cycles(core, Some(4), Some(3), Some(3), None) },
        Opcode::RET | Opcode::RETI => if wide { core_cycles(core, Some(5), Some(5), Some(5), None) } else { core_cycles(core, Some(4), Some(4), Some(4), Some(6)) },
        Opcode::CPSE | Opcode::SBRC | Opcode::SBRS | Opcode::SBIC | Opcode::SBIS => match advance {
            Some(1) => Ok(1),
            Some(2) => Ok(2),
            Some(3) => core_cycles(core, Some(3), Some(3), Some(3), None),
            _ => Err(Error::NotOnThisCore),
        },
        Opcode::CP | Opcode::CPC | Opcode::CPI => Ok(1),
        Opcode::BRBS | Opcode::BRBC | Opcode::BREQ | Opcode::BRNE | Opcode::BRCS | Opcode::BRCC | Opcode::BRSH | Opcode::BRLO | Opcode::BRMI | Opcode::BRPL | Opcode::BRGE | Opcode::BRLT | Opcode::BRHS | Opcode::BRHC | Opcode::BRTS | Opcode::BRTC | Opcode::BRVS | Opcode::BRVC | Opcode::BRIE | Opcode::BRID => if advance == Some(1u32) {
            Ok(1)
        } else {
            Ok(2)
        },
        Opcode::MOV | Opcode::LDI => Ok(1),
        Opcode::MOVW => core_cycles(core, Some(1), Some(1), Some(1), None),
        Opcode::LDS => core_cycles(core, Some(2), Some(3), Some(3), Some(2)),
        Opcode::LD => if direction == 0 || direction == 1 {
            Ok(2)
        } else if direction == 2 {
            core_cycles(core, Some(2), Some(3), Some(2), Some(2))
        } else {
            Err(Error::NotOnThisCore)
        },
        Opcode::LDD => core_cycles(core, Some(2), Some(3), Some(2), None),
        Opcode::STS => core_cycles(core, Some(2), Some(2), Some(2), Some(1)),
        Opcode::ST => core_cycles(core, Some(2), Some(if direction == 2 { 2 } else { 1 }), Some(1), Some(if direction == 2 { 2 } else { 1 })),
        Opcode::STD => core_cycles(core, Some(2), Some(2), Some(1), None),
        Opcode::LPM | Opcode::ELPM => core_cycles(core, Some(3), Some(3), Some(3), None),
        Opcode::SPM => Ok(1),
        Opcode::IN | Opcode::OUT => Ok(1),
        Opcode::PUSH => core_cycles(core, Some(2), Some(1), Some(1), Some(1)),
        Opcode::POP => core_cycles(core, Some(2), Some(2), Some(2), Some(3)),
        Opcode::XCH | Opcode::LAS | Opcode::LAC | Opcode::LAT => core_cycles(core, None, Some(2), None, None),
        Opcode::LSL | Opcode::LSR | Opcode::ROL | Opcode::ROR | Opcode::ASR | Opcode::SWAP => Ok(1),
        Opcode::SBI | Opcode::CBI => core_cycles(core, Some(2), Some(1), Some(1), Some(1)),
        Opcode::BST | Opcode::BLD | Opcode::BSET | Opcode::BCLR | Opcode::SEC | Opcode::CLC | Opcode::SEN | Opcode::CLN | Opcode::SEZ | Opcode::CLZ | Opcode::SEI | Opcode::CLI | Opcode::SES | Opcode::CLS | Opcode::SEV | Opcode::CLV | Opcode::SET | Opcode::CLT | Opcode::SEH | Opcode::CLH => Ok(1),
        Opcode::BREAK | Opcode::NOP | Opcode::SLEEP | Opcode::WDR => Ok(1),
        Opcode::CUSTOM_INST(_) => Err(Error::NotOnThisCore),
    }
}

/// How far the program counter stands behind the instruction at `address`.
pub open spec fn advance_of(m: Machine, address: u32) -> Option<u32> {
    if m.pc >= address {
        Some((m.pc - address) as u32)
    } else {
        None
    }
}

/// The direction operand of an indirect load or store.
pub open spec fn direction_of(name: Opcode, op1: i64, op2: i64) -> i64 {
    if name == Opcode::LD {
        op2
    } else {
        op1
    }
}

/// Whether the flash cell before `address` holds a `des`.
pub open spec fn follows_des(m: Machine, address: u32) -> bool {
    &&& 0 < address <= m.flash.len()
    &&& m.flash[address - 1].opcode_id < 124
    &&& OPCODE_NAMES[m.flash[address - 1].opcode_id as int] == Opcode::DES
}

/// The clock cycles that an instruction took, asked after it was executed:
/// the place of the program counter shows whether a branch or skip was
/// taken. Fails where the identity of the instruction is unknown, and where
/// the core does not have the instruction.
pub fn get_time(core: Core, inst: &Instruction, sim: &Sim) -> (r: Result<u8, Error>)
    ensures
        r == (if inst.opcode_id < 124 {
            cycles(
                core,
                OPCODE_NAMES[inst.opcode_id as int],
                sim@.ram_size == RamSize::Size24,
                advance_of(sim@, inst.address),
                direction_of(
                    OPCODE_NAMES[inst.opcode_id as int],
                    operand_value(inst@, 0),
                    operand_value(inst@, 1),
                ),
                follows_des(sim@, inst.address),
            )
        } else if is_custom_id(inst.opcode_id as int) {
            Err(Error::NotOnThisCore)
        } else {
            Err(Error::UnknownInstruction { id: inst.opcode_id })
        }),
{
    let raw = inst.get_raw_inst()?;
    if inst.opcode_id >= 124 {
        return Err(Error::NotOnThisCore);
    }
    let wide = match sim.ram_size {
        RamSize::Size24 => true,
        RamSize::Size16 => false,
    };
    let pc = sim.memory.program_couter;
    let advance = if pc >= inst.address {
        Some(pc - inst.address)
    } else {
        None
    };
    let direction = match raw.name {
        Opcode::LD => operand_of(inst, 1),
        _ => operand_of(inst, 0),
    };
    let after_des = if inst.address > 0 && inst.address as u64 <= sim.memory.flash.len() as u64 {
        let id = sim.memory.flash[inst.address as usize - 1].opcode_id;
        id < 124 && OPCODE_NAMES[id] == Opcode::DES
    } else {
        false
    };
    cycles_of(core, raw.name, wide, advance, direction, after_des)
}

} // verus!
