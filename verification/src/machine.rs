//! What one instruction does: the state of the machine as plain values, and
//! each instruction as a function from state to state.
//!
//! Every instruction either gives a new state or an error; an error leaves
//! the state as it was. Addresses of program memory are word addresses; the
//! operands of jumps, calls and branches are byte addresses and byte offsets,
//! as the decoder gives them.

use vstd::prelude::*;
use crate::alu::{
    add_status, add_word_status, carry_in, factor, logic_status, product_status, shift_status,
    sub_status, sub_word_status, with_flag, StatusUpdate,
};
use crate::bits::bit8;
use crate::error::Error;
use crate::instruction::InstructionView;
use crate::memory::watched;
use crate::opcode::{
    is_custom_id, Opcode, EMPTY_ID, OPCODE_LENGTHS, OPCODE_NAMES, REMINDER_ID,
};
use crate::register::{CommonRegister, CommonRegisters};

verus! {

/// The width of the program counter on the stack.
#[derive(Clone, Copy, Debug, PartialEq, Eq, Structural)]
pub enum RamSize {
    /// Two bytes: up to 128 KiB of program memory.
    Size16,
    /// Three bytes.
    Size24,
}

/// How a step ended.
#[derive(Clone, Copy, Debug, PartialEq, Eq, Structural)]
pub enum Outcome {
    /// The instruction was executed.
    Continue,
    /// A `break` was met: the program asks to be stopped.
    Halt,
}

/// The operations of the arithmetic and logic unit on one byte.
#[derive(Clone, Copy, Debug, PartialEq, Eq, Structural)]
pub enum Alu {
    Add,
    Adc,
    Sub,
    Sbc,
    Cp,
    Cpc,
    And,
    Or,
    Eor,
    Mov,
    Com,
    Neg,
    Inc,
    Dec,
    Lsr,
    Ror,
    Asr,
    Swap,
}

/// Where the second operand of an operation comes from.
#[derive(Clone, Copy, Debug, PartialEq, Eq, Structural)]
pub enum Source {
    /// The register that the second operand names.
    Register,
    /// The low byte of the second operand.
    Immediate,
    /// The complement of the low byte of the second operand.
    Inverted,
    /// The first register again.
    Same,
    /// The byte `0xFF`.
    Ones,
    /// There is none.
    Unary,
}

/// The state of the machine.
pub struct Machine {
    pub registers: Seq<u8>,
    pub io: Seq<u8>,
    pub ram: Seq<u8>,
    pub watchlist: Seq<u32>,
    pub write_status: bool,
    pub flash: Seq<InstructionView>,
    pub eeprom: Seq<u8>,
    pub pc: u32,
    pub special: CommonRegisters,
    pub ram_size: RamSize,
}

/// The state after a step and how the step ended, or the error that stopped it.
pub type StepResult = Result<(Machine, Outcome), Error>;

impl RamSize {
    /// The number of bytes of a return address.
    pub open spec fn bytes(self) -> nat {
        match self {
            RamSize::Size16 => 2,
            RamSize::Size24 => 3,
        }
    }

    /// The number of bytes of a return address.
    pub fn into(self) -> (r: u8)
        ensures
            r == self.bytes(),
    {
        match self {
            RamSize::Size16 => 2,
            RamSize::Size24 => 3,
        }
    }
}

impl Machine {
    /// The size of the data space.
    pub open spec fn data_len(self) -> int {
        (self.registers.len() + self.io.len() + self.ram.len()) as int
    }

    /// The byte behind an address of the data space.
    pub open spec fn data(self, address: int) -> u8
        recommends
            0 <= address < self.data_len(),
    {
        if address < self.registers.len() {
            self.registers[address]
        } else if address < self.registers.len() + self.io.len() {
            self.io[address - self.registers.len()]
        } else {
            self.ram[address - self.registers.len() - self.io.len()]
        }
    }

    /// The state after a write to the register file.
    pub open spec fn with_register(self, index: int, value: u8) -> Machine {
        Machine { registers: self.registers.update(index, value), ..self }
    }

    /// The state after a write to the I/O region: a write to a watched
    /// offset raises the write status.
    pub open spec fn with_io(self, offset: int, value: u8) -> Machine {
        Machine {
            io: self.io.update(offset, value),
            write_status: self.write_status || watched(self.watchlist, offset),
            ..self
        }
    }

    /// The state after a write to the data space.
    pub open spec fn with_data(self, address: int, value: u8) -> Machine
        recommends
            0 <= address < self.data_len(),
    {
        if address < self.registers.len() {
            self.with_register(address, value)
        } else if address < self.registers.len() + self.io.len() {
            self.with_io(address - self.registers.len(), value)
        } else {
            Machine {
                ram: self.ram.update(address - self.registers.len() - self.io.len(), value),
                ..self
            }
        }
    }

    /// The state with the program counter moved.
    pub open spec fn with_pc(self, pc: u32) -> Machine {
        Machine { pc, ..self }
    }

    /// Whether an operand names a register.
    pub open spec fn is_register(self, operand: i64) -> bool {
        0 <= operand < self.registers.len()
    }

    /// Whether an operand names a register that has another one behind it.
    pub open spec fn is_pair(self, operand: i64) -> bool {
        0 <= operand && operand + 1 < self.registers.len()
    }

    /// Where a special register stands in the I/O region; an error where
    /// the device does not have it or it lies outside the region.
    pub open spec fn special_at(self, which: CommonRegister) -> Result<usize, Error> {
        match self.special.alias(which) {
            None => Err(Error::MissingRegister { register: which }),
            Some(offset) => if offset < self.io.len() {
                Ok(offset)
            } else {
                Err(Error::InvalidAddress { address: offset as u64 })
            },
        }
    }

    /// A special register that may be missing: its value, or zero where the
    /// device does not have it.
    pub open spec fn extension(self, which: CommonRegister) -> u8 {
        match self.special_at(which) {
            Ok(offset) => self.io[offset as int],
            Err(_) => 0,
        }
    }

    /// The state after a write to a special register that may be missing:
    /// nothing changes where the device does not have it.
    pub open spec fn with_extension(self, which: CommonRegister, value: u8) -> Machine {
        match self.special_at(which) {
            Ok(offset) => self.with_io(offset as int, value),
            Err(_) => self,
        }
    }

    /// A 16-bit pointer: the register at `low` and the one behind it.
    pub open spec fn pointer(self, low: int) -> int
        recommends
            0 <= low,
            low + 1 < self.registers.len(),
    {
        self.registers[low] + 256 * self.registers[low + 1]
    }

    /// The state with a 16-bit pointer set.
    pub open spec fn with_pointer(self, low: int, value: int) -> Machine
        recommends
            0 <= low,
            low + 1 < self.registers.len(),
            0 <= value < 65536,
    {
        self.with_register(low, (value % 256) as u8).with_register(low + 1, (value / 256) as u8)
    }
}

/// The program counter after an instruction of `len` words that does not
/// jump.
pub open spec fn advance(m: Machine, len: int) -> StepResult {
    if m.pc + len > u32::MAX {
        Err(Error::InvalidAddress { address: (m.pc + len) as u64 })
    } else {
        Ok((m.with_pc((m.pc + len) as u32), Outcome::Continue))
    }
}

/// The word that a relative jump goes to: the next instruction, moved by
/// half the byte offset.
pub open spec fn relative_pc(pc: u32, offset: i64) -> Result<u32, Error> {
    let target = 2 * pc + 2 + offset;
    if offset % 2 != 0 || target < 0 || target / 2 > u32::MAX {
        Err(Error::InvalidTarget { target: offset })
    } else {
        Ok((target / 2) as u32)
    }
}

/// The word that an absolute jump goes to: half the byte address.
pub open spec fn absolute_pc(address: i64) -> Result<u32, Error> {
    if address % 2 != 0 || address < 0 || address / 2 > u32::MAX {
        Err(Error::InvalidTarget { target: address })
    } else {
        Ok((address / 2) as u32)
    }
}

/// The operation and the source of the second operand of the instructions
/// that work on one register.
pub open spec fn alu_form(name: Opcode) -> Option<(Alu, Source)> {
    match name {
        Opcode::ADD => Some((Alu::Add, Source::Register)),
        Opcode::ADC => Some((Alu::Adc, Source::Register)),
        Opcode::SUB => Some((Alu::Sub, Source::Register)),
        Opcode::SBC => Some((Alu::Sbc, Source::Register)),
        Opcode::CP => Some((Alu::Cp, Source::Register)),
        Opcode::CPC => Some((Alu::Cpc, Source::Register)),
        Opcode::AND => Some((Alu::And, Source::Register)),
        Opcode::OR => Some((Alu::Or, Source::Register)),
        Opcode::EOR => Some((Alu::Eor, Source::Register)),
        Opcode::MOV => Some((Alu::Mov, Source::Register)),
        Opcode::SUBI => Some((Alu::Sub, Source::Immediate)),
        Opcode::SBCI => Some((Alu::Sbc, Source::Immediate)),
        Opcode::CPI => Some((Alu::Cp, Source::Immediate)),
        Opcode::ANDI => Some((Alu::And, Source::Immediate)),
        Opcode::ORI => Some((Alu::Or, Source::Immediate)),
        Opcode::SBR => Some((Alu::Or, Source::Immediate)),
        Opcode::LDI => Some((Alu::Mov, Source::Immediate)),
        Opcode::CBR => Some((Alu::And, Source::Inverted)),
        Opcode::SER => Some((Alu::Mov, Source::Ones)),
        Opcode::LSL => Some((Alu::Add, Source::Same)),
        Opcode::ROL => Some((Alu::Adc, Source::Same)),
        Opcode::TST => Some((Alu::And, Source::Same)),
        Opcode::CLR => Some((Alu::Eor, Source::Same)),
        Opcode::COM => Some((Alu::Com, Source::Unary)),
        Opcode::NEG => Some((Alu::Neg, Source::Unary)),
        Opcode::INC => Some((Alu::Inc, Source::Unary)),
        Opcode::DEC => Some((Alu::Dec, Source::Unary)),
        Opcode::LSR => Some((Alu::Lsr, Source::Unary)),
        Opcode::ROR => Some((Alu::Ror, Source::Unary)),
        Opcode::ASR => Some((Alu::Asr, Source::Unary)),
        Opcode::SWAP => Some((Alu::Swap, Source::Unary)),
        _ => None,
    }
}

/// Whether an operation reads or writes the status register.
pub open spec fn touches_status(kind: Alu) -> bool {
    kind != Alu::Mov && kind != Alu::Swap
}

/// The low byte of an operand.
pub open spec fn low_byte(operand: i64) -> u8 {
    (operand % 256) as u8
}

/// The low 16 bits of an operand.
pub open spec fn low_word(operand: i64) -> u16 {
    (operand % 65536) as u16
}

/// The new value of the register, if it gets one, and the flags of an
/// operation on `a` and `b` under the status `sreg`.
pub open spec fn alu_outcome(kind: Alu, a: u8, b: u8, sreg: u8) -> (Option<u8>, StatusUpdate) {
    let carry = bit8(sreg, 0);
    let zero = bit8(sreg, 1);
    match kind {
        Alu::Add => (Some(((a + b) % 256) as u8), add_status(a, b, false)),
        Alu::Adc => (Some(((a + b + carry_in(carry)) % 256) as u8), add_status(a, b, carry)),
        Alu::Sub => (Some(((a - b) % 256) as u8), sub_status(a, b, false, false, false)),
        Alu::Sbc => (
            Some(((a - b - carry_in(carry)) % 256) as u8),
            sub_status(a, b, carry, true, zero),
        ),
        Alu::Cp => (None, sub_status(a, b, false, false, false)),
        Alu::Cpc => (None, sub_status(a, b, carry, true, zero)),
        Alu::And => (Some(a & b), logic_status(a & b)),
        Alu::Or => (Some(a | b), logic_status(a | b)),
        Alu::Eor => (Some(a ^ b), logic_status(a ^ b)),
        Alu::Mov => (Some(b), StatusUpdate::nothing()),
        Alu::Com => (
            Some((255 - a) as u8),
            StatusUpdate { c: Some(true), ..logic_status((255 - a) as u8) },
        ),
        Alu::Neg => (Some(((256 - a) % 256) as u8), sub_status(0, a, false, false, false)),
        Alu::Inc => (
            Some(((a + 1) % 256) as u8),
            StatusUpdate { h: None, c: None, ..add_status(a, 1, false) },
        ),
        Alu::Dec => (
            Some(((a - 1) % 256) as u8),
            StatusUpdate { h: None, c: None, ..sub_status(a, 1, false, false, false) },
        ),
        Alu::Lsr => (Some((a / 2) as u8), shift_status((a / 2) as u8, a % 2 == 1)),
        Alu::Ror => (
            Some((a / 2 + 128 * carry_in(carry)) as u8),
            shift_status((a / 2 + 128 * carry_in(carry)) as u8, a % 2 == 1),
        ),
        Alu::Asr => (
            Some((a / 2 + (if a >= 128 { 128int } else { 0 })) as u8),
            shift_status((a / 2 + (if a >= 128 { 128int } else { 0 })) as u8, a % 2 == 1),
        ),
        Alu::Swap => (Some(((a % 16) * 16 + a / 16) as u8), StatusUpdate::nothing()),
    }
}

/// The second operand of an operation.
pub open spec fn second_operand(m: Machine, source: Source, op1: i64, op2: i64) -> u8
    recommends
        m.is_register(op1),
        source == Source::Register ==> m.is_register(op2),
{
    match source {
        Source::Register => m.registers[op2 as int],
        Source::Immediate => low_byte(op2),
        Source::Inverted => (255 - low_byte(op2)) as u8,
        Source::Same => m.registers[op1 as int],
        Source::Ones => 0xff,
        Source::Unary => 0,
    }
}

/// An operation on the register that the first operand names.
pub open spec fn alu_step(m: Machine, kind: Alu, source: Source, op1: i64, op2: i64, len: int)
    -> StepResult {
    if !m.is_register(op1) {
        Err(Error::InvalidRegister { index: op1 })
    } else if source == Source::Register && !m.is_register(op2) {
        Err(Error::InvalidRegister { index: op2 })
    } else if touches_status(kind) && m.special_at(CommonRegister::Sreg) is Err {
        Err(m.special_at(CommonRegister::Sreg)->Err_0)
    } else if m.pc + len > u32::MAX {
        Err(Error::InvalidAddress { address: (m.pc + len) as u64 })
    } else {
        let a = m.registers[op1 as int];
        let b = second_operand(m, source, op1, op2);
        let at = m.special_at(CommonRegister::Sreg)->Ok_0 as int;
        let sreg = if touches_status(kind) {
            m.io[at]
        } else {
            0
        };
        let (value, status) = alu_outcome(kind, a, b, sreg);
        let m1 = match value {
            Some(v) => m.with_register(op1 as int, v),
            None => m,
        };
        let m2 = if touches_status(kind) {
            m1.with_io(at, status.applied(sreg))
        } else {
            m1
        };
        Ok((m2.with_pc((m.pc + len) as u32), Outcome::Continue))
    }
}

/// The 16-bit operations on a register pair: `adiw`, and `sbiw` where
/// `subtract`.
pub open spec fn word_step(m: Machine, subtract: bool, op1: i64, op2: i64, len: int)
    -> StepResult {
    if !m.is_pair(op1) {
        Err(Error::InvalidRegister { index: op1 })
    } else if m.special_at(CommonRegister::Sreg) is Err {
        Err(m.special_at(CommonRegister::Sreg)->Err_0)
    } else if m.pc + len > u32::MAX {
        Err(Error::InvalidAddress { address: (m.pc + len) as u64 })
    } else {
        let at = m.special_at(CommonRegister::Sreg)->Ok_0 as int;
        let sreg = m.io[at];
        let word = m.pointer(op1 as int) as u16;
        let k = low_word(op2);
        let value = if subtract {
            (word - k) % 65536
        } else {
            (word + k) % 65536
        };
        let status = if subtract {
            sub_word_status(word, k)
        } else {
            add_word_status(word, k)
        };
        Ok(
            (
                m.with_pointer(op1 as int, value).with_io(at, status.applied(sreg)).with_pc(
                    (m.pc + len) as u32,
                ),
                Outcome::Continue,
            ),
        )
    }
}

/// `movw`: copies a register pair.
pub open spec fn move_word_step(m: Machine, op1: i64, op2: i64, len: int) -> StepResult {
    if !m.is_pair(op1) {
        Err(Error::InvalidRegister { index: op1 })
    } else if !m.is_pair(op2) {
        Err(Error::InvalidRegister { index: op2 })
    } else if m.pc + len > u32::MAX {
        Err(Error::InvalidAddress { address: (m.pc + len) as u64 })
    } else {
        Ok(
            (
                m.with_pointer(op1 as int, m.pointer(op2 as int)).with_pc((m.pc + len) as u32),
                Outcome::Continue,
            ),
        )
    }
}

/// Which factors of a multiplication are signed, and whether the product
/// is shifted.
pub open spec fn mul_form(name: Opcode) -> Option<(bool, bool, bool)> {
    match name {
        Opcode::MUL => Some((false, false, false)),
        Opcode::MULS => Some((true, true, false)),
        Opcode::MULSU => Some((true, false, false)),
        Opcode::FMUL => Some((false, false, true)),
        Opcode::FMULS => Some((true, true, true)),
        Opcode::FMULSU => Some((true, false, true)),
        _ => None,
    }
}

/// The multiplications: the product goes to the registers 1 and 0.
pub open spec fn mul_step(
    m: Machine,
    a_signed: bool,
    b_signed: bool,
    fractional: bool,
    op1: i64,
    op2: i64,
    len: int,
) -> StepResult {
    if !m.is_register(op1) {
        Err(Error::InvalidRegister { index: op1 })
    } else if !m.is_register(op2) {
        Err(Error::InvalidRegister { index: op2 })
    } else if m.registers.len() < 2 {
        Err(Error::InvalidRegister { index: 1 })
    } else if m.special_at(CommonRegister::Sreg) is Err {
        Err(m.special_at(CommonRegister::Sreg)->Err_0)
    } else if m.pc + len > u32::MAX {
        Err(Error::InvalidAddress { address: (m.pc + len) as u64 })
    } else {
        let at = m.special_at(CommonRegister::Sreg)->Ok_0 as int;
        let sreg = m.io[at];
        let product = factor(m.registers[op1 as int], a_signed) * factor(
            m.registers[op2 as int],
            b_signed,
        );
        let value = ((product * (if fractional {
            2int
        } else {
            1
        })) % 65536) as u16;
        let status = product_status(value, product % 65536 >= 32768);
        Ok(
            (
                m.with_pointer(0, value as int).with_io(at, status.applied(sreg)).with_pc(
                    (m.pc + len) as u32,
                ),
                Outcome::Continue,
            ),
        )
    }
}

/// The flag and the value of the instructions that set or clear one fixed
/// flag.
pub open spec fn fixed_flag(name: Opcode) -> Option<(u8, bool)> {
    match name {
        Opcode::SEC => Some((0, true)),
        Opcode::SEZ => Some((1, true)),
        Opcode::SEN => Some((2, true)),
        Opcode::SEV => Some((3, true)),
        Opcode::SES => Some((4, true)),
        Opcode::SEH => Some((5, true)),
        Opcode::SET => Some((6, true)),
        Opcode::SEI => Some((7, true)),
        Opcode::CLC => Some((0, false)),
        Opcode::CLZ => Some((1, false)),
        Opcode::CLN => Some((2, false)),
        Opcode::CLV => Some((3, false)),
        Opcode::CLS => Some((4, false)),
        Opcode::CLH => Some((5, false)),
        Opcode::CLT => Some((6, false)),
        Opcode::CLI => Some((7, false)),
        _ => None,
    }
}

/// Sets or clears one flag of the status register.
pub open spec fn flag_step(m: Machine, flag: i64, value: bool, len: int) -> StepResult {
    if !(0 <= flag < 8) {
        Err(Error::InvalidValue)
    } else if m.special_at(CommonRegister::Sreg) is Err {
        Err(m.special_at(CommonRegister::Sreg)->Err_0)
    } else if m.pc + len > u32::MAX {
        Err(Error::InvalidAddress { address: (m.pc + len) as u64 })
    } else {
        let at = m.special_at(CommonRegister::Sreg)->Ok_0 as int;
        Ok(
            (
                m.with_io(at, with_flag(m.io[at], flag as u8, value)).with_pc((m.pc + len) as u32),
                Outcome::Continue,
            ),
        )
    }
}

/// `bst`: copies a bit of a register to the T flag.
pub open spec fn bit_store_step(m: Machine, op1: i64, op2: i64, len: int) -> StepResult {
    if !m.is_register(op1) {
        Err(Error::InvalidRegister { index: op1 })
    } else if !(0 <= op2 < 8) {
        Err(Error::InvalidValue)
    } else if m.special_at(CommonRegister::Sreg) is Err {
        Err(m.special_at(CommonRegister::Sreg)->Err_0)
    } else if m.pc + len > u32::MAX {
        Err(Error::InvalidAddress { address: (m.pc + len) as u64 })
    } else {
        let at = m.special_at(CommonRegister::Sreg)->Ok_0 as int;
        Ok(
            (
                m.with_io(at, with_flag(m.io[at], 6, bit8(m.registers[op1 as int], op2 as u8)))
                    .with_pc((m.pc + len) as u32),
                Outcome::Continue,
            ),
        )
    }
}

/// `bld`: copies the T flag to a bit of a register.
pub open spec fn bit_load_step(m: Machine, op1: i64, op2: i64, len: int) -> StepResult {
    if !m.is_register(op1) {
        Err(Error::InvalidRegister { index: op1 })
    } else if !(0 <= op2 < 8) {
        Err(Error::InvalidValue)
    } else if m.special_at(CommonRegister::Sreg) is Err {
        Err(m.special_at(CommonRegister::Sreg)->Err_0)
    } else if m.pc + len > u32::MAX {
        Err(Error::InvalidAddress { address: (m.pc + len) as u64 })
    } else {
        let at = m.special_at(CommonRegister::Sreg)->Ok_0 as int;
        Ok(
            (
                m.with_register(
                    op1 as int,
                    with_flag(m.registers[op1 as int], op2 as u8, bit8(m.io[at], 6)),
                ).with_pc((m.pc + len) as u32),
                Outcome::Continue,
            ),
        )
    }
}

/// The flag that a conditional branch tests, and the value at which it
/// branches.
pub open spec fn branch_form(name: Opcode) -> Option<(u8, bool)> {
    match name {
        Opcode::BRCC => Some((0, false)),
        Opcode::BRCS => Some((0, true)),
        Opcode::BRSH => Some((0, false)),
        Opcode::BRLO => Some((0, true)),
        Opcode::BRNE => Some((1, false)),
        Opcode::BREQ => Some((1, true)),
        Opcode::BRPL => Some((2, false)),
        Opcode::BRMI => Some((2, true)),
        Opcode::BRVC => Some((3, false)),
        Opcode::BRVS => Some((3, true)),
        Opcode::BRGE => Some((4, false)),
        Opcode::BRLT => Some((4, true)),
        Opcode::BRHC => Some((5, false)),
        Opcode::BRHS => Some((5, true)),
        Opcode::BRTC => Some((6, false)),
        Opcode::BRTS => Some((6, true)),
        Opcode::BRID => Some((7, false)),
        Opcode::BRIE => Some((7, true)),
        _ => None,
    }
}

/// A conditional branch: to the target where the flag has the value `when`,
/// else to the next instruction.
pub open spec fn branch_step(m: Machine, flag: i64, when: bool, offset: i64, len: int)
    -> StepResult {
    if !(0 <= flag < 8) {
        Err(Error::InvalidValue)
    } else if m.special_at(CommonRegister::Sreg) is Err {
        Err(m.special_at(CommonRegister::Sreg)->Err_0)
    } else if bit8(m.io[m.special_at(CommonRegister::Sreg)->Ok_0 as int], flag as u8) == when {
        jump_step(m, relative_pc(m.pc, offset))
    } else {
        advance(m, len)
    }
}

/// A jump to a target, where there is one.
pub open spec fn jump_step(m: Machine, target: Result<u32, Error>) -> StepResult {
    match target {
        Err(e) => Err(e),
        Ok(pc) => Ok((m.with_pc(pc), Outcome::Continue)),
    }
}

/// The word that the Z pointer names; with `extended`, on a device with a
/// program counter of three bytes, the register EIND gives the upper byte.
pub open spec fn indirect_target(m: Machine, extended: bool) -> Result<u32, Error> {
    if m.registers.len() < 32 {
        Err(Error::InvalidRegister { index: 31 })
    } else if extended && m.ram_size == RamSize::Size24 {
        match m.special_at(CommonRegister::Eind) {
            Err(e) => Err(e),
            Ok(at) => Ok((m.io[at as int] * 65536 + m.pointer(30)) as u32),
        }
    } else {
        Ok(m.pointer(30) as u32)
    }
}

/// The stack pointer: the register SPL, and SPH above it where the device
/// has one.
pub open spec fn stack_top(m: Machine) -> Result<int, Error> {
    match m.special_at(CommonRegister::Spl) {
        Err(e) => Err(e),
        Ok(low) => match m.special.alias(CommonRegister::Sph) {
            None => Ok(m.io[low as int] as int),
            Some(_) => match m.special_at(CommonRegister::Sph) {
                Err(e) => Err(e),
                Ok(high) => Ok(m.io[low as int] + 256 * m.io[high as int]),
            },
        },
    }
}

/// The largest value that the stack pointer holds.
pub open spec fn stack_limit(m: Machine) -> int {
    if m.special.alias(CommonRegister::Sph) is Some {
        65535
    } else {
        255
    }
}

/// The state with the stack pointer set.
pub open spec fn with_stack_top(m: Machine, sp: int) -> Machine
    recommends
        stack_top(m) is Ok,
        0 <= sp <= stack_limit(m),
{
    let low = m.special_at(CommonRegister::Spl)->Ok_0 as int;
    let m1 = m.with_io(low, (sp % 256) as u8);
    if m.special.alias(CommonRegister::Sph) is Some {
        m1.with_io(m.special_at(CommonRegister::Sph)->Ok_0 as int, (sp / 256) as u8)
    } else {
        m1
    }
}

/// The state after the low `count` bytes of `value` were written downward
/// from `sp`, the lowest byte first.
pub open spec fn pushed(m: Machine, sp: int, value: int, count: nat) -> Machine
    decreases count,
{
    if count == 0 {
        m
    } else {
        pushed(m.with_data(sp, (value % 256) as u8), sp - 1, value / 256, (count - 1) as nat)
    }
}

/// Pushes the low `count` bytes of `value`: the stack pointer moves down by
/// `count`. Fails where the stack pointer stands outside the data space or
/// would fall below zero.
pub open spec fn push_step(m: Machine, value: int, count: nat) -> Result<Machine, Error> {
    match stack_top(m) {
        Err(e) => Err(e),
        Ok(sp) => if sp - count < 0 || sp >= m.data_len() {
            Err(Error::InvalidAddress { address: sp as u64 })
        } else {
            Ok(with_stack_top(pushed(m, sp, value, count), sp - count))
        },
    }
}

/// The number that the `count` bytes above `sp` hold, the highest byte at
/// the lowest address.
pub open spec fn popped_value(m: Machine, sp: int, count: nat) -> int
    decreases count,
{
    if count == 0 {
        0
    } else {
        popped_value(m, sp, (count - 1) as nat) * 256 + m.data(sp + count)
    }
}

/// Pops `count` bytes: the stack pointer moves up by `count`. Fails where
/// the stack pointer would leave the data space or exceed what it can hold.
pub open spec fn pop_step(m: Machine, count: nat) -> Result<(Machine, int), Error> {
    match stack_top(m) {
        Err(e) => Err(e),
        Ok(sp) => if sp + count > stack_limit(m) || sp + count >= m.data_len() {
            Err(Error::InvalidAddress { address: (sp + count) as u64 })
        } else {
            Ok((with_stack_top(m, sp + count), popped_value(m, sp, count)))
        },
    }
}

/// A call: the address of the next instruction goes on the stack.
pub open spec fn call_step(m: Machine, target: Result<u32, Error>, len: int) -> StepResult {
    match target {
        Err(e) => Err(e),
        Ok(pc) => if m.pc + len > u32::MAX {
            Err(Error::InvalidAddress { address: (m.pc + len) as u64 })
        } else {
            match push_step(m, m.pc + len, m.ram_size.bytes()) {
                Err(e) => Err(e),
                Ok(m1) => Ok((m1.with_pc(pc), Outcome::Continue)),
            }
        },
    }
}

/// A return: the program counter comes from the stack; `reti` also sets the
/// interrupt flag.
pub open spec fn return_step(m: Machine, interrupt: bool) -> StepResult {
    if interrupt && m.special_at(CommonRegister::Sreg) is Err {
        Err(m.special_at(CommonRegister::Sreg)->Err_0)
    } else {
        match pop_step(m, m.ram_size.bytes()) {
            Err(e) => Err(e),
            Ok((m1, value)) => {
                let at = m.special_at(CommonRegister::Sreg)->Ok_0 as int;
                let m2 = if interrupt {
                    m1.with_io(at, with_flag(m1.io[at], 7, true))
                } else {
                    m1
                };
                Ok((m2.with_pc(value as u32), Outcome::Continue))
            },
        }
    }
}

/// `push`: a register goes on the stack.
pub open spec fn push_register_step(m: Machine, op1: i64, len: int) -> StepResult {
    if !m.is_register(op1) {
        Err(Error::InvalidRegister { index: op1 })
    } else if m.pc + len > u32::MAX {
        Err(Error::InvalidAddress { address: (m.pc + len) as u64 })
    } else {
        match push_step(m, m.registers[op1 as int] as int, 1) {
            Err(e) => Err(e),
            Ok(m1) => Ok((m1.with_pc((m.pc + len) as u32), Outcome::Continue)),
        }
    }
}

/// `pop`: a register comes from the stack.
pub open spec fn pop_register_step(m: Machine, op1: i64, len: int) -> StepResult {
    if !m.is_register(op1) {
        Err(Error::InvalidRegister { index: op1 })
    } else if m.pc + len > u32::MAX {
        Err(Error::InvalidAddress { address: (m.pc + len) as u64 })
    } else {
        match pop_step(m, 1) {
            Err(e) => Err(e),
            Ok((m1, value)) => Ok(
                (
                    m1.with_register(op1 as int, value as u8).with_pc((m.pc + len) as u32),
                    Outcome::Continue,
                ),
            ),
        }
    }
}

/// The length in words of the instruction with identity `id`; a placeholder
/// counts as one word.
pub open spec fn instruction_words(id: int) -> Result<int, Error> {
    if 0 <= id < 124 {
        Ok(OPCODE_LENGTHS[id] as int)
    } else if is_custom_id(id) {
        Ok(1)
    } else {
        Err(Error::UnknownInstruction { id: id as usize })
    }
}

/// A skip: where the condition holds, the next instruction is passed over,
/// be it one word or two.
pub open spec fn skip_step(m: Machine, condition: Result<bool, Error>, len: int) -> StepResult {
    match condition {
        Err(e) => Err(e),
        Ok(false) => advance(m, len),
        Ok(true) => if m.pc + len >= m.flash.len() {
            Err(Error::InvalidAddress { address: (m.pc + len) as u64 })
        } else {
            match instruction_words(m.flash[m.pc + len].opcode_id as int) {
                Err(e) => Err(e),
                Ok(words) => advance(m, len + words),
            }
        },
    }
}

/// Whether two registers are equal.
pub open spec fn registers_equal(m: Machine, op1: i64, op2: i64) -> Result<bool, Error> {
    if !m.is_register(op1) {
        Err(Error::InvalidRegister { index: op1 })
    } else if !m.is_register(op2) {
        Err(Error::InvalidRegister { index: op2 })
    } else {
        Ok(m.registers[op1 as int] == m.registers[op2 as int])
    }
}

/// Whether a bit of a register has the value `set`.
pub open spec fn register_bit_is(m: Machine, op1: i64, op2: i64, set: bool) -> Result<bool, Error> {
    if !m.is_register(op1) {
        Err(Error::InvalidRegister { index: op1 })
    } else if !(0 <= op2 < 8) {
        Err(Error::InvalidValue)
    } else {
        Ok(bit8(m.registers[op1 as int], op2 as u8) == set)
    }
}

/// Whether an operand is an offset of the I/O region.
pub open spec fn io_offset(m: Machine, operand: i64) -> Result<int, Error> {
    if operand < 0 {
        Err(Error::InvalidValue)
    } else if operand >= m.io.len() {
        Err(Error::InvalidAddress { address: operand as u64 })
    } else {
        Ok(operand as int)
    }
}

/// Whether a bit of an I/O register has the value `set`.
pub open spec fn io_bit_is(m: Machine, op1: i64, op2: i64, set: bool) -> Result<bool, Error> {
    match io_offset(m, op1) {
        Err(e) => Err(e),
        Ok(offset) => if !(0 <= op2 < 8) {
            Err(Error::InvalidValue)
        } else {
            Ok(bit8(m.io[offset], op2 as u8) == set)
        },
    }
}

/// `in`: a register gets the value of an I/O register.
pub open spec fn in_step(m: Machine, op1: i64, op2: i64, len: int) -> StepResult {
    if !m.is_register(op1) {
        Err(Error::InvalidRegister { index: op1 })
    } else if io_offset(m, op2) is Err {
        Err(io_offset(m, op2)->Err_0)
    } else if m.pc + len > u32::MAX {
        Err(Error::InvalidAddress { address: (m.pc + len) as u64 })
    } else {
        Ok(
            (
                m.with_register(op1 as int, m.io[op2 as int]).with_pc((m.pc + len) as u32),
                Outcome::Continue,
            ),
        )
    }
}

/// `out`: an I/O register gets the value of a register.
pub open spec fn out_step(m: Machine, op1: i64, op2: i64, len: int) -> StepResult {
    if io_offset(m, op1) is Err {
        Err(io_offset(m, op1)->Err_0)
    } else if !m.is_register(op2) {
        Err(Error::InvalidRegister { index: op2 })
    } else if m.pc + len > u32::MAX {
        Err(Error::InvalidAddress { address: (m.pc + len) as u64 })
    } else {
        Ok(
            (
                m.with_io(op1 as int, m.registers[op2 as int]).with_pc((m.pc + len) as u32),
                Outcome::Continue,
            ),
        )
    }
}

/// `sbi` and `cbi`: sets or clears a bit of an I/O register.
pub open spec fn io_bit_step(m: Machine, op1: i64, op2: i64, set: bool, len: int) -> StepResult {
    if io_offset(m, op1) is Err {
        Err(io_offset(m, op1)->Err_0)
    } else if !(0 <= op2 < 8) {
        Err(Error::InvalidValue)
    } else if m.pc + len > u32::MAX {
        Err(Error::InvalidAddress { address: (m.pc + len) as u64 })
    } else {
        Ok(
            (
                m.with_io(op1 as int, with_flag(m.io[op1 as int], op2 as u8, set)).with_pc(
                    (m.pc + len) as u32,
                ),
                Outcome::Continue,
            ),
        )
    }
}

/// The register pair and the extension register of the pointer that the
/// selector of `ld` and `st` names: 3 is X, 2 is Y, 0 is Z.
pub open spec fn pointer_of_e(selector: i64) -> Option<(int, CommonRegister)> {
    if selector == 3 {
        Some((26, CommonRegister::Rampx))
    } else if selector == 2 {
        Some((28, CommonRegister::Rampy))
    } else if selector == 0 {
        Some((30, CommonRegister::Rampz))
    } else {
        None
    }
}

/// The register pair and the extension register of the pointer that the
/// selector of `ldd` and `std` names: 0 is Z, 1 is Y.
pub open spec fn pointer_of_b(selector: i64) -> Option<(int, CommonRegister)> {
    if selector == 0 {
        Some((30, CommonRegister::Rampz))
    } else if selector == 1 {
        Some((28, CommonRegister::Rampy))
    } else {
        None
    }
}

/// A pointer of 24 bits: a register pair below its extension register.
pub open spec fn wide_pointer(m: Machine, low: int, ramp: CommonRegister) -> int {
    m.extension(ramp) * 65536 + m.pointer(low)
}

/// The state with a pointer of 24 bits set; the upper byte is dropped where
/// the device has no extension register.
pub open spec fn with_wide_pointer(m: Machine, low: int, ramp: CommonRegister, value: int)
    -> Machine {
    m.with_pointer(low, value % 65536).with_extension(ramp, (value / 65536) as u8)
}

/// The address that an indirect access goes to: the pointer, or the pointer
/// less one where it is decremented first (direction 2).
pub open spec fn indirect_address(m: Machine, low: int, ramp: CommonRegister, direction: i64)
    -> int {
    if direction == 2 {
        (wide_pointer(m, low, ramp) - 1) % 16777216
    } else {
        wide_pointer(m, low, ramp)
    }
}

/// The pointer after an indirect access: one more where it is incremented
/// afterwards (direction 1), one less where it was decremented first.
pub open spec fn pointer_after(m: Machine, low: int, ramp: CommonRegister, direction: i64) -> int {
    if direction == 2 {
        (wide_pointer(m, low, ramp) - 1) % 16777216
    } else if direction == 1 {
        (wide_pointer(m, low, ramp) + 1) % 16777216
    } else {
        wide_pointer(m, low, ramp)
    }
}

/// The state after the pointer of an indirect access was moved.
pub open spec fn with_moved_pointer(m: Machine, low: int, ramp: CommonRegister, direction: i64, to: int)
    -> Machine {
    if direction == 0 {
        m
    } else {
        with_wide_pointer(m, low, ramp, to)
    }
}

/// `ld`: a register gets the byte that a pointer names.
pub open spec fn load_indirect_step(
    m: Machine,
    register: i64,
    selector: Option<(int, CommonRegister)>,
    direction: i64,
    len: int,
) -> StepResult {
    if !m.is_register(register) {
        Err(Error::InvalidRegister { index: register })
    } else if selector is None || !(0 <= direction <= 2) {
        Err(Error::InvalidValue)
    } else if m.registers.len() < 32 {
        Err(Error::InvalidRegister { index: 31 })
    } else if m.pc + len > u32::MAX {
        Err(Error::InvalidAddress { address: (m.pc + len) as u64 })
    } else {
        let (low, ramp) = selector.unwrap();
        let address = indirect_address(m, low, ramp, direction);
        if address >= m.data_len() {
            Err(Error::InvalidAddress { address: address as u64 })
        } else {
            Ok(
                (
                    with_moved_pointer(
                        m,
                        low,
                        ramp,
                        direction,
                        pointer_after(m, low, ramp, direction),
                    ).with_register(register as int, m.data(address)).with_pc((m.pc + len) as u32),
                    Outcome::Continue,
                ),
            )
        }
    }
}

/// `st`: the byte that a pointer names gets the value of a register.
pub open spec fn store_indirect_step(
    m: Machine,
    register: i64,
    selector: Option<(int, CommonRegister)>,
    direction: i64,
    len: int,
) -> StepResult {
    if !m.is_register(register) {
        Err(Error::InvalidRegister { index: register })
    } else if selector is None || !(0 <= direction <= 2) {
        Err(Error::InvalidValue)
    } else if m.registers.len() < 32 {
        Err(Error::InvalidRegister { index: 31 })
    } else if m.pc + len > u32::MAX {
        Err(Error::InvalidAddress { address: (m.pc + len) as u64 })
    } else {
        let (low, ramp) = selector.unwrap();
        let address = indirect_address(m, low, ramp, direction);
        if address >= m.data_len() {
            Err(Error::InvalidAddress { address: address as u64 })
        } else {
            Ok(
                (
                    with_moved_pointer(
                        m.with_data(address, m.registers[register as int]),
                        low,
                        ramp,
                        direction,
                        pointer_after(m, low, ramp, direction),
                    ).with_pc((m.pc + len) as u32),
                    Outcome::Continue,
                ),
            )
        }
    }
}

/// The address of an access with displacement: the pointer and the
/// displacement, on 24 bits.
pub open spec fn displaced_address(m: Machine, low: int, ramp: CommonRegister, displacement: i64)
    -> int {
    (wide_pointer(m, low, ramp) + displacement) % 16777216
}

/// `ldd` and `std`: an access at a pointer with displacement; `store` tells
/// the direction.
pub open spec fn displaced_step(
    m: Machine,
    register: i64,
    selector: Option<(int, CommonRegister)>,
    displacement: i64,
    store: bool,
    len: int,
) -> StepResult {
    if !m.is_register(register) {
        Err(Error::InvalidRegister { index: register })
    } else if selector is None || !(0 <= displacement < 64) {
        Err(Error::InvalidValue)
    } else if m.registers.len() < 32 {
        Err(Error::InvalidRegister { index: 31 })
    } else if m.pc + len > u32::MAX {
        Err(Error::InvalidAddress { address: (m.pc + len) as u64 })
    } else {
        let (low, ramp) = selector.unwrap();
        let address = displaced_address(m, low, ramp, displacement);
        if address >= m.data_len() {
            Err(Error::InvalidAddress { address: address as u64 })
        } else if store {
            Ok(
                (
                    m.with_data(address, m.registers[register as int]).with_pc((m.pc + len) as u32),
                    Outcome::Continue,
                ),
            )
        } else {
            Ok(
                (
                    m.with_register(register as int, m.data(address)).with_pc((m.pc + len) as u32),
                    Outcome::Continue,
                ),
            )
        }
    }
}

/// `lds` and `sts`: an access at an address of 16 bits below the register
/// RAMPD; `store` tells the direction.
pub open spec fn direct_step(m: Machine, register: i64, address: i64, store: bool, len: int)
    -> StepResult {
    if !m.is_register(register) {
        Err(Error::InvalidRegister { index: register })
    } else if !(0 <= address < 65536) {
        Err(Error::InvalidValue)
    } else if m.pc + len > u32::MAX {
        Err(Error::InvalidAddress { address: (m.pc + len) as u64 })
    } else {
        let full = m.extension(CommonRegister::Rampd) * 65536 + address;
        if full >= m.data_len() {
            Err(Error::InvalidAddress { address: full as u64 })
        } else if store {
            Ok(
                (
                    m.with_data(full, m.registers[register as int]).with_pc((m.pc + len) as u32),
                    Outcome::Continue,
                ),
            )
        } else {
            Ok(
                (
                    m.with_register(register as int, m.data(full)).with_pc((m.pc + len) as u32),
                    Outcome::Continue,
                ),
            )
        }
    }
}

/// The word of program memory at a word address: an empty cell reads as
/// `0xFFFF`, the second word of a two-word instruction is the lower half of
/// the encoding in the cell before it, and the first word of one is the
/// upper half of its encoding.
pub open spec fn flash_word(m: Machine, word: int) -> Option<u16> {
    if !(0 <= word < m.flash.len()) {
        None
    } else {
        let cell = m.flash[word];
        if cell.opcode_id == EMPTY_ID {
            Some(0xffff)
        } else if cell.opcode_id == REMINDER_ID {
            if word == 0 {
                Some(0xffff)
            } else {
                Some((m.flash[word - 1].raw_opcode % 65536) as u16)
            }
        } else if cell.opcode_id < 124 && OPCODE_LENGTHS[cell.opcode_id as int] == 2 {
            Some((cell.raw_opcode / 65536) as u16)
        } else {
            Some((cell.raw_opcode % 65536) as u16)
        }
    }
}

/// `lpm` and `elpm`: a register gets the byte of program memory that the Z
/// pointer names; with `increment` 1 the pointer moves on.
pub open spec fn program_load_step(
    m: Machine,
    extended: bool,
    register: i64,
    increment: i64,
    len: int,
) -> StepResult {
    if !m.is_register(register) {
        Err(Error::InvalidRegister { index: register })
    } else if !(0 <= increment <= 1) {
        Err(Error::InvalidValue)
    } else if m.registers.len() < 32 {
        Err(Error::InvalidRegister { index: 31 })
    } else if m.pc + len > u32::MAX {
        Err(Error::InvalidAddress { address: (m.pc + len) as u64 })
    } else {
        let z = if extended {
            wide_pointer(m, 30, CommonRegister::Rampz)
        } else {
            m.pointer(30)
        };
        match flash_word(m, z / 2) {
            None => Err(Error::InvalidAddress { address: (z / 2) as u64 }),
            Some(word) => {
                let byte = if z % 2 == 0 {
                    (word % 256) as u8
                } else {
                    (word / 256) as u8
                };
                let m1 = if increment == 0 {
                    m
                } else if extended {
                    with_wide_pointer(m, 30, CommonRegister::Rampz, (z + 1) % 16777216)
                } else {
                    m.with_pointer(30, (z + 1) % 65536)
                };
                Ok(
                    (
                        m1.with_register(register as int, byte).with_pc((m.pc + len) as u32),
                        Outcome::Continue,
                    ),
                )
            },
        }
    }
}

/// What `xch`, `las`, `lac` and `lat` store at the Z pointer, from the
/// register and the byte that stood there.
pub open spec fn exchanged(name: Opcode, register: u8, memory: u8) -> u8 {
    match name {
        Opcode::LAS => register | memory,
        Opcode::LAC => (255 - register) as u8 & memory,
        Opcode::LAT => register ^ memory,
        _ => register,
    }
}

/// `xch`, `las`, `lac` and `lat`: the byte at the Z pointer and a register
/// change places, the byte combined with the register on the way.
pub open spec fn exchange_step(m: Machine, name: Opcode, register: i64, len: int) -> StepResult {
    if !m.is_register(register) {
        Err(Error::InvalidRegister { index: register })
    } else if m.registers.len() < 32 {
        Err(Error::InvalidRegister { index: 31 })
    } else if m.pc + len > u32::MAX {
        Err(Error::InvalidAddress { address: (m.pc + len) as u64 })
    } else if m.pointer(30) >= m.data_len() {
        Err(Error::InvalidAddress { address: m.pointer(30) as u64 })
    } else {
        let z = m.pointer(30);
        let before = m.data(z);
        Ok(
            (
                m.with_data(z, exchanged(name, m.registers[register as int], before)).with_register(
                    register as int,
                    before,
                ).with_pc((m.pc + len) as u32),
                Outcome::Continue,
            ),
        )
    }
}

/// What the instruction `name`, `len` words long, does with the operands
/// `op1`, `op2` and `op3`.
pub open spec fn execute(m: Machine, name: Opcode, len: int, op1: i64, op2: i64, op3: i64)
    -> StepResult {
    if alu_form(name) is Some {
        alu_step(m, alu_form(name).unwrap().0, alu_form(name).unwrap().1, op1, op2, len)
    } else if mul_form(name) is Some {
        mul_step(
            m,
            mul_form(name).unwrap().0,
            mul_form(name).unwrap().1,
            mul_form(name).unwrap().2,
            op1,
            op2,
            len,
        )
    } else if fixed_flag(name) is Some {
        flag_step(m, fixed_flag(name).unwrap().0 as i64, fixed_flag(name).unwrap().1, len)
    } else if branch_form(name) is Some {
        branch_step(m, branch_form(name).unwrap().0 as i64, branch_form(name).unwrap().1, op1, len)
    } else {
        match name {
            Opcode::ADIW => word_step(m, false, op1, op2, len),
            Opcode::SBIW => word_step(m, true, op1, op2, len),
            Opcode::MOVW => move_word_step(m, op1, op2, len),
            Opcode::BSET => flag_step(m, op1, true, len),
            Opcode::BCLR => flag_step(m, op1, false, len),
            Opcode::BST => bit_store_step(m, op1, op2, len),
            Opcode::BLD => bit_load_step(m, op1, op2, len),
            Opcode::BRBS => branch_step(m, op1, true, op2, len),
            Opcode::BRBC => branch_step(m, op1, false, op2, len),
            Opcode::RJMP => jump_step(m, relative_pc(m.pc, op1)),
            Opcode::JMP => jump_step(m, absolute_pc(op1)),
            Opcode::IJMP => jump_step(m, indirect_target(m, false)),
            Opcode::EIJMP => jump_step(m, indirect_target(m, true)),
            Opcode::RCALL => call_step(m, relative_pc(m.pc, op1), len),
            Opcode::CALL => call_step(m, absolute_pc(op1), len),
            Opcode::ICALL => call_step(m, indirect_target(m, false), len),
            Opcode::EICALL => call_step(m, indirect_target(m, true), len),
            Opcode::RET => return_step(m, false),
            Opcode::RETI => return_step(m, true),
            Opcode::PUSH => push_register_step(m, op1, len),
            Opcode::POP => pop_register_step(m, op1, len),
            Opcode::CPSE => skip_step(m, registers_equal(m, op1, op2), len),
            Opcode::SBRC => skip_step(m, register_bit_is(m, op1, op2, false), len),
            Opcode::SBRS => skip_step(m, register_bit_is(m, op1, op2, true), len),
            Opcode::SBIC => skip_step(m, io_bit_is(m, op1, op2, false), len),
            Opcode::SBIS => skip_step(m, io_bit_is(m, op1, op2, true), len),
            Opcode::IN => in_step(m, op1, op2, len),
            Opcode::OUT => out_step(m, op1, op2, len),
            Opcode::SBI => io_bit_step(m, op1, op2, true, len),
            Opcode::CBI => io_bit_step(m, op1, op2, false, len),
            Opcode::LD => load_indirect_step(m, op1, pointer_of_e(op3), op2, len),
            Opcode::ST => store_indirect_step(m, op2, pointer_of_e(op3), op1, len),
            Opcode::LDD => displaced_step(m, op1, pointer_of_b(op3), op2, false, len),
            Opcode::STD => displaced_step(m, op2, pointer_of_b(op3), op1, true, len),
            Opcode::LDS => direct_step(m, op1, op2, false, len),
            Opcode::STS => direct_step(m, op2, op1, true, len),
            Opcode::LPM => program_load_step(m, false, op1, op2, len),
            Opcode::ELPM => program_load_step(m, true, op1, op2, len),
            Opcode::XCH | Opcode::LAS | Opcode::LAC | Opcode::LAT => exchange_step(
                m,
                name,
                op2,
                len,
            ),
            Opcode::NOP | Opcode::SLEEP | Opcode::WDR => advance(m, len),
            Opcode::BREAK => Ok((m, Outcome::Halt)),
            Opcode::CUSTOM_INST(id) => Err(Error::NotExecutable { id: id as usize }),
            _ => Err(Error::UnsupportedInstruction { name }),
        }
    }
}

/// Operand `k` of an instruction, or zero where it has none.
pub open spec fn operand_value(inst: InstructionView, k: int) -> i64 {
    match inst.operands {
        Some(list) => if 0 <= k < list.len() {
            list[k].value
        } else {
            0
        },
        None => 0,
    }
}

/// What one instruction does to the machine: the state after it and how the
/// step ended, or the error that stopped it.
pub open spec fn step(m: Machine, inst: InstructionView) -> StepResult {
    let id = inst.opcode_id as int;
    if 0 <= id < 124 {
        execute(
            m,
            OPCODE_NAMES[id],
            OPCODE_LENGTHS[id] as int,
            operand_value(inst, 0),
            operand_value(inst, 1),
            operand_value(inst, 2),
        )
    } else if is_custom_id(id) {
        Err(Error::NotExecutable { id: inst.opcode_id })
    } else {
        Err(Error::UnknownInstruction { id: inst.opcode_id })
    }
}

} // verus!
