//! The execution engine: one call executes one instruction on the memory
//! model.

pub mod arith;
pub mod flow;
pub mod setup;
pub mod stack;
pub mod transfer;

use vstd::prelude::*;
use crate::error::Error;
use crate::instruction::Instruction;
use crate::machine::{
    execute, io_offset, operand_value, step, wide_pointer, with_wide_pointer, Machine, Outcome,
    RamSize, StepResult,
};
use crate::memory::{flash_views, Memory};
use crate::opcode::{is_custom_id, Opcode, RawInst, OPCODE_LENGTHS};
use crate::register::{CommonRegister, CommonRegisters};
use crate::sim::arith::{alu_form_of, mul_form_of};
use crate::sim::flow::{
    absolute_target_of, branch_form_of, fixed_flag_of, relative_target_of,
};
use crate::sim::transfer::{pointer_b_of, pointer_e_of};

verus! {

/// The simulated machine.
#[derive(Debug)]
pub struct Sim {
    pub memory: Memory,
    pub registers: CommonRegisters,
    pub ram_size: RamSize,
}

impl View for Sim {
    type V = Machine;

    open spec fn view(&self) -> Machine {
        Machine {
            registers: self.memory.data.registers@,
            io: self.memory.data.io.data@,
            ram: self.memory.data.ram@,
            watchlist: self.memory.data.io.watchlist@,
            write_status: self.memory.data.io.write_status,
            flash: flash_views(self.memory.flash@),
            eeprom: self.memory.eeprom@,
            pc: self.memory.program_couter,
            special: self.registers,
            ram_size: self.ram_size,
        }
    }
}

/// What the instruction at the program counter does; an error where the
/// program counter stands behind the flash.
pub open spec fn fetched_step(m: Machine) -> StepResult {
    if m.pc < m.flash.len() {
        step(m, m.flash[m.pc as int])
    } else {
        Err(Error::InvalidAddress { address: m.pc as u64 })
    }
}

/// What is left of a step result when the state is known.
pub open spec fn outcome_of(r: Result<Outcome, Error>, after: Machine) -> StepResult {
    match r {
        Ok(outcome) => Ok((after, outcome)),
        Err(e) => Err(e),
    }
}

/// Operand `k` of an instruction, or zero where it has none.
pub fn operand_of(instruction: &Instruction, k: usize) -> (r: i64)
    ensures
        r == operand_value(instruction@, k as int),
{
    match &instruction.operands {
        Some(list) => if k < list.len() {
            list[k].value
        } else {
            0
        },
        None => 0,
    }
}

impl Sim {
    /// The index of the register that an operand names.
    pub fn register_index(&self, operand: i64) -> (r: Result<usize, Error>)
        ensures
            match r {
                Ok(index) => self@.is_register(operand) && index == operand,
                Err(e) => !self@.is_register(operand) && e == (Error::InvalidRegister {
                    index: operand,
                }),
            },
    {
        if operand >= 0 && (operand as u64) < self.memory.data.registers.len() as u64 {
            Ok(operand as usize)
        } else {
            Err(Error::InvalidRegister { index: operand })
        }
    }

    /// Where a special register stands in the I/O region.
    pub fn special_offset(&self, which: CommonRegister) -> (r: Result<usize, Error>)
        ensures
            r == self@.special_at(which),
    {
        match self.registers.offset_of(which) {
            None => Err(Error::MissingRegister { register: which }),
            Some(offset) => if offset < self.memory.data.io.data.len() {
                Ok(offset)
            } else {
                Err(Error::InvalidAddress { address: offset as u64 })
            },
        }
    }

    /// Writes a register.
    pub(crate) fn write_register(&mut self, index: usize, value: u8)
        requires
            index < old(self)@.registers.len(),
        ensures
            final(self)@ == old(self)@.with_register(index as int, value),
    {
        self.memory.data.registers.set(index, value);
    }

    /// Writes a byte of the I/O region.
    pub(crate) fn write_io(&mut self, offset: usize, value: u8)
        requires
            offset < old(self)@.io.len(),
        ensures
            final(self)@ == old(self)@.with_io(offset as int, value),
    {
        let _ = self.memory.data.io.write(offset, value);
    }

    /// Moves the program counter.
    pub fn set_pc(&mut self, pc: u32)
        ensures
            final(self)@ == old(self)@.with_pc(pc),
    {
        self.memory.program_couter = pc;
    }

    /// The program counter behind an instruction of `len` words.
    pub fn next_pc(&self, len: u8) -> (r: Result<u32, Error>)
        ensures
            match r {
                Ok(pc) => pc == self@.pc + len,
                Err(e) => self@.pc + len > u32::MAX && e == (Error::InvalidAddress {
                    address: (self@.pc + len) as u64,
                }),
            },
    {
        let next = self.memory.program_couter as u64 + len as u64;
        if next > u32::MAX as u64 {
            Err(Error::InvalidAddress { address: next })
        } else {
            Ok(next as u32)
        }
    }

    /// Whether an address lies in the data space.
    pub fn in_data_space(&self, address: u64) -> (r: bool)
        ensures
            r == (address < self@.data_len()),
    {
        let len: u128 = self.memory.data.registers.len() as u128
            + self.memory.data.io.data.len() as u128 + self.memory.data.ram.len() as u128;
        (address as u128) < len
    }

    /// Reads a byte of the data space.
    pub(crate) fn read_data(&self, address: usize) -> (r: u8)
        requires
            address < self@.data_len(),
        ensures
            r == self@.data(address as int),
    {
        let registers = self.memory.data.registers.len();
        let io = self.memory.data.io.data.len();
        if address < registers {
            self.memory.data.registers[address]
        } else if address - registers < io {
            self.memory.data.io.data[address - registers]
        } else {
            self.memory.data.ram[address - registers - io]
        }
    }

    /// Writes a byte of the data space.
    pub(crate) fn write_data(&mut self, address: usize, value: u8)
        requires
            address < old(self)@.data_len(),
        ensures
            final(self)@ == old(self)@.with_data(address as int, value),
    {
        let registers = self.memory.data.registers.len();
        let io = self.memory.data.io.data.len();
        if address < registers {
            self.write_register(address, value);
        } else if address - registers < io {
            self.write_io(address - registers, value);
        } else {
            self.memory.data.ram.set(address - registers - io, value);
        }
    }

    /// Reads a register pair.
    pub(crate) fn pointer_value(&self, low: usize) -> (r: u32)
        requires
            low + 1 < self@.registers.len(),
        ensures
            r == self@.pointer(low as int),
            r < 65536,
    {
        let count = self.memory.data.registers.len();
        let high = self.memory.data.registers[low + 1] as u32;
        self.memory.data.registers[low] as u32 + 256 * high
    }

    /// Writes a register pair.
    pub(crate) fn write_pointer(&mut self, low: usize, value: u32)
        requires
            low + 1 < old(self)@.registers.len(),
            value < 65536,
        ensures
            final(self)@ == old(self)@.with_pointer(low as int, value as int),
    {
        let count = self.memory.data.registers.len();
        self.write_register(low, (value % 256) as u8);
        self.write_register(low + 1, (value / 256) as u8);
    }

    /// Reads a special register that may be missing.
    pub fn extension_value(&self, which: CommonRegister) -> (r: u8)
        ensures
            r == self@.extension(which),
    {
        match self.special_offset(which) {
            Ok(at) => self.memory.data.io.data[at],
            Err(_) => 0,
        }
    }

    /// Writes a special register that may be missing.
    pub fn write_extension(&mut self, which: CommonRegister, value: u8)
        ensures
            final(self)@ == old(self)@.with_extension(which, value),
    {
        match self.special_offset(which) {
            Ok(at) => {
                self.write_io(at, value);
            },
            Err(_) => {},
        }
    }

    /// Reads a pointer of 24 bits.
    pub(crate) fn wide_pointer_value(&self, low: usize, ramp: CommonRegister) -> (r: u32)
        requires
            low + 1 < self@.registers.len(),
        ensures
            r == wide_pointer(self@, low as int, ramp),
            r < 16777216,
    {
        self.extension_value(ramp) as u32 * 65536 + self.pointer_value(low)
    }

    /// Writes a pointer of 24 bits.
    pub(crate) fn write_wide_pointer(&mut self, low: usize, ramp: CommonRegister, value: u32)
        requires
            low + 1 < old(self)@.registers.len(),
            value < 16777216,
        ensures
            final(self)@ == with_wide_pointer(old(self)@, low as int, ramp, value as int),
    {
        self.write_pointer(low, value % 65536);
        self.write_extension(ramp, (value / 65536) as u8);
    }

    /// The offset of the I/O region that an operand names.
    pub fn io_offset_of(&self, operand: i64) -> (r: Result<usize, Error>)
        ensures
            match r {
                Ok(offset) => io_offset(self@, operand) == Ok::<int, Error>(offset as int)
                    && offset < self@.io.len(),
                Err(e) => io_offset(self@, operand) == Err::<int, Error>(e),
            },
    {
        if operand < 0 {
            Err(Error::InvalidValue)
        } else if operand as u64 >= self.memory.data.io.data.len() as u64 {
            Err(Error::InvalidAddress { address: operand as u64 })
        } else {
            Ok(operand as usize)
        }
    }

    /// Executes the instruction `name`, `len` words long, with the operands
    /// `op1`, `op2` and `op3`. An error leaves the machine as it was.
    pub fn execute(&mut self, name: Opcode, len: u8, op1: i64, op2: i64, op3: i64) -> (r: Result<
        Outcome,
        Error,
    >)
        ensures
            outcome_of(r, final(self)@) == execute(old(self)@, name, len as int, op1, op2, op3),
            r is Err ==> final(self)@ == old(self)@,
    {
        if let Some((kind, source)) = alu_form_of(name) {
            return self.execute_alu(kind, source, op1, op2, len);
        }
        if let Some((a_signed, b_signed, fractional)) = mul_form_of(name) {
            return self.execute_mul(a_signed, b_signed, fractional, op1, op2, len);
        }
        if let Some((flag, value)) = fixed_flag_of(name) {
            return self.execute_flag(flag as i64, value, len);
        }
        if let Some((flag, when)) = branch_form_of(name) {
            return self.execute_branch(flag as i64, when, op1, len);
        }
        let pc = self.memory.program_couter;
        match name {
            Opcode::ADIW => self.execute_word(false, op1, op2, len),
            Opcode::SBIW => self.execute_word(true, op1, op2, len),
            Opcode::MOVW => self.execute_move_word(op1, op2, len),
            Opcode::BSET => self.execute_flag(op1, true, len),
            Opcode::BCLR => self.execute_flag(op1, false, len),
            Opcode::BST => self.execute_bit_store(op1, op2, len),
            Opcode::BLD => self.execute_bit_load(op1, op2, len),
            Opcode::BRBS => self.execute_branch(op1, true, op2, len),
            Opcode::BRBC => self.execute_branch(op1, false, op2, len),
            Opcode::RJMP => self.execute_jump(relative_target_of(pc, op1)),
            Opcode::JMP => self.execute_jump(absolute_target_of(op1)),
            Opcode::IJMP => {
                let target = self.indirect_target_of(false);
                self.execute_jump(target)
            },
            Opcode::EIJMP => {
                let target = self.indirect_target_of(true);
                self.execute_jump(target)
            },
            Opcode::RCALL => self.execute_call(relative_target_of(pc, op1), len),
            Opcode::CALL => self.execute_call(absolute_target_of(op1), len),
            Opcode::ICALL => {
                let target = self.indirect_target_of(false);
                self.execute_call(target, len)
            },
            Opcode::EICALL => {
                let target = self.indirect_target_of(true);
                self.execute_call(target, len)
            },
            Opcode::RET => self.execute_return(false),
            Opcode::RETI => self.execute_return(true),
            Opcode::PUSH => self.execute_push(op1, len),
            Opcode::POP => self.execute_pop(op1, len),
            Opcode::CPSE => {
                let condition = self.registers_equal_of(op1, op2);
                self.execute_skip(condition, len)
            },
            Opcode::SBRC => {
                let condition = self.register_bit_of(op1, op2, false);
                self.execute_skip(condition, len)
            },
            Opcode::SBRS => {
                let condition = self.register_bit_of(op1, op2, true);
                self.execute_skip(condition, len)
            },
            Opcode::SBIC => {
                let condition = self.io_bit_of(op1, op2, false);
                self.execute_skip(condition, len)
            },
            Opcode::SBIS => {
                let condition = self.io_bit_of(op1, op2, true);
                self.execute_skip(condition, len)
            },
            Opcode::IN => self.execute_in(op1, op2, len),
            Opcode::OUT => self.execute_out(op1, op2, len),
            Opcode::SBI => self.execute_io_bit(op1, op2, true, len),
            Opcode::CBI => self.execute_io_bit(op1, op2, false, len),
            Opcode::LD => self.execute_load_indirect(op1, pointer_e_of(op3), op2, len),
            Opcode::ST => self.execute_store_indirect(op2, pointer_e_of(op3), op1, len),
            Opcode::LDD => self.execute_displaced(op1, pointer_b_of(op3), op2, false, len),
            Opcode::STD => self.execute_displaced(op2, pointer_b_of(op3), op1, true, len),
            Opcode::LDS => self.execute_direct(op1, op2, false, len),
            Opcode::STS => self.execute_direct(op2, op1, true, len),
            Opcode::LPM => self.execute_program_load(false, op1, op2, len),
            Opcode::ELPM => self.execute_program_load(true, op1, op2, len),
            Opcode::XCH | Opcode::LAS | Opcode::LAC | Opcode::LAT => self.execute_exchange(
                name,
                op2,
                len,
            ),
            Opcode::NOP | Opcode::SLEEP | Opcode::WDR => self.execute_advance(len as u16),
            Opcode::BREAK => Ok(Outcome::Halt),
            Opcode::CUSTOM_INST(id) => Err(Error::NotExecutable { id: id as usize }),
            _ => Err(Error::UnsupportedInstruction { name }),
        }
    }

    /// Executes the instruction with identity `id` and the given operands.
    pub fn execute_parts(&mut self, id: usize, op1: i64, op2: i64, op3: i64) -> (r: Result<
        Outcome,
        Error,
    >)
        ensures
            outcome_of(r, final(self)@) == (if id < 124 {
                execute(
                    old(self)@,
                    crate::opcode::OPCODE_NAMES[id as int],
                    OPCODE_LENGTHS[id as int] as int,
                    op1,
                    op2,
                    op3,
                )
            } else if is_custom_id(id as int) {
                Err(Error::NotExecutable { id })
            } else {
                Err(Error::UnknownInstruction { id })
            }),
            r is Err ==> final(self)@ == old(self)@,
    {
        let raw = RawInst::get_inst_from_id(id)?;
        if id >= 124 {
            return Err(Error::NotExecutable { id });
        }
        self.execute(raw.name, raw.len, op1, op2, op3)
    }

    /// Executes one instruction: computes what it does, changes the memory
    /// and the special registers, and moves the program counter behind the
    /// instruction unless the instruction itself set it. `break` changes
    /// nothing and asks to halt. An error leaves the machine as it was.
    pub fn execute_inst(&mut self, instruction: &Instruction) -> (r: Result<Outcome, Error>)
        ensures
            outcome_of(r, final(self)@) == step(old(self)@, instruction@),
            r is Err ==> final(self)@ == old(self)@,
    {
        let op1 = operand_of(instruction, 0);
        let op2 = operand_of(instruction, 1);
        let op3 = operand_of(instruction, 2);
        self.execute_parts(instruction.opcode_id, op1, op2, op3)
    }

    /// Fetches the instruction at the program counter and executes it. Fails
    /// where the program counter stands behind the flash.
    pub fn exec_debug(&mut self) -> (r: Result<Outcome, Error>)
        ensures
            outcome_of(r, final(self)@) == fetched_step(old(self)@),
            r is Err ==> final(self)@ == old(self)@,
    {
        let pc = self.memory.program_couter;
        if pc as u64 >= self.memory.flash.len() as u64 {
            return Err(Error::InvalidAddress { address: pc as u64 });
        }
        let instruction = &self.memory.flash[pc as usize];
        let id = instruction.opcode_id;
        let op1 = operand_of(instruction, 0);
        let op2 = operand_of(instruction, 1);
        let op3 = operand_of(instruction, 2);
        self.execute_parts(id, op1, op2, op3)
    }
}

} // verus!
