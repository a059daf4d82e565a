//! Flags, branches, jumps and skips.

use vstd::prelude::*;
use crate::alu;
use crate::alu::set_flag_bit;
use crate::bits::{bit8, get_bit};
use crate::error::Error;
use crate::machine::{
    absolute_pc, advance, bit_load_step, bit_store_step, branch_form, branch_step, fixed_flag,
    flag_step, indirect_target, instruction_words, io_bit_is, jump_step, register_bit_is,
    registers_equal, relative_pc, skip_step, Outcome, RamSize,
};
use crate::opcode::{Opcode, RawInst};
use crate::register::{CommonRegister, Flags};
use crate::sim::{outcome_of, Sim};

verus! {

/// The flag and the value of an instruction that sets or clears one fixed
/// flag.
pub fn fixed_flag_of(name: Opcode) -> (r: Option<(u8, bool)>)
    ensures
        r == fixed_flag(name),
{
    match name {
        Opcode::SEC => Some((0, true)),
        Opcode::SEZ => Some((1, true)),
        Opcode::SEN => Some((2, true)),
        Opcode::SEV => Some((3, true)),
        Opcode::SES => Some((4, true)),
        Opcode::SEH => Some((5, true)),
        Opcode::SET => Some((6, true)),
        Opcode::SEI => Some((7, true)),
        Opcode::CLC => Some((0, false)),
        Opcode::CLZ => Some((1, false)),
        Opcode::CLN => Some((2, false)),
        Opcode::CLV => Some((3, false)),
        Opcode::CLS => Some((4, false)),
        Opcode::CLH => Some((5, false)),
        Opcode::CLT => Some((6, false)),
        Opcode::CLI => Some((7, false)),
        _ => None,
    }
}

/// The flag that a conditional branch tests, and the value at which it
/// branches.
pub fn branch_form_of(name: Opcode) -> (r: Option<(u8, bool)>)
    ensures
        r == branch_form(name),
{
    match name {
        Opcode::BRCC => Some((0, false)),
        Opcode::BRCS => Some((0, true)),
        Opcode::BRSH => Some((0, false)),
        Opcode::BRLO => Some((0, true)),
        Opcode::BRNE => Some((1, false)),
        Opcode::BREQ => Some((1, true)),
        Opcode::BRPL => Some((2, false)),
        Opcode::BRMI => Some((2, true)),
        Opcode::BRVC => Some((3, false)),
        Opcode::BRVS => Some((3, true)),
        Opcode::BRGE => Some((4, false)),
        Opcode::BRLT => Some((4, true)),
        Opcode::BRHC => Some((5, false)),
        Opcode::BRHS => Some((5, true)),
        Opcode::BRTC => Some((6, false)),
        Opcode::BRTS => Some((6, true)),
        Opcode::BRID => Some((7, false)),
        Opcode::BRIE => Some((7, true)),
        _ => None,
    }
}

/// The word that a relative jump from `pc` goes to.
pub fn relative_target_of(pc: u32, offset: i64) -> (r: Result<u32, Error>)
    ensures
        r == relative_pc(pc, offset),
{
    if offset % 2 != 0 || offset < -0x2_0000_0000 || offset > 0x2_0000_0000 {
        return Err(Error::InvalidTarget { target: offset });
    }
    let target: i64 = 2 * (pc as i64) + 2 + offset;
    if target < 0 || target / 2 > u32::MAX as i64 {
        Err(Error::InvalidTarget { target: offset })
    } else {
        Ok((target / 2) as u32)
    }
}

/// The word that an absolute jump goes to.
pub fn absolute_target_of(address: i64) -> (r: Result<u32, Error>)
    ensures
        r == absolute_pc(address),
{
    if address < 0 || address % 2 != 0 || address / 2 > u32::MAX as i64 {
        Err(Error::InvalidTarget { target: address })
    } else {
        Ok((address / 2) as u32)
    }
}

impl Sim {
    /// Reads one flag of the status register. Fails where the device has no
    /// status register.
    pub fn get_flag(&self, flag: Flags) -> (r: Result<bool, Error>)
        ensures
            match r {
                Ok(value) => self@.special_at(CommonRegister::Sreg) is Ok && value == bit8(
                    self@.io[self@.special_at(CommonRegister::Sreg)->Ok_0 as int],
                    flag.spec_bit(),
                ),
                Err(e) => self@.special_at(CommonRegister::Sreg) == Err::<usize, Error>(e),
            },
    {
        let at = self.special_offset(CommonRegister::Sreg)?;
        Ok(get_bit(self.memory.data.io.data[at], flag.bit()))
    }

    /// Sets or clears one flag of the status register. Fails, and changes
    /// nothing, where the device has no status register.
    pub fn set_flag(&mut self, flag: Flags, value: bool) -> (r: Result<(), Error>)
        ensures
            match r {
                Ok(()) => old(self)@.special_at(CommonRegister::Sreg) is Ok && final(self)@ == old(
                    self,
                )@.with_io(
                    old(self)@.special_at(CommonRegister::Sreg)->Ok_0 as int,
                    crate::alu::with_flag(
                        old(self)@.io[old(self)@.special_at(CommonRegister::Sreg)->Ok_0 as int],
                        flag.spec_bit(),
                        value,
                    ),
                ),
                Err(e) => old(self)@.special_at(CommonRegister::Sreg) == Err::<usize, Error>(e)
                    && final(self)@ == old(self)@,
            },
    {
        let at = self.special_offset(CommonRegister::Sreg)?;
        let sreg = self.memory.data.io.data[at];
        self.write_io(at, set_flag_bit(sreg, flag.bit(), value));
        Ok(())
    }

    /// Sets or clears one flag of the status register.
    pub fn execute_flag(&mut self, flag: i64, value: bool, len: u8) -> (r: Result<Outcome, Error>)
        ensures
            outcome_of(r, final(self)@) == flag_step(old(self)@, flag, value, len as int),
            r is Err ==> final(self)@ == old(self)@,
    {
        if flag < 0 || flag >= 8 {
            return Err(Error::InvalidValue);
        }
        let at = self.special_offset(CommonRegister::Sreg)?;
        let next = self.next_pc(len)?;
        let sreg = self.memory.data.io.data[at];
        self.write_io(at, set_flag_bit(sreg, flag as u8, value));
        self.set_pc(next);
        Ok(Outcome::Continue)
    }

    /// `bst`.
    pub fn execute_bit_store(&mut self, op1: i64, op2: i64, len: u8) -> (r: Result<Outcome, Error>)
        ensures
            outcome_of(r, final(self)@) == bit_store_step(old(self)@, op1, op2, len as int),
            r is Err ==> final(self)@ == old(self)@,
    {
        let d = self.register_index(op1)?;
        if op2 < 0 || op2 >= 8 {
            return Err(Error::InvalidValue);
        }
        let at = self.special_offset(CommonRegister::Sreg)?;
        let next = self.next_pc(len)?;
        let sreg = self.memory.data.io.data[at];
        let bit = get_bit(self.memory.data.registers[d], op2 as u8);
        self.write_io(at, set_flag_bit(sreg, 6, bit));
        self.set_pc(next);
        Ok(Outcome::Continue)
    }

    /// `bld`.
    pub fn execute_bit_load(&mut self, op1: i64, op2: i64, len: u8) -> (r: Result<Outcome, Error>)
        ensures
            outcome_of(r, final(self)@) == bit_load_step(old(self)@, op1, op2, len as int),
            r is Err ==> final(self)@ == old(self)@,
    {
        let d = self.register_index(op1)?;
        if op2 < 0 || op2 >= 8 {
            return Err(Error::InvalidValue);
        }
        let at = self.special_offset(CommonRegister::Sreg)?;
        let next = self.next_pc(len)?;
        let t = get_bit(self.memory.data.io.data[at], 6);
        let value = set_flag_bit(self.memory.data.registers[d], op2 as u8, t);
        self.write_register(d, value);
        self.set_pc(next);
        Ok(Outcome::Continue)
    }

    /// A jump to a target, where there is one.
    pub fn execute_jump(&mut self, target: Result<u32, Error>) -> (r: Result<Outcome, Error>)
        ensures
            outcome_of(r, final(self)@) == jump_step(old(self)@, target),
            r is Err ==> final(self)@ == old(self)@,
    {
        let pc = target?;
        self.set_pc(pc);
        Ok(Outcome::Continue)
    }

    /// The program counter moved behind an instruction of `len` words.
    pub fn execute_advance(&mut self, len: u16) -> (r: Result<Outcome, Error>)
        ensures
            outcome_of(r, final(self)@) == advance(old(self)@, len as int),
            r is Err ==> final(self)@ == old(self)@,
    {
        let next = self.memory.program_couter as u64 + len as u64;
        if next > u32::MAX as u64 {
            return Err(Error::InvalidAddress { address: next });
        }
        self.set_pc(next as u32);
        Ok(Outcome::Continue)
    }

    /// A conditional branch.
    pub fn execute_branch(&mut self, flag: i64, when: bool, offset: i64, len: u8) -> (r: Result<
        Outcome,
        Error,
    >)
        ensures
            outcome_of(r, final(self)@) == branch_step(old(self)@, flag, when, offset, len as int),
            r is Err ==> final(self)@ == old(self)@,
    {
        if flag < 0 || flag >= 8 {
            return Err(Error::InvalidValue);
        }
        let at = self.special_offset(CommonRegister::Sreg)?;
        let sreg = self.memory.data.io.data[at];
        if get_bit(sreg, flag as u8) == when {
            self.execute_jump(relative_target_of(self.memory.program_couter, offset))
        } else {
            self.execute_advance(len as u16)
        }
    }

    /// The word that the Z pointer names.
    pub fn indirect_target_of(&self, extended: bool) -> (r: Result<u32, Error>)
        ensures
            r == indirect_target(self@, extended),
    {
        if self.memory.data.registers.len() < 32 {
            return Err(Error::InvalidRegister { index: 31 });
        }
        let z = self.pointer_value(30);
        let wide = match self.ram_size {
            RamSize::Size24 => extended,
            RamSize::Size16 => false,
        };
        if wide {
            let at = self.special_offset(CommonRegister::Eind)?;
            Ok(self.memory.data.io.data[at] as u32 * 65536 + z)
        } else {
            Ok(z)
        }
    }

    /// The length in words of the instruction in the flash cell `word`.
    pub(crate) fn words_at(&self, word: usize) -> (r: Result<u8, Error>)
        requires
            word < self@.flash.len(),
        ensures
            match r {
                Ok(n) => instruction_words(self@.flash[word as int].opcode_id as int) == Ok::<
                    int,
                    Error,
                >(n as int) && 1 <= n <= 2,
                Err(e) => instruction_words(self@.flash[word as int].opcode_id as int) == Err::<
                    int,
                    Error,
                >(e),
            },
    {
        let id = self.memory.flash[word].opcode_id;
        let raw = RawInst::get_inst_from_id(id)?;
        if id < 124 {
            proof {
                crate::opcode::lemma_operand_counts(id as int);
            }
            Ok(raw.len)
        } else {
            Ok(1)
        }
    }

    /// A skip.
    pub fn execute_skip(&mut self, condition: Result<bool, Error>, len: u8) -> (r: Result<
        Outcome,
        Error,
    >)
        ensures
            outcome_of(r, final(self)@) == skip_step(old(self)@, condition, len as int),
            r is Err ==> final(self)@ == old(self)@,
    {
        let taken = condition?;
        if !taken {
            return self.execute_advance(len as u16);
        }
        let next = self.memory.program_couter as u64 + len as u64;
        if next >= self.memory.flash.len() as u64 {
            return Err(Error::InvalidAddress { address: next });
        }
        let words = self.words_at(next as usize)?;
        self.execute_advance(len as u16 + words as u16)
    }

    /// Whether two registers are equal.
    pub fn registers_equal_of(&self, op1: i64, op2: i64) -> (r: Result<bool, Error>)
        ensures
            r == registers_equal(self@, op1, op2),
    {
        let d = self.register_index(op1)?;
        let s = self.register_index(op2)?;
        Ok(self.memory.data.registers[d] == self.memory.data.registers[s])
    }

    /// Whether a bit of a register has the value `set`.
    pub fn register_bit_of(&self, op1: i64, op2: i64, set: bool) -> (r: Result<bool, Error>)
        ensures
            r == register_bit_is(self@, op1, op2, set),
    {
        let d = self.register_index(op1)?;
        if op2 < 0 || op2 >= 8 {
            return Err(Error::InvalidValue);
        }
        Ok(get_bit(self.memory.data.registers[d], op2 as u8) == set)
    }

    /// Whether a bit of an I/O register has the value `set`.
    pub fn io_bit_of(&self, op1: i64, op2: i64, set: bool) -> (r: Result<bool, Error>)
        ensures
            r == io_bit_is(self@, op1, op2, set),
    {
        let offset = self.io_offset_of(op1)?;
        if op2 < 0 || op2 >= 8 {
            return Err(Error::InvalidValue);
        }
        Ok(get_bit(self.memory.data.io.data[offset], op2 as u8) == set)
    }
}

} // verus!
