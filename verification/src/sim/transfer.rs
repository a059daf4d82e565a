//! Data transfer: I/O, loads and stores.

use vstd::prelude::*;
use crate::alu::set_flag_bit;
use crate::error::Error;
use crate::machine::{
    direct_step, displaced_step, exchange_step, exchanged, flash_word, in_step, indirect_address,
    io_bit_step, load_indirect_step, out_step, pointer_after, pointer_of_b, pointer_of_e,
    program_load_step, store_indirect_step, with_moved_pointer, Outcome,
};
use crate::opcode::{Opcode, EMPTY_ID, OPCODE_LENGTHS, REMINDER_ID};
use crate::register::CommonRegister;
use crate::sim::{outcome_of, Sim};

verus! {

/// The pointer that the selector of `ld` and `st` names.
pub fn pointer_e_of(selector: i64) -> (r: Option<(usize, CommonRegister)>)
    ensures
        match r {
            Some((low, ramp)) => pointer_of_e(selector) == Some((low as int, ramp)) && low <= 30,
            None => pointer_of_e(selector) is None,
        },
{
    if selector == 3 {
        Some((26, CommonRegister::Rampx))
    } else if selector == 2 {
        Some((28, CommonRegister::Rampy))
    } else if selector == 0 {
        Some((30, CommonRegister::Rampz))
    } else {
        None
    }
}

/// The pointer that the selector of `ldd` and `std` names.
pub fn pointer_b_of(selector: i64) -> (r: Option<(usize, CommonRegister)>)
    ensures
        match r {
            Some((low, ramp)) => pointer_of_b(selector) == Some((low as int, ramp)) && low <= 30,
            None => pointer_of_b(selector) is None,
        },
{
    if selector == 0 {
        Some((30, CommonRegister::Rampz))
    } else if selector == 1 {
        Some((28, CommonRegister::Rampy))
    } else {
        None
    }
}

/// What `xch`, `las`, `lac` and `lat` store.
pub fn exchanged_of(name: Opcode, register: u8, memory: u8) -> (r: u8)
    ensures
        r == exchanged(name, register, memory),
{
    match name {
        Opcode::LAS => register | memory,
        Opcode::LAC => (255 - register) & memory,
        Opcode::LAT => register ^ memory,
        _ => register,
    }
}

/// The selector of a pointer as the state functions take it.
pub open spec fn spec_selector(selector: Option<(usize, CommonRegister)>) -> Option<
    (int, CommonRegister),
> {
    match selector {
        Some((low, ramp)) => Some((low as int, ramp)),
        None => None,
    }
}

impl Sim {
    /// `in`.
    pub fn execute_in(&mut self, op1: i64, op2: i64, len: u8) -> (r: Result<Outcome, Error>)
        ensures
            outcome_of(r, final(self)@) == in_step(old(self)@, op1, op2, len as int),
            r is Err ==> final(self)@ == old(self)@,
    {
        let d = self.register_index(op1)?;
        let offset = self.io_offset_of(op2)?;
        let next = self.next_pc(len)?;
        let value = self.memory.data.io.data[offset];
        self.write_register(d, value);
        self.set_pc(next);
        Ok(Outcome::Continue)
    }

    /// `out`.
    pub fn execute_out(&mut self, op1: i64, op2: i64, len: u8) -> (r: Result<Outcome, Error>)
        ensures
            outcome_of(r, final(self)@) == out_step(old(self)@, op1, op2, len as int),
            r is Err ==> final(self)@ == old(self)@,
    {
        let offset = self.io_offset_of(op1)?;
        let s = self.register_index(op2)?;
        let next = self.next_pc(len)?;
        let value = self.memory.data.registers[s];
        self.write_io(offset, value);
        self.set_pc(next);
        Ok(Outcome::Continue)
    }

    /// `sbi` and `cbi`.
    pub fn execute_io_bit(&mut self, op1: i64, op2: i64, set: bool, len: u8) -> (r: Result<
        Outcome,
        Error,
    >)
        ensures
            outcome_of(r, final(self)@) == io_bit_step(old(self)@, op1, op2, set, len as int),
            r is Err ==> final(self)@ == old(self)@,
    {
        let offset = self.io_offset_of(op1)?;
        if op2 < 0 || op2 >= 8 {
            return Err(Error::InvalidValue);
        }
        let next = self.next_pc(len)?;
        let value = set_flag_bit(self.memory.data.io.data[offset], op2 as u8, set);
        self.write_io(offset, value);
        self.set_pc(next);
        Ok(Outcome::Continue)
    }

    /// The address of an indirect access and the pointer after it.
    pub(crate) fn indirect_addresses(&self, low: usize, ramp: CommonRegister, direction: i64) -> (r: (
        u32,
        u32,
    ))
        requires
            low + 1 < self@.registers.len(),
            0 <= direction <= 2,
        ensures
            r.0 == indirect_address(self@, low as int, ramp, direction),
            r.1 == pointer_after(self@, low as int, ramp, direction),
            r.1 < 16777216,
    {
        let before = self.wide_pointer_value(low, ramp);
        if direction == 2 {
            let less = if before == 0 {
                16777215
            } else {
                before - 1
            };
            (less, less)
        } else if direction == 1 {
            let more = if before == 16777215 {
                0
            } else {
                before + 1
            };
            (before, more)
        } else {
            (before, before)
        }
    }

    /// Moves the pointer of an indirect access, unless the access leaves it
    /// where it is.
    pub(crate) fn move_pointer(&mut self, low: usize, ramp: CommonRegister, direction: i64, to: u32)
        requires
            low + 1 < old(self)@.registers.len(),
            to < 16777216,
        ensures
            final(self)@ == with_moved_pointer(old(self)@, low as int, ramp, direction, to as int),
    {
        if direction != 0 {
            self.write_wide_pointer(low, ramp, to);
        }
    }

    /// `ld`.
    pub(crate) fn execute_load_indirect(
        &mut self,
        register: i64,
        selector: Option<(usize, CommonRegister)>,
        direction: i64,
        len: u8,
    ) -> (r: Result<Outcome, Error>)
        requires
            selector is Some ==> selector.unwrap().0 <= 30,
        ensures
            outcome_of(r, final(self)@) == load_indirect_step(
                old(self)@,
                register,
                spec_selector(selector),
                direction,
                len as int,
            ),
            r is Err ==> final(self)@ == old(self)@,
    {
        let d = self.register_index(register)?;
        let (low, ramp) = match selector {
            Some(pair) => pair,
            None => {
                return Err(Error::InvalidValue);
            },
        };
        if direction < 0 || direction > 2 {
            return Err(Error::InvalidValue);
        }
        if self.memory.data.registers.len() < 32 {
            return Err(Error::InvalidRegister { index: 31 });
        }
        let next = self.next_pc(len)?;
        let (address, after) = self.indirect_addresses(low, ramp, direction);
        if !self.in_data_space(address as u64) {
            return Err(Error::InvalidAddress { address: address as u64 });
        }
        let value = self.read_data(address as usize);
        self.move_pointer(low, ramp, direction, after);
        self.write_register(d, value);
        self.set_pc(next);
        Ok(Outcome::Continue)
    }

    /// `st`.
    pub(crate) fn execute_store_indirect(
        &mut self,
        register: i64,
        selector: Option<(usize, CommonRegister)>,
        direction: i64,
        len: u8,
    ) -> (r: Result<Outcome, Error>)
        requires
            selector is Some ==> selector.unwrap().0 <= 30,
        ensures
            outcome_of(r, final(self)@) == store_indirect_step(
                old(self)@,
                register,
                spec_selector(selector),
                direction,
                len as int,
            ),
            r is Err ==> final(self)@ == old(self)@,
    {
        let d = self.register_index(register)?;
        let (low, ramp) = match selector {
            Some(pair) => pair,
            None => {
                return Err(Error::InvalidValue);
            },
        };
        if direction < 0 || direction > 2 {
            return Err(Error::InvalidValue);
        }
        if self.memory.data.registers.len() < 32 {
            return Err(Error::InvalidRegister { index: 31 });
        }
        let next = self.next_pc(len)?;
        let (address, after) = self.indirect_addresses(low, ramp, direction);
        if !self.in_data_space(address as u64) {
            return Err(Error::InvalidAddress { address: address as u64 });
        }
        let value = self.memory.data.registers[d];
        self.write_data(address as usize, value);
        self.move_pointer(low, ramp, direction, after);
        self.set_pc(next);
        Ok(Outcome::Continue)
    }

    /// `ldd` and `std`.
    pub(crate) fn execute_displaced(
        &mut self,
        register: i64,
        selector: Option<(usize, CommonRegister)>,
        displacement: i64,
        store: bool,
        len: u8,
    ) -> (r: Result<Outcome, Error>)
        requires
            selector is Some ==> selector.unwrap().0 <= 30,
        ensures
            outcome_of(r, final(self)@) == displaced_step(
                old(self)@,
                register,
                spec_selector(selector),
                displacement,
                store,
                len as int,
            ),
            r is Err ==> final(self)@ == old(self)@,
    {
        let d = self.register_index(register)?;
        let (low, ramp) = match selector {
            Some(pair) => pair,
            None => {
                return Err(Error::InvalidValue);
            },
        };
        if displacement < 0 || displacement >= 64 {
            return Err(Error::InvalidValue);
        }
        if self.memory.data.registers.len() < 32 {
            return Err(Error::InvalidRegister { index: 31 });
        }
        let next = self.next_pc(len)?;
        let address: u32 = (self.wide_pointer_value(low, ramp) + displacement as u32) % 16777216;
        if !self.in_data_space(address as u64) {
            return Err(Error::InvalidAddress { address: address as u64 });
        }
        if store {
            let value = self.memory.data.registers[d];
            self.write_data(address as usize, value);
        } else {
            let value = self.read_data(address as usize);
            self.write_register(d, value);
        }
        self.set_pc(next);
        Ok(Outcome::Continue)
    }

    /// `lds` and `sts`.
    pub fn execute_direct(&mut self, register: i64, address: i64, store: bool, len: u8) -> (r:
        Result<Outcome, Error>)
        ensures
            outcome_of(r, final(self)@) == direct_step(
                old(self)@,
                register,
                address,
                store,
                len as int,
            ),
            r is Err ==> final(self)@ == old(self)@,
    {
        let d = self.register_index(register)?;
        if address < 0 || address >= 65536 {
            return Err(Error::InvalidValue);
        }
        let next = self.next_pc(len)?;
        let full: u32 = self.extension_value(CommonRegister::Rampd) as u32 * 65536
            + address as u32;
        if !self.in_data_space(full as u64) {
            return Err(Error::InvalidAddress { address: full as u64 });
        }
        if store {
            let value = self.memory.data.registers[d];
            self.write_data(full as usize, value);
        } else {
            let value = self.read_data(full as usize);
            self.write_register(d, value);
        }
        self.set_pc(next);
        Ok(Outcome::Continue)
    }

    /// The word of program memory at a word address.
    pub fn program_word(&self, word: u32) -> (r: Option<u16>)
        ensures
            r == flash_word(self@, word as int),
    {
        if word as u64 >= self.memory.flash.len() as u64 {
            return None;
        }
        let at = word as usize;
        let id = self.memory.flash[at].opcode_id;
        if id == EMPTY_ID {
            Some(0xffff)
        } else if id == REMINDER_ID {
            if at == 0 {
                Some(0xffff)
            } else {
                Some((self.memory.flash[at - 1].raw_opcode % 65536) as u16)
            }
        } else if id < 124 && OPCODE_LENGTHS[id] == 2 {
            Some((self.memory.flash[at].raw_opcode / 65536) as u16)
        } else {
            Some((self.memory.flash[at].raw_opcode % 65536) as u16)
        }
    }

    /// `lpm` and `elpm`.
    pub fn execute_program_load(&mut self, extended: bool, register: i64, increment: i64, len: u8)
        -> (r: Result<Outcome, Error>)
        ensures
            outcome_of(r, final(self)@) == program_load_step(
                old(self)@,
                extended,
                register,
                increment,
                len as int,
            ),
            r is Err ==> final(self)@ == old(self)@,
    {
        let d = self.register_index(register)?;
        if increment < 0 || increment > 1 {
            return Err(Error::InvalidValue);
        }
        if self.memory.data.registers.len() < 32 {
            return Err(Error::InvalidRegister { index: 31 });
        }
        let next = self.next_pc(len)?;
        let z: u32 = if extended {
            self.wide_pointer_value(30, CommonRegister::Rampz)
        } else {
            self.pointer_value(30)
        };
        let word = match self.program_word(z / 2) {
            Some(word) => word,
            None => {
                return Err(Error::InvalidAddress { address: (z / 2) as u64 });
            },
        };
        let byte: u8 = if z % 2 == 0 {
            (word % 256) as u8
        } else {
            (word / 256) as u8
        };
        if increment != 0 {
            if extended {
                self.write_wide_pointer(30, CommonRegister::Rampz, (z + 1) % 16777216);
            } else {
                self.write_pointer(30, (z + 1) % 65536);
            }
        }
        self.write_register(d, byte);
        self.set_pc(next);
        Ok(Outcome::Continue)
    }

    /// `xch`, `las`, `lac` and `lat`.
    pub fn execute_exchange(&mut self, name: Opcode, register: i64, len: u8) -> (r: Result<
        Outcome,
        Error,
    >)
        ensures
            outcome_of(r, final(self)@) == exchange_step(old(self)@, name, register, len as int),
            r is Err ==> final(self)@ == old(self)@,
    {
        let d = self.register_index(register)?;
        if self.memory.data.registers.len() < 32 {
            return Err(Error::InvalidRegister { index: 31 });
        }
        let next = self.next_pc(len)?;
        let z = self.pointer_value(30);
        if !self.in_data_space(z as u64) {
            return Err(Error::InvalidAddress { address: z as u64 });
        }
        let before = self.read_data(z as usize);
        let stored = exchanged_of(name, self.memory.data.registers[d], before);
        self.write_data(z as usize, stored);
        self.write_register(d, before);
        self.set_pc(next);
        Ok(Outcome::Continue)
    }
}

} // verus!
