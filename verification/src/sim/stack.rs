//! The stack: calls, returns, `push` and `pop`.

use vstd::prelude::*;
use crate::alu::set_flag_bit;
use crate::error::Error;
use crate::machine::{
    call_step, pop_register_step, pop_step, popped_value, push_register_step, push_step, pushed,
    return_step, stack_limit, stack_top, with_stack_top, Machine, Outcome, RamSize,
};
use crate::register::CommonRegister;
use crate::sim::{outcome_of, Sim};

verus! {

impl Sim {
    /// The stack pointer.
    pub fn stack_pointer(&self) -> (r: Result<u32, Error>)
        ensures
            match r {
                Ok(sp) => stack_top(self@) == Ok::<int, Error>(sp as int) && sp <= stack_limit(
                    self@,
                ),
                Err(e) => stack_top(self@) == Err::<int, Error>(e),
            },
    {
        let low = self.special_offset(CommonRegister::Spl)?;
        match self.registers.offset_of(CommonRegister::Sph) {
            None => Ok(self.memory.data.io.data[low] as u32),
            Some(_) => {
                let high = self.special_offset(CommonRegister::Sph)?;
                Ok(
                    self.memory.data.io.data[low] as u32 + 256 * (
                    self.memory.data.io.data[high] as u32),
                )
            },
        }
    }

    /// Sets the stack pointer.
    pub(crate) fn write_stack_pointer(&mut self, sp: u32)
        requires
            stack_top(old(self)@) is Ok,
            sp <= stack_limit(old(self)@),
        ensures
            final(self)@ == with_stack_top(old(self)@, sp as int),
    {
        match self.special_offset(CommonRegister::Spl) {
            Ok(low) => {
                let high = match self.registers.offset_of(CommonRegister::Sph) {
                    Some(high) => Some(high),
                    None => None,
                };
                self.write_io(low, (sp % 256) as u8);
                match high {
                    Some(high) => {
                        self.write_io(high, (sp / 256) as u8);
                    },
                    None => {},
                }
            },
            Err(_) => {},
        }
    }

    /// Pushes the low `count` bytes of `value`.
    pub(crate) fn push_value(&mut self, value: u32, count: u8) -> (r: Result<(), Error>)
        requires
            count <= 3,
        ensures
            match r {
                Ok(()) => push_step(old(self)@, value as int, count as nat) == Ok::<
                    Machine,
                    Error,
                >(final(self)@),
                Err(e) => push_step(old(self)@, value as int, count as nat) == Err::<
                    Machine,
                    Error,
                >(e) && final(self)@ == old(self)@,
            },
    {
        let sp = self.stack_pointer()?;
        if sp < count as u32 || !self.in_data_space(sp as u64) {
            return Err(Error::InvalidAddress { address: sp as u64 });
        }
        let mut at: u32 = sp;
        let mut rest: u32 = value;
        let mut left: u8 = count;
        while left > 0
            invariant
                left <= count <= 3,
                at == sp - (count - left),
                sp >= count,
                sp < old(self)@.data_len(),
                self@.data_len() == old(self)@.data_len(),
                self@.io.len() == old(self)@.io.len(),
                self@.special == old(self)@.special,
                pushed(self@, at as int, rest as int, left as nat) == pushed(
                    old(self)@,
                    sp as int,
                    value as int,
                    count as nat,
                ),
            decreases left,
        {
            self.write_data(at as usize, (rest % 256) as u8);
            at = at - 1;
            rest = rest / 256;
            left = left - 1;
        }
        self.write_stack_pointer(sp - count as u32);
        Ok(())
    }

    /// Pops `count` bytes.
    pub(crate) fn pop_value(&mut self, count: u8) -> (r: Result<u32, Error>)
        requires
            count <= 3,
        ensures
            match r {
                Ok(value) => pop_step(old(self)@, count as nat) == Ok::<(Machine, int), Error>(
                    (final(self)@, value as int),
                ) && value < 16777216,
                Err(e) => pop_step(old(self)@, count as nat) == Err::<(Machine, int), Error>(e)
                    && final(self)@ == old(self)@,
            },
    {
        let sp = self.stack_pointer()?;
        let limit: u32 = match self.registers.offset_of(CommonRegister::Sph) {
            Some(_) => 65535,
            None => 255,
        };
        let top = sp + count as u32;
        if top > limit || !self.in_data_space(top as u64) {
            return Err(Error::InvalidAddress { address: top as u64 });
        }
        let mut value: u32 = 0;
        let mut k: u8 = 0;
        while k < count
            invariant
                k <= count <= 3,
                sp <= 65535,
                sp + count < self@.data_len(),
                value == popped_value(self@, sp as int, k as nat),
                value < 16777216,
                k < 3 ==> value < 65536,
                k < 2 ==> value < 256,
                k < 1 ==> value == 0,
            decreases count - k,
        {
            k = k + 1;
            value = value * 256 + self.read_data((sp + k as u32) as usize) as u32;
        }
        self.write_stack_pointer(top);
        Ok(value)
    }

    /// A call.
    pub fn execute_call(&mut self, target: Result<u32, Error>, len: u8) -> (r: Result<
        Outcome,
        Error,
    >)
        ensures
            outcome_of(r, final(self)@) == call_step(old(self)@, target, len as int),
            r is Err ==> final(self)@ == old(self)@,
    {
        let pc = target?;
        let back = self.next_pc(len)?;
        let count: u8 = match self.ram_size {
            RamSize::Size16 => 2,
            RamSize::Size24 => 3,
        };
        self.push_value(back, count)?;
        self.set_pc(pc);
        Ok(Outcome::Continue)
    }

    /// A return.
    pub fn execute_return(&mut self, interrupt: bool) -> (r: Result<Outcome, Error>)
        ensures
            outcome_of(r, final(self)@) == return_step(old(self)@, interrupt),
            r is Err ==> final(self)@ == old(self)@,
    {
        let at = if interrupt {
            Some(self.special_offset(CommonRegister::Sreg)?)
        } else {
            None
        };
        let count: u8 = match self.ram_size {
            RamSize::Size16 => 2,
            RamSize::Size24 => 3,
        };
        let value = self.pop_value(count)?;
        match at {
            Some(at) => {
                let sreg = self.memory.data.io.data[at];
                self.write_io(at, set_flag_bit(sreg, 7, true));
            },
            None => {},
        }
        self.set_pc(value);
        Ok(Outcome::Continue)
    }

    /// `push`.
    pub fn execute_push(&mut self, op1: i64, len: u8) -> (r: Result<Outcome, Error>)
        ensures
            outcome_of(r, final(self)@) == push_register_step(old(self)@, op1, len as int),
            r is Err ==> final(self)@ == old(self)@,
    {
        let d = self.register_index(op1)?;
        let next = self.next_pc(len)?;
        let value = self.memory.data.registers[d];
        self.push_value(value as u32, 1)?;
        self.set_pc(next);
        Ok(Outcome::Continue)
    }

    /// `pop`.
    pub fn execute_pop(&mut self, op1: i64, len: u8) -> (r: Result<Outcome, Error>)
        ensures
            outcome_of(r, final(self)@) == pop_register_step(old(self)@, op1, len as int),
            r is Err ==> final(self)@ == old(self)@,
    {
        let d = self.register_index(op1)?;
        let next = self.next_pc(len)?;
        let value = self.pop_value(1)?;
        self.write_register(d, value as u8);
        self.set_pc(next);
        Ok(Outcome::Continue)
    }
}

} // verus!
