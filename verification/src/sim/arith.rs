//! The instructions of the arithmetic and logic unit.

use vstd::prelude::*;
use crate::alu;
use crate::alu::StatusUpdate;
use crate::bits::get_bit;
use crate::error::Error;
use crate::machine::{
    alu_form, alu_outcome, alu_step, low_byte, low_word, move_word_step, mul_form, mul_step,
    word_step, Alu, Outcome, Source,
};
use crate::opcode::Opcode;
use crate::register::CommonRegister;
use crate::sim::{outcome_of, Sim};

verus! {

/// The low byte of an operand.
pub fn low_byte_of(operand: i64) -> (r: u8)
    ensures
        r == low_byte(operand),
{
    let m = operand % 256;
    if m < 0 {
        (m + 256) as u8
    } else {
        m as u8
    }
}

/// The operation and the source of the second operand of an instruction
/// that works on one register.
pub fn alu_form_of(name: Opcode) -> (r: Option<(Alu, Source)>)
    ensures
        r == alu_form(name),
{
    match name {
        Opcode::ADD => Some((Alu::Add, Source::Register)),
        Opcode::ADC => Some((Alu::Adc, Source::Register)),
        Opcode::SUB => Some((Alu::Sub, Source::Register)),
        Opcode::SBC => Some((Alu::Sbc, Source::Register)),
        Opcode::CP => Some((Alu::Cp, Source::Register)),
        Opcode::CPC => Some((Alu::Cpc, Source::Register)),
        Opcode::AND => Some((Alu::And, Source::Register)),
        Opcode::OR => Some((Alu::Or, Source::Register)),
        Opcode::EOR => Some((Alu::Eor, Source::Register)),
        Opcode::MOV => Some((Alu::Mov, Source::Register)),
        Opcode::SUBI => Some((Alu::Sub, Source::Immediate)),
        Opcode::SBCI => Some((Alu::Sbc, Source::Immediate)),
        Opcode::CPI => Some((Alu::Cp, Source::Immediate)),
        Opcode::ANDI => Some((Alu::And, Source::Immediate)),
        Opcode::ORI => Some((Alu::Or, Source::Immediate)),
        Opcode::SBR => Some((Alu::Or, Source::Immediate)),
        Opcode::LDI => Some((Alu::Mov, Source::Immediate)),
        Opcode::CBR => Some((Alu::And, Source::Inverted)),
        Opcode::SER => Some((Alu::Mov, Source::Ones)),
        Opcode::LSL => Some((Alu::Add, Source::Same)),
        Opcode::ROL => Some((Alu::Adc, Source::Same)),
        Opcode::TST => Some((Alu::And, Source::Same)),
        Opcode::CLR => Some((Alu::Eor, Source::Same)),
        Opcode::COM => Some((Alu::Com, Source::Unary)),
        Opcode::NEG => Some((Alu::Neg, Source::Unary)),
        Opcode::INC => Some((Alu::Inc, Source::Unary)),
        Opcode::DEC => Some((Alu::Dec, Source::Unary)),
        Opcode::LSR => Some((Alu::Lsr, Source::Unary)),
        Opcode::ROR => Some((Alu::Ror, Source::Unary)),
        Opcode::ASR => Some((Alu::Asr, Source::Unary)),
        Opcode::SWAP => Some((Alu::Swap, Source::Unary)),
        _ => None,
    }
}

/// One operation of the arithmetic and logic unit.
pub fn alu_unit(kind: Alu, a: u8, b: u8, sreg: u8) -> (r: (Option<u8>, StatusUpdate))
    ensures
        r == alu_outcome(kind, a, b, sreg),
{
    let carry = get_bit(sreg, 0);
    let zero = get_bit(sreg, 1);
    let nothing = StatusUpdate { h: None, s: None, v: None, n: None, z: None, c: None };
    match kind {
        Alu::Add => {
            let r = alu::add(a, b, false);
            (Some(r.value), r.status)
        },
        Alu::Adc => {
            let r = alu::add(a, b, carry);
            (Some(r.value), r.status)
        },
        Alu::Sub => {
            let r = alu::sub(a, b, false, false, false);
            (Some(r.value), r.status)
        },
        Alu::Sbc => {
            let r = alu::sub(a, b, carry, true, zero);
            (Some(r.value), r.status)
        },
        Alu::Cp => {
            let r = alu::sub(a, b, false, false, false);
            (None, r.status)
        },
        Alu::Cpc => {
            let r = alu::sub(a, b, carry, true, zero);
            (None, r.status)
        },
        Alu::And => {
            let r = alu::logic(a & b);
            (Some(r.value), r.status)
        },
        Alu::Or => {
            let r = alu::logic(a | b);
            (Some(r.value), r.status)
        },
        Alu::Eor => {
            let r = alu::logic(a ^ b);
            (Some(r.value), r.status)
        },
        Alu::Mov => (Some(b), nothing),
        Alu::Com => {
            let r = alu::com(a);
            (Some(r.value), r.status)
        },
        Alu::Neg => {
            let r = alu::neg(a);
            (Some(r.value), r.status)
        },
        Alu::Inc => {
            let r = alu::inc(a);
            (Some(r.value), r.status)
        },
        Alu::Dec => {
            let r = alu::dec(a);
            (Some(r.value), r.status)
        },
        Alu::Lsr => {
            let r = alu::lsr(a);
            (Some(r.value), r.status)
        },
        Alu::Ror => {
            let r = alu::ror(a, carry);
            (Some(r.value), r.status)
        },
        Alu::Asr => {
            let r = alu::asr(a);
            (Some(r.value), r.status)
        },
        Alu::Swap => (Some(alu::swap(a)), nothing),
    }
}

/// The low 16 bits of an operand.
pub fn low_word_of(operand: i64) -> (r: u16)
    ensures
        r == low_word(operand),
{
    let m = operand % 65536;
    if m < 0 {
        (m + 65536) as u16
    } else {
        m as u16
    }
}

/// Which factors of a multiplication are signed, and whether the product is
/// shifted.
pub fn mul_form_of(name: Opcode) -> (r: Option<(bool, bool, bool)>)
    ensures
        r == mul_form(name),
{
    match name {
        Opcode::MUL => Some((false, false, false)),
        Opcode::MULS => Some((true, true, false)),
        Opcode::MULSU => Some((true, false, false)),
        Opcode::FMUL => Some((false, false, true)),
        Opcode::FMULS => Some((true, true, true)),
        Opcode::FMULSU => Some((true, false, true)),
        _ => None,
    }
}

impl Sim {
    /// Executes an operation on the register that the first operand names.
    pub fn execute_alu(&mut self, kind: Alu, source: Source, op1: i64, op2: i64, len: u8) -> (r:
        Result<Outcome, Error>)
        ensures
            outcome_of(r, final(self)@) == alu_step(old(self)@, kind, source, op1, op2, len as int),
            r is Err ==> final(self)@ == old(self)@,
    {
        let d = self.register_index(op1)?;
        let a = self.memory.data.registers[d];
        let b = match source {
            Source::Register => {
                let s = self.register_index(op2)?;
                self.memory.data.registers[s]
            },
            Source::Immediate => low_byte_of(op2),
            Source::Inverted => 255 - low_byte_of(op2),
            Source::Same => a,
            Source::Ones => 0xff,
            Source::Unary => 0,
        };
        let status_kind = match kind {
            Alu::Mov => false,
            Alu::Swap => false,
            _ => true,
        };
        if status_kind {
            let at = self.special_offset(CommonRegister::Sreg)?;
            let next = self.next_pc(len)?;
            let sreg = self.memory.data.io.data[at];
            let (value, status) = alu_unit(kind, a, b, sreg);
            match value {
                Some(v) => {
                    self.write_register(d, v);
                },
                None => {},
            }
            self.write_io(at, status.apply(sreg));
            self.set_pc(next);
        } else {
            let next = self.next_pc(len)?;
            let (value, status) = alu_unit(kind, a, b, 0);
            match value {
                Some(v) => {
                    self.write_register(d, v);
                },
                None => {},
            }
            self.set_pc(next);
        }
        Ok(Outcome::Continue)
    }

    /// The 16-bit operations on a register pair.
    pub fn execute_word(&mut self, subtract: bool, op1: i64, op2: i64, len: u8) -> (r: Result<
        Outcome,
        Error,
    >)
        ensures
            outcome_of(r, final(self)@) == word_step(old(self)@, subtract, op1, op2, len as int),
            r is Err ==> final(self)@ == old(self)@,
    {
        let count = self.memory.data.registers.len();
        let d = self.register_index(op1)?;
        if d + 1 >= count {
            return Err(Error::InvalidRegister { index: op1 });
        }
        let at = self.special_offset(CommonRegister::Sreg)?;
        let next = self.next_pc(len)?;
        let sreg = self.memory.data.io.data[at];
        let word = self.pointer_value(d) as u16;
        let k = low_word_of(op2);
        let result = if subtract {
            alu::sub_word(word, k)
        } else {
            alu::add_word(word, k)
        };
        self.write_pointer(d, result.value as u32);
        self.write_io(at, result.status.apply(sreg));
        self.set_pc(next);
        Ok(Outcome::Continue)
    }

    /// `movw`.
    pub fn execute_move_word(&mut self, op1: i64, op2: i64, len: u8) -> (r: Result<Outcome, Error>)
        ensures
            outcome_of(r, final(self)@) == move_word_step(old(self)@, op1, op2, len as int),
            r is Err ==> final(self)@ == old(self)@,
    {
        let count = self.memory.data.registers.len();
        let d = self.register_index(op1)?;
        if d + 1 >= count {
            return Err(Error::InvalidRegister { index: op1 });
        }
        let s = self.register_index(op2)?;
        if s + 1 >= count {
            return Err(Error::InvalidRegister { index: op2 });
        }
        let next = self.next_pc(len)?;
        let value = self.pointer_value(s);
        self.write_pointer(d, value);
        self.set_pc(next);
        Ok(Outcome::Continue)
    }

    /// The multiplications.
    pub fn execute_mul(
        &mut self,
        a_signed: bool,
        b_signed: bool,
        fractional: bool,
        op1: i64,
        op2: i64,
        len: u8,
    ) -> (r: Result<Outcome, Error>)
        ensures
            outcome_of(r, final(self)@) == mul_step(
                old(self)@,
                a_signed,
                b_signed,
                fractional,
                op1,
                op2,
                len as int,
            ),
            r is Err ==> final(self)@ == old(self)@,
    {
        let d = self.register_index(op1)?;
        let s = self.register_index(op2)?;
        if self.memory.data.registers.len() < 2 {
            return Err(Error::InvalidRegister { index: 1 });
        }
        let at = self.special_offset(CommonRegister::Sreg)?;
        let next = self.next_pc(len)?;
        let sreg = self.memory.data.io.data[at];
        let a = self.memory.data.registers[d];
        let b = self.memory.data.registers[s];
        let result = alu::multiply(a, a_signed, b, b_signed, fractional);
        self.write_pointer(0, result.value as u32);
        self.write_io(at, result.status.apply(sreg));
        self.set_pc(next);
        Ok(Outcome::Continue)
    }
}

} // verus!
