//! What holds of the stack: a call and the return that follows it.

use vstd::prelude::*;
use crate::error::Error;
use crate::machine::{
    call_step, popped_value, push_step, pushed, return_step, stack_limit, stack_top, with_stack_top,
    Machine, Outcome, RamSize,
};
use crate::register::CommonRegister;

verus! {

/// Whether the stack of a machine is in order for a call: the device has a
/// stack pointer whose two bytes, where it has two, are two registers; the
/// bytes that the call writes lie in the RAM; and the address to come back
/// to fits the width of the program counter on the stack.
pub open spec fn ready_for_call(m: Machine, len: int) -> bool {
    &&& stack_top(m) is Ok
    &&& m.special.alias(CommonRegister::Sph) is Some ==> m.special.alias(CommonRegister::Spl)
        != m.special.alias(CommonRegister::Sph)
    &&& m.registers.len() + m.io.len() <= stack_top(m)->Ok_0 - (m.ram_size.bytes() - 1)
    &&& stack_top(m)->Ok_0 < m.data_len()
    &&& 0 <= len
    &&& m.pc + len < (if m.ram_size == RamSize::Size16 {
        0x1_0000int
    } else {
        0x100_0000int
    })
}

proof fn lemma_stack_top_written(m: Machine, sp: int)
    requires
        stack_top(m) is Ok,
        m.special.alias(CommonRegister::Sph) is Some ==> m.special.alias(CommonRegister::Spl)
            != m.special.alias(CommonRegister::Sph),
        0 <= sp <= stack_limit(m),
    ensures
        stack_top(with_stack_top(m, sp)) == Ok::<int, Error>(sp),
        with_stack_top(m, sp).registers == m.registers,
        with_stack_top(m, sp).ram == m.ram,
        with_stack_top(m, sp).io.len() == m.io.len(),
        with_stack_top(m, sp).special == m.special,
        with_stack_top(m, sp).ram_size == m.ram_size,
        with_stack_top(m, sp).pc == m.pc,
        with_stack_top(m, sp).flash == m.flash,
{
}

proof fn lemma_ram_written(m: Machine, address: int, value: u8)
    requires
        m.registers.len() + m.io.len() <= address < m.data_len(),
    ensures
        m.with_data(address, value).registers == m.registers,
        m.with_data(address, value).io == m.io,
        m.with_data(address, value).special == m.special,
        m.with_data(address, value).ram_size == m.ram_size,
        m.with_data(address, value).pc == m.pc,
        m.with_data(address, value).data_len() == m.data_len(),
        m.with_data(address, value).data(address) == value,
        stack_top(m.with_data(address, value)) == stack_top(m),
        forall|other: int|
            m.registers.len() + m.io.len() <= other < m.data_len() && other != address
                ==> m.with_data(address, value).data(other) == m.data(other),
{
}

/// A call and the return that follows it: where the stack is in order, the
/// call succeeds, goes to its target and moves the stack pointer down by
/// the width of the program counter; the return then succeeds, comes back to
/// the instruction behind the call and leaves the stack pointer where it
/// was before the call.
pub proof fn lemma_call_then_return(m: Machine, target: u32, len: int)
    requires
        ready_for_call(m, len),
    ensures
        call_step(m, Ok(target), len) is Ok,
        call_step(m, Ok(target), len)->Ok_0.1 == Outcome::Continue,
        call_step(m, Ok(target), len)->Ok_0.0.pc == target,
        stack_top(call_step(m, Ok(target), len)->Ok_0.0) == Ok::<int, Error>(
            stack_top(m)->Ok_0 - m.ram_size.bytes(),
        ),
        return_step(call_step(m, Ok(target), len)->Ok_0.0, false) is Ok,
        return_step(call_step(m, Ok(target), len)->Ok_0.0, false)->Ok_0.0.pc == m.pc + len,
        stack_top(return_step(call_step(m, Ok(target), len)->Ok_0.0, false)->Ok_0.0) == stack_top(
            m,
        ),
{
    let sp = stack_top(m)->Ok_0;
    let back = m.pc + len;
    let count = m.ram_size.bytes();
    assert(0 <= sp <= stack_limit(m));
    assert(m.io.len() > 0);
    let b0 = (back % 256) as u8;
    let b1 = ((back / 256) % 256) as u8;
    let b2 = ((back / 256 / 256) % 256) as u8;
    let m_a = m.with_data(sp, b0);
    lemma_ram_written(m, sp, b0);
    let m_b = m_a.with_data(sp - 1, b1);
    lemma_ram_written(m_a, sp - 1, b1);
    reveal_with_fuel(pushed, 4);
    reveal_with_fuel(popped_value, 4);
    if m.ram_size == RamSize::Size16 {
        assert(pushed(m, sp, back, 2) == m_b);
        lemma_stack_top_written(m_b, sp - 2);
        let m1 = with_stack_top(m_b, sp - 2);
        assert(push_step(m, back, 2) == Ok::<Machine, Error>(m1));
        let called = m1.with_pc(target);
        assert(call_step(m, Ok(target), len) == Ok::<(Machine, Outcome), Error>(
            (called, Outcome::Continue),
        ));
        assert(stack_top(called) == Ok::<int, Error>(sp - 2));
        assert(called.data(sp - 1) == b1);
        assert(called.data(sp) == b0);
        assert(popped_value(called, sp - 2, 2) == b1 * 256 + b0);
        lemma_stack_top_written(called, sp);
    } else {
        let m_c = m_b.with_data(sp - 2, b2);
        lemma_ram_written(m_b, sp - 2, b2);
        assert(pushed(m, sp, back, 3) == m_c);
        lemma_stack_top_written(m_c, sp - 3);
        let m1 = with_stack_top(m_c, sp - 3);
        assert(push_step(m, back, 3) == Ok::<Machine, Error>(m1));
        let called = m1.with_pc(target);
        assert(call_step(m, Ok(target), len) == Ok::<(Machine, Outcome), Error>(
            (called, Outcome::Continue),
        ));
        assert(stack_top(called) == Ok::<int, Error>(sp - 3));
        assert(called.data(sp - 2) == b2);
        assert(called.data(sp - 1) == b1);
        assert(called.data(sp) == b0);
        assert(popped_value(called, sp - 3, 3) == (b2 * 256 + b1) * 256 + b0);
        lemma_stack_top_written(called, sp);
    }
}

} // verus!
