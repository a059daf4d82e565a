//! The flag formulas of the datasheet as bit expressions, and what they
//! evaluate to: the flags that the arithmetic and logic unit gives.

use vstd::prelude::*;
use crate::alu::{add_status, carry_in, lemma_bit8_meaning, sub_status};
use crate::bin_expr::{bound, value_of, BindingView, ExprView, Operator, Value};
use crate::bits::bit8;
use crate::error::Error;

verus! {

/// Bit `bit` of the operand `name`.
pub open spec fn bit_of(name: Seq<char>, bit: u8) -> ExprView {
    ExprView::Var { name, bit: Some(bit) }
}

/// `!a`.
pub open spec fn not(a: ExprView) -> ExprView {
    ExprView::Not(Box::new(a))
}

/// `a & b`.
pub open spec fn and(a: ExprView, b: ExprView) -> ExprView {
    ExprView::Binary(Operator::And, Box::new(a), Box::new(b))
}

/// `a | b`.
pub open spec fn or(a: ExprView, b: ExprView) -> ExprView {
    ExprView::Binary(Operator::Or, Box::new(a), Box::new(b))
}

/// The carry out of bit `bit` of an addition:
/// `(ra&rb)|(ra&!res)|(rb&!res)` at that bit.
pub open spec fn add_carry_formula(bit: u8) -> ExprView {
    or(
        or(
            and(bit_of("ra"@, bit), bit_of("rb"@, bit)),
            and(bit_of("ra"@, bit), not(bit_of("res"@, bit))),
        ),
        and(bit_of("rb"@, bit), not(bit_of("res"@, bit))),
    )
}

/// The overflow of an addition: `(ra7&rb7&!res7)|(!ra7&!rb7&res7)`.
pub open spec fn add_overflow_formula() -> ExprView {
    or(
        and(and(bit_of("ra"@, 7), bit_of("rb"@, 7)), not(bit_of("res"@, 7))),
        and(and(not(bit_of("ra"@, 7)), not(bit_of("rb"@, 7))), bit_of("res"@, 7)),
    )
}

/// The borrow into bit `bit` of a subtraction:
/// `(!ra&rb)|(rb&res)|(res&!ra)` at that bit.
pub open spec fn sub_borrow_formula(bit: u8) -> ExprView {
    or(
        or(
            and(not(bit_of("ra"@, bit)), bit_of("rb"@, bit)),
            and(bit_of("rb"@, bit), bit_of("res"@, bit)),
        ),
        and(bit_of("res"@, bit), not(bit_of("ra"@, bit))),
    )
}

/// The overflow of a subtraction: `(ra7&!rb7&!res7)|(!ra7&rb7&res7)`.
pub open spec fn sub_overflow_formula() -> ExprView {
    or(
        and(and(bit_of("ra"@, 7), not(bit_of("rb"@, 7))), not(bit_of("res"@, 7))),
        and(and(not(bit_of("ra"@, 7)), bit_of("rb"@, 7)), bit_of("res"@, 7)),
    )
}

/// The operands of an operation of the arithmetic and logic unit, bound to
/// the names that the formulas use.
pub open spec fn operands(ra: u8, rb: u8, res: u8) -> Seq<BindingView> {
    seq![
        BindingView { name: "ra"@, value: Ok(Value::Byte(ra)) },
        BindingView { name: "rb"@, value: Ok(Value::Byte(rb)) },
        BindingView { name: "res"@, value: Ok(Value::Byte(res)) },
    ]
}

proof fn lemma_operand_bits(ra: u8, rb: u8, res: u8, bit: u8)
    requires
        bit < 8,
    ensures
        value_of(bit_of("ra"@, bit), operands(ra, rb, res)) == Ok::<Value, Error>(
            Value::Bit(bit8(ra, bit)),
        ),
        value_of(bit_of("rb"@, bit), operands(ra, rb, res)) == Ok::<Value, Error>(
            Value::Bit(bit8(rb, bit)),
        ),
        value_of(bit_of("res"@, bit), operands(ra, rb, res)) == Ok::<Value, Error>(
            Value::Bit(bit8(res, bit)),
        ),
{
    reveal_strlit("ra");
    reveal_strlit("rb");
    reveal_strlit("res");
    let env = operands(ra, rb, res);
    reveal_with_fuel(bound, 4);
    assert("ra"@ != "rb"@) by {
        assert("ra"@[1] != "rb"@[1]);
    }
    assert("ra"@.len() != "res"@.len());
    assert("rb"@.len() != "res"@.len());
    assert(bound(env, "ra"@, 3) == Some(Ok::<Value, Error>(Value::Byte(ra))));
    assert(bound(env, "rb"@, 3) == Some(Ok::<Value, Error>(Value::Byte(rb))));
    assert(bound(env, "res"@, 3) == Some(Ok::<Value, Error>(Value::Byte(res))));
}

/// The carry out of a bit of an addition, from the bits of the operands
/// and the result.
pub open spec fn add_carry_bits(ra: u8, rb: u8, res: u8, bit: u8) -> bool {
    (bit8(ra, bit) && bit8(rb, bit)) || (bit8(ra, bit) && !bit8(res, bit)) || (bit8(rb, bit)
        && !bit8(res, bit))
}

/// The overflow of an addition, from bit 7 of the operands and the result.
pub open spec fn add_overflow_bits(ra: u8, rb: u8, res: u8) -> bool {
    (bit8(ra, 7) && bit8(rb, 7) && !bit8(res, 7)) || (!bit8(ra, 7) && !bit8(rb, 7) && bit8(res, 7))
}

/// The borrow into a bit of a subtraction, from the bits of the operands
/// and the result.
pub open spec fn sub_borrow_bits(ra: u8, rb: u8, res: u8, bit: u8) -> bool {
    (!bit8(ra, bit) && bit8(rb, bit)) || (bit8(rb, bit) && bit8(res, bit)) || (bit8(res, bit)
        && !bit8(ra, bit))
}

/// The overflow of a subtraction, from bit 7 of the operands and the result.
pub open spec fn sub_overflow_bits(ra: u8, rb: u8, res: u8) -> bool {
    (bit8(ra, 7) && !bit8(rb, 7) && !bit8(res, 7)) || (!bit8(ra, 7) && bit8(rb, 7) && bit8(res, 7))
}

/// What the formulas evaluate to on three bytes: the same formulas on the
/// bits of the bytes.
pub proof fn lemma_formula_values(ra: u8, rb: u8, res: u8, bit: u8)
    requires
        bit < 8,
    ensures
        value_of(add_carry_formula(bit), operands(ra, rb, res)) == Ok::<Value, Error>(
            Value::Bit(add_carry_bits(ra, rb, res, bit)),
        ),
        value_of(sub_borrow_formula(bit), operands(ra, rb, res)) == Ok::<Value, Error>(
            Value::Bit(sub_borrow_bits(ra, rb, res, bit)),
        ),
        value_of(add_overflow_formula(), operands(ra, rb, res)) == Ok::<Value, Error>(
            Value::Bit(add_overflow_bits(ra, rb, res)),
        ),
        value_of(sub_overflow_formula(), operands(ra, rb, res)) == Ok::<Value, Error>(
            Value::Bit(sub_overflow_bits(ra, rb, res)),
        ),
{
    lemma_operand_bits(ra, rb, res, bit);
    lemma_operand_bits(ra, rb, res, 7);
    reveal_with_fuel(value_of, 6);
}

proof fn lemma_sub_borrows(a: u8, b: u8, cin: u8, res: u8)
    by (bit_vector)
    requires
        cin <= 1,
        a >= b + cin ==> res == a - b - cin,
        a < b + cin ==> res == a + 256 - b - cin,
    ensures
        ((!bit8(a, 3) && bit8(b, 3)) || (bit8(b, 3) && bit8(res, 3)) || (bit8(res, 3) && !bit8(
            a,
            3,
        ))) == ((a & 15) < (b & 15) + cin),
        ((!bit8(a, 7) && bit8(b, 7)) || (bit8(b, 7) && bit8(res, 7)) || (bit8(res, 7) && !bit8(
            a,
            7,
        ))) == (a < b + cin),
        a & 15 == a % 16,
        b & 15 == b % 16,
{
}

proof fn lemma_overflow_bits(ra: u8, rb: u8, carry: bool)
    ensures
        add_overflow_bits(ra, rb, ((ra + rb + carry_in(carry)) % 256) as u8) == add_status(
            ra,
            rb,
            carry,
        ).v.unwrap(),
        sub_overflow_bits(ra, rb, ((ra - rb - carry_in(carry)) % 256) as u8) == sub_status(
            ra,
            rb,
            carry,
            false,
            false,
        ).v.unwrap(),
{
    lemma_bit8_meaning(ra);
    lemma_bit8_meaning(rb);
    lemma_bit8_meaning(((ra + rb + carry_in(carry)) % 256) as u8);
    lemma_bit8_meaning(((ra - rb - carry_in(carry)) % 256) as u8);
}

/// The formulas of the datasheet for an addition give the flags of the
/// adder: evaluated on the operands and the result of `ra + rb + carry`,
/// the carry formula at bit 3 is the half carry, at bit 7 the carry, and the
/// overflow formula is the overflow.
pub proof fn lemma_add_formulas(ra: u8, rb: u8, carry: bool)
    ensures
        ({
            let res = ((ra + rb + carry_in(carry)) % 256) as u8;
            let env = operands(ra, rb, res);
            &&& value_of(add_carry_formula(3), env) == Ok::<Value, Error>(
                Value::Bit(add_status(ra, rb, carry).h.unwrap()),
            )
            &&& value_of(add_carry_formula(7), env) == Ok::<Value, Error>(
                Value::Bit(add_status(ra, rb, carry).c.unwrap()),
            )
            &&& value_of(add_overflow_formula(), env) == Ok::<Value, Error>(
                Value::Bit(add_status(ra, rb, carry).v.unwrap()),
            )
        }),
{
    let res = ((ra + rb + carry_in(carry)) % 256) as u8;
    lemma_formula_values(ra, rb, res, 3);
    lemma_formula_values(ra, rb, res, 7);
    let cin: u8 = if carry {
        1
    } else {
        0
    };
    crate::alu::lemma_add_carries(ra, rb, cin, res);
    lemma_overflow_bits(ra, rb, carry);
}

/// The formulas of the datasheet for a subtraction give the flags of the
/// subtractor: evaluated on the operands and the result of
/// `ra - rb - carry`, the borrow formula at bit 3 is the half carry, at bit 7
/// the carry, and the overflow formula is the overflow.
pub proof fn lemma_sub_formulas(ra: u8, rb: u8, carry: bool)
    ensures
        ({
            let res = ((ra - rb - carry_in(carry)) % 256) as u8;
            let env = operands(ra, rb, res);
            &&& value_of(sub_borrow_formula(3), env) == Ok::<Value, Error>(
                Value::Bit(sub_status(ra, rb, carry, false, false).h.unwrap()),
            )
            &&& value_of(sub_borrow_formula(7), env) == Ok::<Value, Error>(
                Value::Bit(sub_status(ra, rb, carry, false, false).c.unwrap()),
            )
            &&& value_of(sub_overflow_formula(), env) == Ok::<Value, Error>(
                Value::Bit(sub_status(ra, rb, carry, false, false).v.unwrap()),
            )
        }),
{
    let res = ((ra - rb - carry_in(carry)) % 256) as u8;
    lemma_formula_values(ra, rb, res, 3);
    lemma_formula_values(ra, rb, res, 7);
    let cin: u8 = if carry {
        1
    } else {
        0
    };
    lemma_sub_borrows(ra, rb, cin, res);
    lemma_overflow_bits(ra, rb, carry);
}

} // verus!
