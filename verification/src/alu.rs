//! The arithmetic and logic unit: the result of each operation and the
//! status flags it gives, computed from the operand bits as the datasheet
//! writes them and stated here in terms of plain arithmetic.

use vstd::prelude::*;
use crate::bits::{bit8, get_bit};

verus! {

/// What an operation does to the status register: for each flag the new
/// value, or `None` where the operation leaves the flag alone.
#[derive(Clone, Copy, Debug)]
pub struct StatusUpdate {
    pub h: Option<bool>,
    pub s: Option<bool>,
    pub v: Option<bool>,
    pub n: Option<bool>,
    pub z: Option<bool>,
    pub c: Option<bool>,
}

/// The result of an operation on a byte.
#[derive(Clone, Copy, Debug)]
pub struct ByteResult {
    pub value: u8,
    pub status: StatusUpdate,
}

/// The result of an operation on a 16-bit word.
#[derive(Clone, Copy, Debug)]
pub struct WordResult {
    pub value: u16,
    pub status: StatusUpdate,
}

/// `sreg` with flag number `flag` set to `value`.
pub open spec fn with_flag(sreg: u8, flag: u8, value: bool) -> u8 {
    if value {
        sreg | (1u8 << flag)
    } else {
        sreg & !(1u8 << flag)
    }
}

/// `sreg` with flag number `flag` set to `value`, or as it was for `None`.
pub open spec fn with_optional_flag(sreg: u8, flag: u8, value: Option<bool>) -> u8 {
    match value {
        Some(v) => with_flag(sreg, flag, v),
        None => sreg,
    }
}

/// A byte read as a two's-complement number.
pub open spec fn signed8(x: u8) -> int {
    if x >= 128 {
        x - 256
    } else {
        x as int
    }
}

/// A 16-bit word read as a two's-complement number.
pub open spec fn signed16(x: u16) -> int {
    if x >= 32768 {
        x - 65536
    } else {
        x as int
    }
}

/// One for a set carry, zero for a clear one.
pub open spec fn carry_in(carry: bool) -> int {
    if carry {
        1
    } else {
        0
    }
}

/// The flags of an addition `a + b + carry`.
pub open spec fn add_status(a: u8, b: u8, carry: bool) -> StatusUpdate {
    let sum = a + b + carry_in(carry);
    let n = sum % 256 >= 128;
    let v = !(-128 <= signed8(a) + signed8(b) + carry_in(carry) <= 127);
    StatusUpdate {
        h: Some(a % 16 + b % 16 + carry_in(carry) > 15),
        s: Some(n != v),
        v: Some(v),
        n: Some(n),
        z: Some(sum % 256 == 0),
        c: Some(sum > 255),
    }
}

/// The flags of a subtraction `a - b - carry`. With `chained` the zero flag
/// stays set only where it was set before, so that a multi-byte comparison
/// is zero only if every byte is.
pub open spec fn sub_status(a: u8, b: u8, carry: bool, chained: bool, zero_before: bool)
    -> StatusUpdate {
    let diff = a - b - carry_in(carry);
    let n = diff % 256 >= 128;
    let v = !(-128 <= signed8(a) - signed8(b) - carry_in(carry) <= 127);
    StatusUpdate {
        h: Some(a % 16 < b % 16 + carry_in(carry)),
        s: Some(n != v),
        v: Some(v),
        n: Some(n),
        z: Some(diff % 256 == 0 && (!chained || zero_before)),
        c: Some(a < b + carry_in(carry)),
    }
}

/// The flags of a logical operation with result `value`.
pub open spec fn logic_status(value: u8) -> StatusUpdate {
    StatusUpdate {
        h: None,
        s: Some(value >= 128),
        v: Some(false),
        n: Some(value >= 128),
        z: Some(value == 0),
        c: None,
    }
}

/// The flags of a shift to the right that gave `value` and pushed out
/// `carry`.
pub open spec fn shift_status(value: u8, carry: bool) -> StatusUpdate {
    let n = value >= 128;
    StatusUpdate {
        h: None,
        s: Some((n != carry) != n),
        v: Some(n != carry),
        n: Some(n),
        z: Some(value == 0),
        c: Some(carry),
    }
}

/// The flags of a 16-bit addition `word + k`.
pub open spec fn add_word_status(word: u16, k: u16) -> StatusUpdate {
    let sum = word + k;
    let n = sum % 65536 >= 32768;
    let v = !(-32768 <= signed16(word) + signed16(k) <= 32767);
    StatusUpdate {
        h: None,
        s: Some(n != v),
        v: Some(v),
        n: Some(n),
        z: Some(sum % 65536 == 0),
        c: Some(sum > 65535),
    }
}

/// The flags of a 16-bit subtraction `word - k`.
pub open spec fn sub_word_status(word: u16, k: u16) -> StatusUpdate {
    let diff = word - k;
    let n = diff % 65536 >= 32768;
    let v = !(-32768 <= signed16(word) - signed16(k) <= 32767);
    StatusUpdate {
        h: None,
        s: Some(n != v),
        v: Some(v),
        n: Some(n),
        z: Some(diff % 65536 == 0),
        c: Some(word < k),
    }
}

/// The flags of a multiplication with 16-bit result `value`, whose bit 15
/// before any shift was `carry`.
pub open spec fn product_status(value: u16, carry: bool) -> StatusUpdate {
    StatusUpdate { h: None, s: None, v: None, n: None, z: Some(value == 0), c: Some(carry) }
}

/// The bits of a byte in terms of arithmetic.
pub(crate) proof fn lemma_bit8_meaning(x: u8)
    by (bit_vector)
    ensures
        bit8(x, 7) == (x >= 128),
        bit8(x, 3) == (x % 16 >= 8),
        bit8(x, 0) == (x % 2 == 1),
{
}

/// The carry out of bit 3 and out of bit 7 of an addition, from the bits of
/// the operands and the result.
pub(crate) proof fn lemma_add_carries(a: u8, b: u8, cin: u8, res: u8)
    by (bit_vector)
    requires
        cin <= 1,
        a + b + cin < 256 ==> res == a + b + cin,
        a + b + cin >= 256 ==> res + 256 == a + b + cin,
    ensures
        ((bit8(a, 3) && bit8(b, 3)) || (bit8(a, 3) && !bit8(res, 3)) || (bit8(b, 3) && !bit8(
            res,
            3,
        ))) == ((a & 15) + (b & 15) + cin > 15),
        ((bit8(a, 7) && bit8(b, 7)) || (bit8(b, 7) && !bit8(res, 7)) || (!bit8(res, 7) && bit8(
            a,
            7,
        ))) == (a + b + cin > 255),
        a & 15 == a % 16,
        b & 15 == b % 16,
{
}

/// Bit 15 of a word in terms of arithmetic.
pub(crate) proof fn lemma_bit15_meaning(x: u16)
    by (bit_vector)
    ensures
        ((x >> 15) & 1 == 1) == (x >= 32768),
{
}

/// Setting one flag changes that flag and no other.
pub proof fn lemma_with_flag(sreg: u8, flag: u8, value: bool, other: u8)
    by (bit_vector)
    requires
        flag < 8,
        other < 8,
    ensures
        bit8(with_flag(sreg, flag, value), flag) == value,
        other != flag ==> bit8(with_flag(sreg, flag, value), other) == bit8(sreg, other),
{
}

impl StatusUpdate {
    /// An update that leaves every flag alone.
    pub open spec fn nothing() -> StatusUpdate {
        StatusUpdate { h: None, s: None, v: None, n: None, z: None, c: None }
    }

    /// The status register after the update. The flags stand at bit 5 (H),
    /// 4 (S), 3 (V), 2 (N), 1 (Z) and 0 (C).
    pub open spec fn applied(self, sreg: u8) -> u8 {
        with_optional_flag(
            with_optional_flag(
                with_optional_flag(
                    with_optional_flag(
                        with_optional_flag(with_optional_flag(sreg, 5, self.h), 4, self.s),
                        3,
                        self.v,
                    ),
                    2,
                    self.n,
                ),
                1,
                self.z,
            ),
            0,
            self.c,
        )
    }

    /// Applies the update to a status register.
    pub fn apply(&self, sreg: u8) -> (r: u8)
        ensures
            r == self.applied(sreg),
    {
        let r = set_optional_flag(sreg, 5, self.h);
        let r = set_optional_flag(r, 4, self.s);
        let r = set_optional_flag(r, 3, self.v);
        let r = set_optional_flag(r, 2, self.n);
        let r = set_optional_flag(r, 1, self.z);
        set_optional_flag(r, 0, self.c)
    }
}

/// Sets or clears one flag of a status register.
pub(crate) fn set_flag_bit(sreg: u8, flag: u8, value: bool) -> (r: u8)
    requires
        flag < 8,
    ensures
        r == with_flag(sreg, flag, value),
{
    if value {
        sreg | (1u8 << flag)
    } else {
        sreg & !(1u8 << flag)
    }
}

fn set_optional_flag(sreg: u8, flag: u8, value: Option<bool>) -> (r: u8)
    requires
        flag < 8,
    ensures
        r == with_optional_flag(sreg, flag, value),
{
    match value {
        Some(v) => set_flag_bit(sreg, flag, v),
        None => sreg,
    }
}

/// `a + b + carry`: the low byte of the sum, and the flags from the bits of
/// the operands and the result.
pub fn add(a: u8, b: u8, carry: bool) -> (r: ByteResult)
    ensures
        r.value == (a + b + carry_in(carry)) % 256,
        r.status == add_status(a, b, carry),
{
    let cin: u16 = if carry {
        1
    } else {
        0
    };
    let res: u8 = ((a as u16 + b as u16 + cin) % 256) as u8;
    let a3 = get_bit(a, 3);
    let b3 = get_bit(b, 3);
    let r3 = get_bit(res, 3);
    let a7 = get_bit(a, 7);
    let b7 = get_bit(b, 7);
    let r7 = get_bit(res, 7);
    let h = (a3 && b3) || (a3 && !r3) || (b3 && !r3);
    let v = (a7 && b7 && !r7) || (!a7 && !b7 && r7);
    let n = r7;
    let c = (a7 && b7) || (b7 && !r7) || (!r7 && a7);
    proof {
        lemma_add_carries(a, b, cin as u8, res);
        lemma_bit8_meaning(a);
        lemma_bit8_meaning(b);
        lemma_bit8_meaning(res);
        assert(v == !(-128 <= signed8(a) + signed8(b) + carry_in(carry) <= 127));
    }
    ByteResult {
        value: res,
        status: StatusUpdate {
            h: Some(h),
            s: Some(n != v),
            v: Some(v),
            n: Some(n),
            z: Some(res == 0),
            c: Some(c),
        },
    }
}

/// `a - b - carry`: the low byte of the difference, and the flags from the
/// bits of the operands and the result.
pub fn sub(a: u8, b: u8, carry: bool, chained: bool, zero_before: bool) -> (r: ByteResult)
    ensures
        r.value == (a - b - carry_in(carry)) % 256,
        r.status == sub_status(a, b, carry, chained, zero_before),
{
    let cin: i16 = if carry {
        1
    } else {
        0
    };
    let diff: i16 = a as i16 - b as i16 - cin;
    let res: u8 = (if diff < 0 {
        diff + 256
    } else {
        diff
    }) as u8;
    proof {
        lemma_bit8_meaning(a);
        lemma_bit8_meaning(b);
        lemma_bit8_meaning(res);
    }
    let a3 = get_bit(a, 3);
    let b3 = get_bit(b, 3);
    let r3 = get_bit(res, 3);
    let a7 = get_bit(a, 7);
    let b7 = get_bit(b, 7);
    let r7 = get_bit(res, 7);
    let h = (!a3 && b3) || (b3 && r3) || (r3 && !a3);
    let v = (a7 && !b7 && !r7) || (!a7 && b7 && r7);
    let n = r7;
    let c = (!a7 && b7) || (b7 && r7) || (r7 && !a7);
    ByteResult {
        value: res,
        status: StatusUpdate {
            h: Some(h),
            s: Some(n != v),
            v: Some(v),
            n: Some(n),
            z: Some(res == 0 && (!chained || zero_before)),
            c: Some(c),
        },
    }
}

/// The flags of a logical operation, from bit 7 of its result.
pub fn logic(value: u8) -> (r: ByteResult)
    ensures
        r.value == value,
        r.status == logic_status(value),
{
    proof {
        lemma_bit8_meaning(value);
    }
    let n = get_bit(value, 7);
    ByteResult {
        value,
        status: StatusUpdate {
            h: None,
            s: Some(n),
            v: Some(false),
            n: Some(n),
            z: Some(value == 0),
            c: None,
        },
    }
}

/// One's complement: `0xFF - a`, with the carry set.
pub fn com(a: u8) -> (r: ByteResult)
    ensures
        r.value == 255 - a,
        r.status == (StatusUpdate { c: Some(true), ..logic_status((255 - a) as u8) }),
{
    let res: u8 = 255 - a;
    let flags = logic(res);
    ByteResult { value: res, status: StatusUpdate { c: Some(true), ..flags.status } }
}

/// Two's complement: `0 - a`.
pub fn neg(a: u8) -> (r: ByteResult)
    ensures
        r.value == (256 - a) % 256,
        r.status == sub_status(0, a, false, false, false),
{
    let res: u8 = if a == 0 {
        0
    } else {
        (256u16 - a as u16) as u8
    };
    proof {
        lemma_bit8_meaning(a);
        lemma_bit8_meaning(res);
    }
    let h = get_bit(res, 3) || get_bit(a, 3);
    let n = get_bit(res, 7);
    let v = res == 0x80;
    ByteResult {
        value: res,
        status: StatusUpdate {
            h: Some(h),
            s: Some(n != v),
            v: Some(v),
            n: Some(n),
            z: Some(res == 0),
            c: Some(res != 0),
        },
    }
}

/// `a + 1`; the carry and the half carry stay as they are.
pub fn inc(a: u8) -> (r: ByteResult)
    ensures
        r.value == (a + 1) % 256,
        r.status == (StatusUpdate { h: None, c: None, ..add_status(a, 1, false) }),
{
    let res: u8 = if a == 255 {
        0
    } else {
        a + 1
    };
    proof {
        lemma_bit8_meaning(res);
    }
    let n = get_bit(res, 7);
    let v = res == 0x80;
    ByteResult {
        value: res,
        status: StatusUpdate {
            h: None,
            s: Some(n != v),
            v: Some(v),
            n: Some(n),
            z: Some(res == 0),
            c: None,
        },
    }
}

/// `a - 1`; the carry and the half carry stay as they are.
pub fn dec(a: u8) -> (r: ByteResult)
    ensures
        r.value == (a - 1) % 256,
        r.status == (StatusUpdate { h: None, c: None, ..sub_status(a, 1, false, false, false) }),
{
    let res: u8 = if a == 0 {
        255
    } else {
        a - 1
    };
    proof {
        lemma_bit8_meaning(res);
    }
    let n = get_bit(res, 7);
    let v = res == 0x7f;
    ByteResult {
        value: res,
        status: StatusUpdate {
            h: None,
            s: Some(n != v),
            v: Some(v),
            n: Some(n),
            z: Some(res == 0),
            c: None,
        },
    }
}

fn shifted(a: u8, top: bool) -> (r: ByteResult)
    ensures
        r.value == a / 2 + (if top {
            128int
        } else {
            0
        }),
        r.status == shift_status(r.value, a % 2 == 1),
{
    let res: u8 = a / 2 + (if top {
        128
    } else {
        0
    });
    proof {
        lemma_bit8_meaning(a);
        lemma_bit8_meaning(res);
    }
    let c = get_bit(a, 0);
    let n = get_bit(res, 7);
    let v = n != c;
    ByteResult {
        value: res,
        status: StatusUpdate {
            h: None,
            s: Some(v != n),
            v: Some(v),
            n: Some(n),
            z: Some(res == 0),
            c: Some(c),
        },
    }
}

/// Logical shift right: bit 7 becomes zero, bit 0 goes to the carry.
pub fn lsr(a: u8) -> (r: ByteResult)
    ensures
        r.value == a / 2,
        r.status == shift_status((a / 2) as u8, a % 2 == 1),
{
    shifted(a, false)
}

/// Rotate right through carry: the carry comes in at bit 7, bit 0 goes to
/// the carry.
pub fn ror(a: u8, carry: bool) -> (r: ByteResult)
    ensures
        r.value == a / 2 + 128 * carry_in(carry),
        r.status == shift_status(r.value, a % 2 == 1),
{
    shifted(a, carry)
}

/// Arithmetic shift right: bit 7 stays, bit 0 goes to the carry.
pub fn asr(a: u8) -> (r: ByteResult)
    ensures
        r.value == a / 2 + (if a >= 128 {
            128int
        } else {
            0
        }),
        r.status == shift_status(r.value, a % 2 == 1),
{
    proof {
        lemma_bit8_meaning(a);
    }
    shifted(a, get_bit(a, 7))
}

/// The two nibbles of a byte exchanged.
pub fn swap(a: u8) -> (r: u8)
    ensures
        r == (a % 16) * 16 + a / 16,
{
    (a % 16) * 16 + a / 16
}

/// `word + k` on 16 bits.
pub fn add_word(word: u16, k: u16) -> (r: WordResult)
    ensures
        r.value == (word + k) % 65536,
        r.status == add_word_status(word, k),
{
    let res: u16 = ((word as u32 + k as u32) % 65536) as u16;
    proof {
        lemma_bit15_meaning(word);
        lemma_bit15_meaning(k);
        lemma_bit15_meaning(res);
    }
    let w15 = (word >> 15) & 1 == 1;
    let k15 = (k >> 15) & 1 == 1;
    let r15 = (res >> 15) & 1 == 1;
    let v = (w15 && k15 && !r15) || (!w15 && !k15 && r15);
    let c = (w15 && k15) || (k15 && !r15) || (!r15 && w15);
    WordResult {
        value: res,
        status: StatusUpdate {
            h: None,
            s: Some(r15 != v),
            v: Some(v),
            n: Some(r15),
            z: Some(res == 0),
            c: Some(c),
        },
    }
}

/// `word - k` on 16 bits.
pub fn sub_word(word: u16, k: u16) -> (r: WordResult)
    ensures
        r.value == (word - k) % 65536,
        r.status == sub_word_status(word, k),
{
    let diff: i32 = word as i32 - k as i32;
    let res: u16 = (if diff < 0 {
        diff + 65536
    } else {
        diff
    }) as u16;
    proof {
        lemma_bit15_meaning(word);
        lemma_bit15_meaning(k);
        lemma_bit15_meaning(res);
    }
    let w15 = (word >> 15) & 1 == 1;
    let k15 = (k >> 15) & 1 == 1;
    let r15 = (res >> 15) & 1 == 1;
    let v = (w15 && !k15 && !r15) || (!w15 && k15 && r15);
    let c = (!w15 && k15) || (k15 && r15) || (r15 && !w15);
    WordResult {
        value: res,
        status: StatusUpdate {
            h: None,
            s: Some(r15 != v),
            v: Some(v),
            n: Some(r15),
            z: Some(res == 0),
            c: Some(c),
        },
    }
}

/// A byte as a factor: its value, or its two's-complement value where
/// `signed`.
pub open spec fn factor(x: u8, signed: bool) -> int {
    if signed {
        signed8(x)
    } else {
        x as int
    }
}

/// The 16-bit product of two bytes, each read as signed or unsigned; with
/// `fractional` the product is shifted left by one. The carry is bit 15 of
/// the product before the shift.
pub fn multiply(a: u8, a_signed: bool, b: u8, b_signed: bool, fractional: bool) -> (r:
    WordResult)
    ensures
        r.value == (factor(a, a_signed) * factor(b, b_signed) * (if fractional {
            2int
        } else {
            1
        })) % 65536,
        r.status == product_status(
            r.value,
            (factor(a, a_signed) * factor(b, b_signed)) % 65536 >= 32768,
        ),
{
    let fa: i32 = if a_signed && a >= 128 {
        a as i32 - 256
    } else {
        a as i32
    };
    let fb: i32 = if b_signed && b >= 128 {
        b as i32 - 256
    } else {
        b as i32
    };
    assert(-128 * 255 <= fa * fb <= 255 * 255) by (nonlinear_arith)
        requires
            -128 <= fa <= 255,
            -128 <= fb <= 255,
    ;
    let product: i32 = fa * fb;
    let low: u16 = (if product < 0 {
        product + 65536
    } else {
        product
    }) as u16;
    let carry = low >= 32768;
    let value: u16 = if fractional {
        ((low as u32 * 2) % 65536) as u16
    } else {
        low
    };
    product_result(value, carry)
}

fn product_result(value: u16, carry: bool) -> (r: WordResult)
    ensures
        r.value == value,
        r.status == product_status(value, carry),
{
    WordResult {
        value,
        status: StatusUpdate {
            h: None,
            s: None,
            v: None,
            n: None,
            z: Some(value == 0),
            c: Some(carry),
        },
    }
}

} // verus!
