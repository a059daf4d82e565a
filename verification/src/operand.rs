//! Operand values: the rule of each constraint, and operands as assembler
//! text.

use vstd::prelude::*;
use vstd::string::*;
use vstd::utf8::is_ascii_chars;
use crate::bits::{half_range, sign_extend};
use crate::constraint::Constraint;
use crate::error::Error;
use crate::text::{
    append_decimal, append_hex, append_unsigned, ascii_chars, decimal_digits, decimal_text,
    decimal_value, hex_text, hex_value, lemma_decimal_round_trip, lemma_decimal_text_ascii,
    lemma_hex_round_trip, lemma_hex_text_ascii,
    parse_decimal, parse_hex_number, without_hex_mark,
};

verus! {

/// The one representation of every operand, whether an unsigned field or a
/// sign-extended displacement.
pub type OperandValue = i64;

/// What the device description says of the I/O register that an operand
/// addresses.
#[derive(Debug)]
pub struct OperandInfo {
    pub register_name: String,
    pub register_mask: String,
    pub description: String,
}

/// One decoded field of an instruction.
#[derive(Debug)]
pub struct Operand {
    /// Empty for a valid operand; the diagnostic for one that broke the rule
    /// of its constraint.
    pub name: String,
    pub constraint: Constraint,
    pub value: OperandValue,
    pub operand_info: Option<OperandInfo>,
}

/// The details of a register as plain values.
pub struct OperandInfoView {
    pub register_name: Seq<char>,
    pub register_mask: Seq<char>,
    pub description: Seq<char>,
}

/// An operand as plain values.
pub struct OperandView {
    pub name: Seq<char>,
    pub constraint: Constraint,
    pub value: i64,
    pub operand_info: Option<OperandInfoView>,
}

impl View for OperandInfo {
    type V = OperandInfoView;

    open spec fn view(&self) -> OperandInfoView {
        OperandInfoView {
            register_name: self.register_name@,
            register_mask: self.register_mask@,
            description: self.description@,
        }
    }
}

impl View for Operand {
    type V = OperandView;

    open spec fn view(&self) -> OperandView {
        OperandView {
            name: self.name@,
            constraint: self.constraint,
            value: self.value,
            operand_info: match self.operand_info {
                Some(info) => Some(info@),
                None => None,
            },
        }
    }
}

/// The value that a field stands for under its constraint, after the
/// register bias; `None` where the field breaks the constraint's rule.
pub open spec fn checked_value(constraint: Constraint, value: u32) -> Option<i64> {
    match constraint {
        Constraint::r => if value < 32 {
            Some(value as i64)
        } else {
            None
        },
        Constraint::d => if 16 <= value < 32 {
            Some(value as i64)
        } else {
            None
        },
        Constraint::v => if value < 32 && value % 2 == 0 {
            Some(value as i64)
        } else {
            None
        },
        Constraint::a => if 16 <= value < 24 {
            Some(value as i64)
        } else {
            None
        },
        Constraint::w => if value == 24 || value == 26 || value == 28 || value == 30 {
            Some(value as i64)
        } else {
            None
        },
        Constraint::e => if value < 4 {
            Some(value as i64)
        } else {
            None
        },
        Constraint::b => if value < 2 {
            Some(value as i64)
        } else {
            None
        },
        Constraint::z => if value < 2 {
            Some(value as i64)
        } else {
            None
        },
        Constraint::M => if value < 256 {
            Some(value as i64)
        } else {
            None
        },
        Constraint::n => if value < 256 {
            Some(value as i64)
        } else {
            None
        },
        Constraint::s => if value < 8 {
            Some(value as i64)
        } else {
            None
        },
        Constraint::P => if value < 64 {
            Some(value as i64)
        } else {
            None
        },
        Constraint::p => if value < 32 {
            Some(value as i64)
        } else {
            None
        },
        Constraint::K => if value < 64 {
            Some(value as i64)
        } else {
            None
        },
        Constraint::i => Some(value as i64),
        Constraint::j => if value + 0x40 < 0xbf {
            Some((value + 0x40) as i64)
        } else {
            None
        },
        Constraint::l => if -64 <= 2 * sign_extend(value as int, 7) < 64 {
            Some((2 * sign_extend(value as int, 7)) as i64)
        } else {
            None
        },
        Constraint::L => if -2048 <= 2 * sign_extend(value as int, 12) < 2048 {
            Some((2 * sign_extend(value as int, 12)) as i64)
        } else {
            None
        },
        Constraint::h => Some(value as i64),
        Constraint::S => if value < 8 {
            Some(value as i64)
        } else {
            None
        },
        Constraint::E => if value < 16 {
            Some(value as i64)
        } else {
            None
        },
        Constraint::o => if value < 64 {
            Some(value as i64)
        } else {
            None
        },
        Constraint::c => if value < 4 {
            Some(value as i64)
        } else {
            None
        },
    }
}

/// Whether `value` is one that the rule of `constraint` lets through.
pub open spec fn in_valid_range(constraint: Constraint, value: i64) -> bool {
    exists|field: u32| checked_value(constraint, field) == Some(value)
}

/// The letter of a pointer register chosen by the selector of `ld` and `st`.
pub open spec fn pointer_e_text(value: i64) -> Seq<char> {
    if value == 3 {
        "X"@
    } else if value == 2 {
        "Y"@
    } else if value == 0 {
        "Z"@
    } else {
        "Invalid Value"@
    }
}

/// The letter of a base pointer chosen by the selector of `ldd` and `std`.
pub open spec fn pointer_b_text(value: i64) -> Seq<char> {
    if value == 0 {
        "Z"@
    } else if value == 1 {
        "Y"@
    } else {
        "Invalid Value"@
    }
}

/// The Z pointer with or without post-increment.
pub open spec fn pointer_z_text(value: i64) -> Seq<char> {
    if value == 0 {
        ""@
    } else if value == 1 {
        "Z+"@
    } else {
        "Invalid Value"@
    }
}

/// The mark of the direction in which an index register moves.
pub open spec fn direction_text(value: i64) -> Seq<char> {
    if value == 0 {
        ""@
    } else if value == 1 {
        "+"@
    } else if value == 2 {
        "-"@
    } else if value == 3 {
        "-+"@
    } else {
        "Invalid Value"@
    }
}

/// An operand value in assembler syntax.
pub open spec fn rendered(constraint: Constraint, value: i64) -> Seq<char> {
    match constraint {
        Constraint::r | Constraint::d | Constraint::v | Constraint::a | Constraint::w => seq!['r']
            + decimal_text(value as int),
        Constraint::e => pointer_e_text(value),
        Constraint::b => pointer_b_text(value),
        Constraint::z => pointer_z_text(value),
        Constraint::M
        | Constraint::n
        | Constraint::s
        | Constraint::P
        | Constraint::p
        | Constraint::K
        | Constraint::i
        | Constraint::j
        | Constraint::h
        | Constraint::S
        | Constraint::E => hex_text(value),
        Constraint::l | Constraint::L => seq!['.'] + decimal_text(value as int),
        Constraint::o => seq!['+'] + decimal_text(value as int),
        Constraint::c => direction_text(value),
    }
}

/// The selector that the first letter of `text` names, in either case.
pub open spec fn pointer_e_value(text: Seq<char>) -> Option<i64> {
    if text.len() == 0 {
        None
    } else if text[0] == 'X' || text[0] == 'x' {
        Some(3)
    } else if text[0] == 'Y' || text[0] == 'y' {
        Some(2)
    } else if text[0] == 'Z' || text[0] == 'z' {
        Some(0)
    } else {
        None
    }
}

/// The base pointer that the first letter of `text` names, in either case.
pub open spec fn pointer_b_value(text: Seq<char>) -> Option<i64> {
    if text.len() == 0 {
        None
    } else if text[0] == 'Z' || text[0] == 'z' {
        Some(0)
    } else if text[0] == 'Y' || text[0] == 'y' {
        Some(1)
    } else {
        None
    }
}

/// Zero for the empty text, one for `Z+` in either case.
pub open spec fn pointer_z_value(text: Seq<char>) -> Option<i64> {
    if text.len() == 0 {
        Some(0)
    } else if text.len() == 2 && (text[0] == 'Z' || text[0] == 'z') && text[1] == '+' {
        Some(1)
    } else {
        None
    }
}

/// The direction that a mark stands for.
pub open spec fn direction_value(text: Seq<char>) -> Option<i64> {
    if text.len() == 0 {
        Some(0)
    } else if text.len() == 1 && text[0] == '+' {
        Some(1)
    } else if text.len() == 1 && text[0] == '-' {
        Some(2)
    } else if text.len() == 2 && text[0] == '-' && text[1] == '+' {
        Some(3)
    } else {
        None
    }
}

/// The value that an operand text stands for under `constraint`. A register,
/// a relative offset and a displacement are a decimal number behind one
/// leading character, which is not looked at; an immediate is a hexadecimal
/// number behind an optional `0x`. Text that is not ASCII stands for nothing.
pub open spec fn parsed(text: Seq<char>, constraint: Constraint) -> Option<i64> {
    if !is_ascii_chars(text) {
        None
    } else {
        match constraint {
            Constraint::r
            | Constraint::d
            | Constraint::v
            | Constraint::a
            | Constraint::w
            | Constraint::l
            | Constraint::L
            | Constraint::o => if text.len() == 0 {
                None
            } else {
                decimal_value(text.skip(1))
            },
            Constraint::e => pointer_e_value(text),
            Constraint::b => pointer_b_value(text),
            Constraint::z => pointer_z_value(text),
            Constraint::M
            | Constraint::n
            | Constraint::s
            | Constraint::P
            | Constraint::p
            | Constraint::K
            | Constraint::i
            | Constraint::j
            | Constraint::h
            | Constraint::S
            | Constraint::E => hex_value(without_hex_mark(text)),
            Constraint::c => direction_value(text),
        }
    }
}

/// The rule that a field broke, as the start of a sentence that ends with
/// the offending value.
pub open spec fn rule_text(constraint: Constraint) -> Seq<char> {
    match constraint {
        Constraint::r => "r: regiter number can`t be higher than 31, got "@,
        Constraint::d => "d: ldi regiter number must be between 16 and 31, got "@,
        Constraint::v => "v: movw regiter number must be even and less 32, got "@,
        Constraint::a => "a: fmul regiter number must be between 16 and 23, got "@,
        Constraint::w => "w: adiw regiter number must 24, 26, 28 or 30, got "@,
        Constraint::e => "e: pointer register must be less than 4, got "@,
        Constraint::b => "b: base pointer register and displacement must be less that 2, got "@,
        Constraint::z => "z: Z pointer register must be less than 2, got "@,
        Constraint::M => "M: immediate Value must be between from 0 to 255, got "@,
        Constraint::n => "n: immediate Value must be between from 0 to 255, got "@,
        Constraint::s => "s: immediate Value must be between from 0 to 7, got "@,
        Constraint::P => "P: Port address Value must be between from 0 to 63., got "@,
        Constraint::p => "p: Port address Value must be between from 0 to 31, got "@,
        Constraint::K => "K: immediate Value must be between from 0 to 63, got "@,
        Constraint::i => "M: immediate Value, got "@,
        Constraint::j => "j: 7 bit immediate Value that must be between from 0x40 to 0xBF, got "@,
        Constraint::l => "l: signed pc relative offset must be between  -64 to 63, got "@,
        Constraint::L => "l: signed pc relative offset must be between  -2048 to 2047, got "@,
        Constraint::h => "h: absolute code address, got "@,
        Constraint::S => "S: immediate Value must be between from 0 to 7, got "@,
        Constraint::E => "E: immediate Value must be between from 0 to 15, got "@,
        Constraint::o => "o: Displacement value must be between 0 and 63, got "@,
        Constraint::c => "c: index direction must be less than 4, got "@,
    }
}

/// The number that the diagnostic shows: the field, with the offset of the
/// constraint `j` added.
pub open spec fn shown_value(constraint: Constraint, value: u32) -> nat {
    if constraint == Constraint::j {
        (value + 0x40) as nat
    } else {
        value as nat
    }
}

/// The sentence that says which rule a field broke.
pub open spec fn violation_text(constraint: Constraint, value: u32) -> Seq<char> {
    rule_text(constraint) + decimal_digits(shown_value(constraint, value))
}

proof fn lemma_half_range_step(len: nat)
    requires
        len >= 1,
    ensures
        half_range(len + 1) == 2 * half_range(len),
        half_range(len) >= 1,
    decreases len,
{
    if len > 1 {
        lemma_half_range_step((len - 1) as nat);
    }
}

proof fn lemma_half_range_bound(len: nat)
    requires
        1 <= len <= 32,
    ensures
        1 <= half_range(len) <= 0x8000_0000,
    decreases 32 - len,
{
    lemma_half_range_step(len);
    if len < 32 {
        lemma_half_range_bound(len + 1);
    } else {
        assert(half_range(32) == 0x8000_0000) by {
            reveal_with_fuel(half_range, 33);
        }
    }
}

proof fn lemma_half_range_values()
    ensures
        half_range(7) == 64,
        half_range(12) == 2048,
{
    reveal_with_fuel(half_range, 13);
}

impl Operand {
    /// An operand of the given constraint and value, without diagnostic and
    /// without register details.
    pub fn new(constraint: Constraint, value: OperandValue) -> (r: Operand)
        ensures
            r@ == (OperandView {
                name: Seq::empty(),
                constraint,
                value,
                operand_info: None,
            }),
    {
        Operand { name: String::new(), constraint, value, operand_info: None }
    }

    /// A copy of this operand.
    pub fn duplicate(&self) -> (r: Operand)
        ensures
            r@ == self@,
    {
        let info = match &self.operand_info {
            Some(i) => Some(
                OperandInfo {
                    register_name: i.register_name.clone(),
                    register_mask: i.register_mask.clone(),
                    description: i.description.clone(),
                },
            ),
            None => None,
        };
        Operand {
            name: self.name.clone(),
            constraint: self.constraint,
            value: self.value,
            operand_info: info,
        }
    }

    /// Checks a biased field against the rule of its constraint and gives
    /// the value it stands for. The two relative offsets are sign-extended
    /// from 7 and 12 bits and doubled before the check.
    pub fn map_value(value: u32, constraint: Constraint) -> (r: Result<OperandValue, Error>)
        ensures
            r == (match checked_value(constraint, value) {
                Some(v) => Ok::<i64, Error>(v),
                None => Err(Error::InvalidConstraintValue { constraint, value, address: 0 }),
            }),
    {
        proof {
            lemma_half_range_values();
        }
        let wide: i64 = value as i64;
        let accepted: Option<i64> = match constraint {
            Constraint::r => if value < 32 {
                Some(wide)
            } else {
                None
            },
            Constraint::d => if value > 15 && value < 32 {
                Some(wide)
            } else {
                None
            },
            Constraint::v => if value < 32 && value % 2 == 0 {
                Some(wide)
            } else {
                None
            },
            Constraint::a => if value > 15 && value < 24 {
                Some(wide)
            } else {
                None
            },
            Constraint::w => if value == 24 || value == 26 || value == 28 || value == 30 {
                Some(wide)
            } else {
                None
            },
            Constraint::e => if value < 4 {
                Some(wide)
            } else {
                None
            },
            Constraint::b => if value < 2 {
                Some(wide)
            } else {
                None
            },
            Constraint::z => if value < 2 {
                Some(wide)
            } else {
                None
            },
            Constraint::M => if value < 256 {
                Some(wide)
            } else {
                None
            },
            Constraint::n => if value < 256 {
                Some(wide)
            } else {
                None
            },
            Constraint::s => if value < 8 {
                Some(wide)
            } else {
                None
            },
            Constraint::P => if value < 64 {
                Some(wide)
            } else {
                None
            },
            Constraint::p => if value < 32 {
                Some(wide)
            } else {
                None
            },
            Constraint::K => if value < 64 {
                Some(wide)
            } else {
                None
            },
            Constraint::i => Some(wide),
            Constraint::j => if wide + 0x40 < 0xbf {
                Some(wide + 0x40)
            } else {
                None
            },
            Constraint::l => {
                let t: i64 = 2 * (if wide < 64 {
                    wide
                } else {
                    wide - 128
                });
                if t >= -64 && t < 64 {
                    Some(t)
                } else {
                    None
                }
            },
            Constraint::L => {
                let t: i64 = 2 * (if wide < 2048 {
                    wide
                } else {
                    wide - 4096
                });
                if t >= -2048 && t < 2048 {
                    Some(t)
                } else {
                    None
                }
            },
            Constraint::h => Some(wide),
            Constraint::S => if value < 8 {
                Some(wide)
            } else {
                None
            },
            Constraint::E => if value < 16 {
                Some(wide)
            } else {
                None
            },
            Constraint::o => if value < 64 {
                Some(wide)
            } else {
                None
            },
            Constraint::c => if value < 4 {
                Some(wide)
            } else {
                None
            },
        };
        match accepted {
            Some(v) => Ok(v),
            None => Err(Error::InvalidConstraintValue { constraint, value, address: 0 }),
        }
    }

    /// Reads a field of `len` bits as a two's-complement number.
    pub fn unsigned_to_signed(val: u32, len: u32) -> (r: i32)
        requires
            1 <= len <= 32,
            val < 2 * half_range(len as nat),
        ensures
            r == sign_extend(val as int, len as nat),
    {
        let mut half: u64 = 1;
        let mut k: u32 = 1;
        while k < len
            invariant
                1 <= k <= len <= 32,
                half == half_range(k as nat),
                half <= 0x8000_0000,
            decreases len - k,
        {
            proof {
                lemma_half_range_step(k as nat);
                lemma_half_range_bound((k + 1) as nat);
            }
            half = half * 2;
            k = k + 1;
        }
        if (val as u64) < half {
            val as i32
        } else {
            (val as i64 - 2 * (half as i64)) as i32
        }
    }

    /// Reads an operand from assembler text.
    pub fn map_value_from_string(value: &String, constraint: Constraint) -> (r: Result<
        OperandValue,
        Error,
    >)
        ensures
            r == (match parsed(value@, constraint) {
                Some(v) => Ok::<i64, Error>(v),
                None => Err(Error::InvalidValue),
            }),
    {
        let found: Option<i64> = match ascii_chars(value.as_str()) {
            None => None,
            Some(chars) => match constraint {
                Constraint::r
                | Constraint::d
                | Constraint::v
                | Constraint::a
                | Constraint::w
                | Constraint::l
                | Constraint::L
                | Constraint::o => if chars.len() == 0 {
                    None
                } else {
                    parse_decimal(&chars, 1)
                },
                Constraint::e => letter_e(&chars),
                Constraint::b => letter_b(&chars),
                Constraint::z => letter_z(&chars),
                Constraint::M
                | Constraint::n
                | Constraint::s
                | Constraint::P
                | Constraint::p
                | Constraint::K
                | Constraint::i
                | Constraint::j
                | Constraint::h
                | Constraint::S
                | Constraint::E => {
                    if chars.len() >= 2 && chars[0] == '0' && (chars[1] == 'x' || chars[1]
                        == 'X') {
                        parse_hex_number(&chars, 2)
                    } else {
                        assert(chars@.skip(0) =~= chars@);
                        parse_hex_number(&chars, 0)
                    }
                },
                Constraint::c => direction_of(&chars),
            },
        };
        match found {
            Some(v) => Ok(v),
            None => Err(Error::InvalidValue),
        }
    }

    /// Writes the operand's value in assembler syntax.
    pub fn map_string_from_value(&self) -> (r: Result<String, Error>)
        ensures
            r is Ok,
            r.unwrap()@ == rendered(self.constraint, self.value),
    {
        let mut out = String::new();
        append_rendered(&mut out, self.constraint, self.value);
        assert(out@ =~= rendered(self.constraint, self.value));
        Ok(out)
    }

    /// The operand as it stands in a listing: the diagnostic, if there is
    /// one, and then the value in assembler syntax.
    pub fn to_text(&self) -> (r: String)
        ensures
            r@ == self.name@ + rendered(self.constraint, self.value),
    {
        let mut out = self.name.clone();
        append_rendered(&mut out, self.constraint, self.value);
        out
    }
}

/// Appends an operand value in assembler syntax.
pub fn append_rendered(out: &mut String, constraint: Constraint, value: OperandValue)
    ensures
        final(out)@ == old(out)@ + rendered(constraint, value),
{
    match constraint {
        Constraint::r | Constraint::d | Constraint::v | Constraint::a | Constraint::w => {
            proof {
                reveal_strlit("r");
            }
            out.append("r");
            append_decimal(out, value);
            assert(final(out)@ =~= old(out)@ + (seq!['r'] + decimal_text(value as int)));
        },
        Constraint::e => {
            let text = match constraint_e_into_pointer(value) {
                Ok(t) => t,
                Err(_) => String::new(),
            };
            out.append(text.as_str());
        },
        Constraint::b => {
            let text = match constraint_b_into_pointer(value) {
                Ok(t) => t,
                Err(_) => String::new(),
            };
            out.append(text.as_str());
        },
        Constraint::z => {
            let text = match constraint_z_into_pointer(value) {
                Ok(t) => t,
                Err(_) => String::new(),
            };
            out.append(text.as_str());
        },
        Constraint::M
        | Constraint::n
        | Constraint::s
        | Constraint::P
        | Constraint::p
        | Constraint::K
        | Constraint::i
        | Constraint::j
        | Constraint::h
        | Constraint::S
        | Constraint::E => {
            append_hex(out, value);
        },
        Constraint::l | Constraint::L => {
            proof {
                reveal_strlit(".");
            }
            out.append(".");
            append_decimal(out, value);
            assert(final(out)@ =~= old(out)@ + (seq!['.'] + decimal_text(value as int)));
        },
        Constraint::o => {
            proof {
                reveal_strlit("+");
            }
            out.append("+");
            append_decimal(out, value);
            assert(final(out)@ =~= old(out)@ + (seq!['+'] + decimal_text(value as int)));
        },
        Constraint::c => {
            let text = direction_mark(value);
            out.append(text);
        },
    }
}

/// The letter of the pointer register that a selector of `ld` and `st`
/// chooses.
pub fn constraint_e_into_pointer(val: OperandValue) -> (r: Result<String, Error>)
    ensures
        r is Ok,
        r.unwrap()@ == pointer_e_text(val),
{
    let text = if val == 3 {
        "X"
    } else if val == 2 {
        "Y"
    } else if val == 0 {
        "Z"
    } else {
        "Invalid Value"
    };
    Ok(String::from_str(text))
}

/// The letter of the base pointer that a selector of `ldd` and `std`
/// chooses.
pub fn constraint_b_into_pointer(val: OperandValue) -> (r: Result<String, Error>)
    ensures
        r is Ok,
        r.unwrap()@ == pointer_b_text(val),
{
    let text = if val == 0 {
        "Z"
    } else if val == 1 {
        "Y"
    } else {
        "Invalid Value"
    };
    Ok(String::from_str(text))
}

/// The Z pointer as `lpm` and `elpm` write it: nothing without
/// post-increment, `Z+` with it.
pub fn constraint_z_into_pointer(val: OperandValue) -> (r: Result<String, Error>)
    ensures
        r is Ok,
        r.unwrap()@ == pointer_z_text(val),
{
    let text = if val == 0 {
        ""
    } else if val == 1 {
        "Z+"
    } else {
        "Invalid Value"
    };
    Ok(String::from_str(text))
}

/// The mark of a direction.
pub fn direction_mark(val: OperandValue) -> (r: &'static str)
    ensures
        r@ == direction_text(val),
{
    if val == 0 {
        ""
    } else if val == 1 {
        "+"
    } else if val == 2 {
        "-"
    } else if val == 3 {
        "-+"
    } else {
        "Invalid Value"
    }
}

fn letter_e(chars: &Vec<char>) -> (r: Option<i64>)
    ensures
        r == pointer_e_value(chars@),
{
    if chars.len() == 0 {
        None
    } else if chars[0] == 'X' || chars[0] == 'x' {
        Some(3)
    } else if chars[0] == 'Y' || chars[0] == 'y' {
        Some(2)
    } else if chars[0] == 'Z' || chars[0] == 'z' {
        Some(0)
    } else {
        None
    }
}

fn letter_b(chars: &Vec<char>) -> (r: Option<i64>)
    ensures
        r == pointer_b_value(chars@),
{
    if chars.len() == 0 {
        None
    } else if chars[0] == 'Z' || chars[0] == 'z' {
        Some(0)
    } else if chars[0] == 'Y' || chars[0] == 'y' {
        Some(1)
    } else {
        None
    }
}

fn letter_z(chars: &Vec<char>) -> (r: Option<i64>)
    ensures
        r == pointer_z_value(chars@),
{
    if chars.len() == 0 {
        Some(0)
    } else if chars.len() == 2 && (chars[0] == 'Z' || chars[0] == 'z') && chars[1] == '+' {
        Some(1)
    } else {
        None
    }
}

fn direction_of(chars: &Vec<char>) -> (r: Option<i64>)
    ensures
        r == direction_value(chars@),
{
    if chars.len() == 0 {
        Some(0)
    } else if chars.len() == 1 && chars[0] == '+' {
        Some(1)
    } else if chars.len() == 1 && chars[0] == '-' {
        Some(2)
    } else if chars.len() == 2 && chars[0] == '-' && chars[1] == '+' {
        Some(3)
    } else {
        None
    }
}

fn found_or_invalid(found: Option<i64>) -> (r: Result<OperandValue, Error>)
    ensures
        r == (match found {
            Some(v) => Ok::<i64, Error>(v),
            None => Err(Error::InvalidValue),
        }),
{
    match found {
        Some(v) => Ok(v),
        None => Err(Error::InvalidValue),
    }
}

/// The selector of `ld` and `st` that a pointer's letter stands for: 3 for
/// X, 2 for Y, 0 for Z.
pub fn pointer_into_constraint_e(val: &str) -> (r: Result<OperandValue, Error>)
    ensures
        r == (match parsed(val@, Constraint::e) {
            Some(v) => Ok::<i64, Error>(v),
            None => Err(Error::InvalidValue),
        }),
{
    match ascii_chars(val) {
        Some(chars) => found_or_invalid(letter_e(&chars)),
        None => Err(Error::InvalidValue),
    }
}

/// The selector of `ldd` and `std` that a base pointer's letter stands for:
/// 0 for Z, 1 for Y.
pub fn pointer_into_constraint_b(val: &str) -> (r: Result<OperandValue, Error>)
    ensures
        r == (match parsed(val@, Constraint::b) {
            Some(v) => Ok::<i64, Error>(v),
            None => Err(Error::InvalidValue),
        }),
{
    match ascii_chars(val) {
        Some(chars) => found_or_invalid(letter_b(&chars)),
        None => Err(Error::InvalidValue),
    }
}

/// Whether the Z pointer is written with post-increment: 0 for the empty
/// text, 1 for `Z+`.
pub fn pointer_into_constraint_z(val: &str) -> (r: Result<OperandValue, Error>)
    ensures
        r == (match parsed(val@, Constraint::z) {
            Some(v) => Ok::<i64, Error>(v),
            None => Err(Error::InvalidValue),
        }),
{
    match ascii_chars(val) {
        Some(chars) => found_or_invalid(letter_z(&chars)),
        None => Err(Error::InvalidValue),
    }
}

/// The sentence that says which rule a field broke.
pub fn constraint_violation_text(constraint: Constraint, value: u32) -> (r: String)
    ensures
        r@ == violation_text(constraint, value),
{
    let rule = match constraint {
        Constraint::r => "r: regiter number can`t be higher than 31, got ",
        Constraint::d => "d: ldi regiter number must be between 16 and 31, got ",
        Constraint::v => "v: movw regiter number must be even and less 32, got ",
        Constraint::a => "a: fmul regiter number must be between 16 and 23, got ",
        Constraint::w => "w: adiw regiter number must 24, 26, 28 or 30, got ",
        Constraint::e => "e: pointer register must be less than 4, got ",
        Constraint::b => "b: base pointer register and displacement must be less that 2, got ",
        Constraint::z => "z: Z pointer register must be less than 2, got ",
        Constraint::M => "M: immediate Value must be between from 0 to 255, got ",
        Constraint::n => "n: immediate Value must be between from 0 to 255, got ",
        Constraint::s => "s: immediate Value must be between from 0 to 7, got ",
        Constraint::P => "P: Port address Value must be between from 0 to 63., got ",
        Constraint::p => "p: Port address Value must be between from 0 to 31, got ",
        Constraint::K => "K: immediate Value must be between from 0 to 63, got ",
        Constraint::i => "M: immediate Value, got ",
        Constraint::j => "j: 7 bit immediate Value that must be between from 0x40 to 0xBF, got ",
        Constraint::l => "l: signed pc relative offset must be between  -64 to 63, got ",
        Constraint::L => "l: signed pc relative offset must be between  -2048 to 2047, got ",
        Constraint::h => "h: absolute code address, got ",
        Constraint::S => "S: immediate Value must be between from 0 to 7, got ",
        Constraint::E => "E: immediate Value must be between from 0 to 15, got ",
        Constraint::o => "o: Displacement value must be between 0 and 63, got ",
        Constraint::c => "c: index direction must be less than 4, got ",
    };
    let mut out = String::from_str(rule);
    let shown: u64 = match constraint {
        Constraint::j => value as u64 + 0x40,
        _ => value as u64,
    };
    append_unsigned(&mut out, shown);
    out
}

proof fn lemma_literal_texts()
    ensures
        "X"@ == seq!['X'],
        "Y"@ == seq!['Y'],
        "Z"@ == seq!['Z'],
        ""@ == Seq::<char>::empty(),
        "Z+"@ == seq!['Z', '+'],
        "+"@ == seq!['+'],
        "-"@ == seq!['-'],
        "-+"@ == seq!['-', '+'],
{
    reveal_strlit("X");
    reveal_strlit("Y");
    reveal_strlit("Z");
    reveal_strlit("");
    reveal_strlit("Z+");
    reveal_strlit("+");
    reveal_strlit("-");
    reveal_strlit("-+");
    assert("X"@ =~= seq!['X']);
    assert("Y"@ =~= seq!['Y']);
    assert("Z"@ =~= seq!['Z']);
    assert(""@ =~= Seq::<char>::empty());
    assert("Z+"@ =~= seq!['Z', '+']);
    assert("+"@ =~= seq!['+']);
    assert("-"@ =~= seq!['-']);
    assert("-+"@ =~= seq!['-', '+']);
}

/// Writing an operand value and reading the text back gives the value: for
/// every constraint and every value that the constraint's rule lets through,
/// but for the pointer selector 1, which names no register.
pub proof fn lemma_render_parse_round_trip(constraint: Constraint, value: i64)
    requires
        in_valid_range(constraint, value),
        !(constraint == Constraint::e && value == 1),
    ensures
        parsed(rendered(constraint, value), constraint) == Some(value),
{
    let field = choose|field: u32| checked_value(constraint, field) == Some(value);
    let text = rendered(constraint, value);
    lemma_literal_texts();
    match constraint {
        Constraint::r | Constraint::d | Constraint::v | Constraint::a | Constraint::w => {
            lemma_decimal_round_trip(value);
            lemma_decimal_text_ascii(value as int);
            assert(text.skip(1) =~= decimal_text(value as int));
        },
        Constraint::l | Constraint::L | Constraint::o => {
            lemma_decimal_round_trip(value);
            lemma_decimal_text_ascii(value as int);
            assert(text.skip(1) =~= decimal_text(value as int));
        },
        Constraint::e | Constraint::b | Constraint::z | Constraint::c => {},
        _ => {
            assert(value >= 0);
            lemma_hex_round_trip(value);
            lemma_hex_text_ascii(value);
        },
    }
}

} // verus!
