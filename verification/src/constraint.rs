//! The addressing-mode tags that govern an operand's range and encoding.

use vstd::prelude::*;

verus! {

/// The class of an operand field. The one-letter names are the ones the AVR
/// opcode tables use.
#[derive(Clone, Copy, Debug, PartialEq, Eq, Structural, Hash)]
#[allow(non_camel_case_types)]
pub enum Constraint {
    /// any register
    r,
    /// `ldi` register (r16-r31)
    d,
    /// `movw` even register (r0, r2, ..., r28, r30)
    v,
    /// `fmul` register (r16-r23)
    a,
    /// `adiw` register (r24, r26, r28, r30)
    w,
    /// pointer register (X, Y, Z)
    e,
    /// base pointer register (Y, Z)
    b,
    /// Z pointer register increment
    z,
    /// immediate value from 0 to 255
    M,
    /// immediate value from 0 to 255 (n = ~M)
    n,
    /// immediate value from 0 to 7
    s,
    /// port address from 0 to 63 (in, out)
    P,
    /// port address from 0 to 31 (cbi, sbi, sbic, sbis)
    p,
    /// immediate value from 0 to 63 (adiw, sbiw)
    K,
    /// immediate value
    i,
    /// 7-bit immediate value from 0x40 to 0xBF (16-bit lds/sts)
    j,
    /// signed pc relative offset from -64 to 63
    l,
    /// signed pc relative offset from -2048 to 2047
    L,
    /// absolute code address (call, jmp)
    h,
    /// immediate value from 0 to 7 (S = s << 4)
    S,
    /// immediate value from 0 to 15, shifted left by 4 (des)
    E,
    /// displacement from 0 to 63 (std, ldd)
    o,
    /// direction in which an index register moves: none, post-increment or
    /// pre-decrement
    c,
}

impl Constraint {
    /// The constraint that a letter of the opcode table names.
    pub open spec fn of_letter(letter: char) -> Option<Constraint> {
        if letter == 'r' {
            Some(Constraint::r)
        } else if letter == 'd' {
            Some(Constraint::d)
        } else if letter == 'v' {
            Some(Constraint::v)
        } else if letter == 'a' {
            Some(Constraint::a)
        } else if letter == 'w' {
            Some(Constraint::w)
        } else if letter == 'e' {
            Some(Constraint::e)
        } else if letter == 'b' {
            Some(Constraint::b)
        } else if letter == 'z' {
            Some(Constraint::z)
        } else if letter == 'M' {
            Some(Constraint::M)
        } else if letter == 'n' {
            Some(Constraint::n)
        } else if letter == 's' {
            Some(Constraint::s)
        } else if letter == 'P' {
            Some(Constraint::P)
        } else if letter == 'p' {
            Some(Constraint::p)
        } else if letter == 'K' {
            Some(Constraint::K)
        } else if letter == 'i' {
            Some(Constraint::i)
        } else if letter == 'j' {
            Some(Constraint::j)
        } else if letter == 'l' {
            Some(Constraint::l)
        } else if letter == 'L' {
            Some(Constraint::L)
        } else if letter == 'h' {
            Some(Constraint::h)
        } else if letter == 'S' {
            Some(Constraint::S)
        } else if letter == 'E' {
            Some(Constraint::E)
        } else if letter == 'o' {
            Some(Constraint::o)
        } else if letter == 'c' {
            Some(Constraint::c)
        } else {
            None
        }
    }

    /// The letter that names this constraint in the opcode table.
    pub open spec fn letter_of(self) -> char {
        match self {
            Constraint::r => 'r',
            Constraint::d => 'd',
            Constraint::v => 'v',
            Constraint::a => 'a',
            Constraint::w => 'w',
            Constraint::e => 'e',
            Constraint::b => 'b',
            Constraint::z => 'z',
            Constraint::M => 'M',
            Constraint::n => 'n',
            Constraint::s => 's',
            Constraint::P => 'P',
            Constraint::p => 'p',
            Constraint::K => 'K',
            Constraint::i => 'i',
            Constraint::j => 'j',
            Constraint::l => 'l',
            Constraint::L => 'L',
            Constraint::h => 'h',
            Constraint::S => 'S',
            Constraint::E => 'E',
            Constraint::o => 'o',
            Constraint::c => 'c',
        }
    }

    /// Reads a constraint from its letter; `None` for any other character.
    pub fn from_char(letter: char) -> (r: Option<Constraint>)
        ensures
            r == Self::of_letter(letter),
    {
        if letter == 'r' {
            Some(Constraint::r)
        } else if letter == 'd' {
            Some(Constraint::d)
        } else if letter == 'v' {
            Some(Constraint::v)
        } else if letter == 'a' {
            Some(Constraint::a)
        } else if letter == 'w' {
            Some(Constraint::w)
        } else if letter == 'e' {
            Some(Constraint::e)
        } else if letter == 'b' {
            Some(Constraint::b)
        } else if letter == 'z' {
            Some(Constraint::z)
        } else if letter == 'M' {
            Some(Constraint::M)
        } else if letter == 'n' {
            Some(Constraint::n)
        } else if letter == 's' {
            Some(Constraint::s)
        } else if letter == 'P' {
            Some(Constraint::P)
        } else if letter == 'p' {
            Some(Constraint::p)
        } else if letter == 'K' {
            Some(Constraint::K)
        } else if letter == 'i' {
            Some(Constraint::i)
        } else if letter == 'j' {
            Some(Constraint::j)
        } else if letter == 'l' {
            Some(Constraint::l)
        } else if letter == 'L' {
            Some(Constraint::L)
        } else if letter == 'h' {
            Some(Constraint::h)
        } else if letter == 'S' {
            Some(Constraint::S)
        } else if letter == 'E' {
            Some(Constraint::E)
        } else if letter == 'o' {
            Some(Constraint::o)
        } else if letter == 'c' {
            Some(Constraint::c)
        } else {
            None
        }
    }

    /// The letter of this constraint.
    pub fn to_char(self) -> (r: char)
        ensures
            r == self.letter_of(),
            Self::of_letter(r) == Some(self),
    {
        match self {
            Constraint::r => 'r',
            Constraint::d => 'd',
            Constraint::v => 'v',
            Constraint::a => 'a',
            Constraint::w => 'w',
            Constraint::e => 'e',
            Constraint::b => 'b',
            Constraint::z => 'z',
            Constraint::M => 'M',
            Constraint::n => 'n',
            Constraint::s => 's',
            Constraint::P => 'P',
            Constraint::p => 'p',
            Constraint::K => 'K',
            Constraint::i => 'i',
            Constraint::j => 'j',
            Constraint::l => 'l',
            Constraint::L => 'L',
            Constraint::h => 'h',
            Constraint::S => 'S',
            Constraint::E => 'E',
            Constraint::o => 'o',
            Constraint::c => 'c',
        }
    }
}

} // verus!
