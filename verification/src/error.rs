//! What can go wrong while decoding, loading or executing.

use vstd::prelude::*;
use vstd::string::*;
use crate::bin_expr::ValueKind;
use crate::constraint::Constraint;
use crate::opcode::Opcode;
use crate::operand::{constraint_violation_text, violation_text};
use crate::register::CommonRegister;
use crate::text::{
    append_decimal, append_hex, append_unsigned, decimal_digits, decimal_text, hex_text,
};

verus! {

/// The errors of the library.
#[derive(Clone, Copy, Debug, PartialEq, Eq, Structural)]
#[allow(inconsistent_fields)]
pub enum Error {
    /// No entry of the opcode table matches this raw encoding.
    OpcodeNotFound { opcode: u32 },
    /// No instruction, real or synthetic, has this identity.
    UnknownInstruction { id: usize },
    /// An operand field broke the rule of its constraint.
    InvalidConstraintValue { constraint: Constraint, value: u32, address: u32 },
    /// An instruction was put together from the wrong number of operands.
    InvalidOperandCount { expected: usize, got: usize },
    /// A text that is no operand of the constraint asked for.
    InvalidValue,
    /// A record of a type that the hex format does not have.
    InvalidRecordType { record_type: u8 },
    /// A record of a type that the loader does not handle (3, 4 or 5).
    NotImplemented { record_type: u8 },
    /// A line of a hex image that does not begin with a colon.
    MissingStartCode { line: usize },
    /// A line of a hex image that is cut short or holds a character that is
    /// no hexadecimal digit.
    MalformedRecord { line: usize },
    /// A line of a hex image whose checksum is wrong.
    ChecksumMismatch { line: usize },
    /// An index outside the flash or the data space.
    InvalidAddress { address: u64 },
    /// A jump or branch whose target is no word of the program space. It
    /// holds the operand that gave the target.
    InvalidTarget { target: i64 },
    /// An operand that names no register of the register file.
    InvalidRegister { index: i64 },
    /// A special register that the device does not have.
    MissingRegister { register: CommonRegister },
    /// An instruction that the engine does not execute.
    UnsupportedInstruction { name: Opcode },
    /// A placeholder of the flash array was fetched.
    NotExecutable { id: usize },
    /// The device description lacks an address space or a memory segment, or
    /// gives it a size that does not fit.
    InvalidDevice,
    /// A device name that the device list does not hold.
    InvalidMcu,
    /// An instruction that the core in question does not have, or has no
    /// timing for.
    NotOnThisCore,
    /// A bit expression names an operand that is not bound.
    UnboundOperand,
    /// A bit expression combines a byte with a bit, or takes a bit of what
    /// is no byte, or a bit above bit 7.
    WrongWidth,
    /// A text that is no bit expression.
    InvalidExpression,
    /// A value was read as a kind that it is not.
    InvalidReadError { current: ValueKind, expected: ValueKind },
}

/// The name of a special register.
pub open spec fn register_name(register: CommonRegister) -> Seq<char> {
    match register {
        CommonRegister::Sreg => "SREG"@,
        CommonRegister::Spl => "SPL"@,
        CommonRegister::Sph => "SPH"@,
        CommonRegister::Eind => "EIND"@,
        CommonRegister::Rampx => "RAMPX"@,
        CommonRegister::Rampy => "RAMPY"@,
        CommonRegister::Rampz => "RAMPZ"@,
        CommonRegister::Rampd => "RAMPD"@,
        CommonRegister::Mcucr => "MCUCR"@,
    }
}

/// What an error says.
pub open spec fn message_text(error: Error) -> Seq<char> {
    match error {
        Error::OpcodeNotFound { opcode } => "OpcodeNotFound found: "@ + decimal_digits(
            opcode as nat,
        ),
        Error::UnknownInstruction { id } => "Opcode "@ + decimal_digits(id as nat) + " not found"@,
        Error::InvalidConstraintValue { constraint, value, address } =>
            "constraint Requirements not met: "@ + violation_text(constraint, value)
            + " at address "@ + hex_text(address as i64),
        Error::InvalidOperandCount { expected, got } => "Invaild operand count expected:"@
            + decimal_digits(expected as nat) + ", instead got:"@ + decimal_digits(got as nat),
        Error::InvalidValue => "Invalid Value"@,
        Error::InvalidRecordType { record_type } =>
            "invalid record type must be between 0 and 5 instead got: "@ + decimal_digits(
            record_type as nat,
        ),
        Error::NotImplemented { record_type } => "function not implemented: record type "@
            + decimal_digits(record_type as nat) + " not implemented"@,
        Error::MissingStartCode { line } =>
            "file should start with \":\" as in intel hex on line: "@ + decimal_digits(
            line as nat,
        ),
        Error::MalformedRecord { line } => "file holds no record on line: "@ + decimal_digits(
            line as nat,
        ),
        Error::ChecksumMismatch { line } => "file checksum does not match on line: "@
            + decimal_digits(line as nat),
        Error::InvalidAddress { address } => "invalid address:"@ + decimal_digits(address as nat),
        Error::InvalidTarget { target } => "invalid jump target:"@ + decimal_text(target as int),
        Error::InvalidRegister { index } => "invalid reg index:"@ + decimal_text(index as int),
        Error::MissingRegister { register } => "could not get common regs: "@ + register_name(
            register,
        ),
        Error::UnsupportedInstruction { name } => "not implemented"@,
        Error::NotExecutable { id } => "this should not execute: "@ + decimal_digits(id as nat),
        Error::InvalidDevice => "invalid device description"@,
        Error::InvalidMcu => "Invalid mcu"@,
        Error::NotOnThisCore => "not supperted on this core"@,
        Error::UnboundOperand => "operand not bound"@,
        Error::WrongWidth => "operand of the wrong width"@,
        Error::InvalidExpression => "unexpected token in expression"@,
        Error::InvalidReadError { current, expected } => "invalid read: trying to read "@
            + kind_name(expected) + " from "@ + kind_name(current),
    }
}

/// The name of a kind of value.
pub open spec fn kind_name(kind: ValueKind) -> Seq<char> {
    match kind {
        ValueKind::Byte => "byte"@,
        ValueKind::Bit => "bit"@,
    }
}

impl Error {
    /// What the error says.
    pub fn message(&self) -> (r: String)
        ensures
            r@ == message_text(*self),
    {
        match *self {
            Error::OpcodeNotFound { opcode } => {
                let mut out = String::from_str("OpcodeNotFound found: ");
                append_unsigned(&mut out, opcode as u64);
                out
            },
            Error::UnknownInstruction { id } => {
                let mut out = String::from_str("Opcode ");
                append_unsigned(&mut out, id as u64);
                out.append(" not found");
                out
            },
            Error::InvalidConstraintValue { constraint, value, address } => {
                let mut out = String::from_str("constraint Requirements not met: ");
                let rule = constraint_violation_text(constraint, value);
                out.append(rule.as_str());
                out.append(" at address ");
                append_hex(&mut out, address as i64);
                out
            },
            Error::InvalidOperandCount { expected, got } => {
                let mut out = String::from_str("Invaild operand count expected:");
                append_unsigned(&mut out, expected as u64);
                out.append(", instead got:");
                append_unsigned(&mut out, got as u64);
                out
            },
            Error::InvalidValue => String::from_str("Invalid Value"),
            Error::InvalidRecordType { record_type } => {
                let mut out = String::from_str(
                    "invalid record type must be between 0 and 5 instead got: ",
                );
                append_unsigned(&mut out, record_type as u64);
                out
            },
            Error::NotImplemented { record_type } => {
                let mut out = String::from_str("function not implemented: record type ");
                append_unsigned(&mut out, record_type as u64);
                out.append(" not implemented");
                out
            },
            Error::MissingStartCode { line } => {
                let mut out = String::from_str(
                    "file should start with \":\" as in intel hex on line: ",
                );
                append_unsigned(&mut out, line as u64);
                out
            },
            Error::MalformedRecord { line } => {
                let mut out = String::from_str("file holds no record on line: ");
                append_unsigned(&mut out, line as u64);
                out
            },
            Error::ChecksumMismatch { line } => {
                let mut out = String::from_str("file checksum does not match on line: ");
                append_unsigned(&mut out, line as u64);
                out
            },
            Error::InvalidAddress { address } => {
                let mut out = String::from_str("invalid address:");
                append_unsigned(&mut out, address);
                out
            },
            Error::InvalidTarget { target } => {
                let mut out = String::from_str("invalid jump target:");
                append_decimal(&mut out, target);
                out
            },
            Error::InvalidRegister { index } => {
                let mut out = String::from_str("invalid reg index:");
                append_decimal(&mut out, index);
                out
            },
            Error::MissingRegister { register } => {
                let mut out = String::from_str("could not get common regs: ");
                let name = match register {
                    CommonRegister::Sreg => "SREG",
                    CommonRegister::Spl => "SPL",
                    CommonRegister::Sph => "SPH",
                    CommonRegister::Eind => "EIND",
                    CommonRegister::Rampx => "RAMPX",
                    CommonRegister::Rampy => "RAMPY",
                    CommonRegister::Rampz => "RAMPZ",
                    CommonRegister::Rampd => "RAMPD",
                    CommonRegister::Mcucr => "MCUCR",
                };
                out.append(name);
                out
            },
            Error::UnsupportedInstruction { name } => String::from_str("not implemented"),
            Error::NotExecutable { id } => {
                let mut out = String::from_str("this should not execute: ");
                append_unsigned(&mut out, id as u64);
                out
            },
            Error::InvalidDevice => String::from_str("invalid device description"),
            Error::InvalidMcu => String::from_str("Invalid mcu"),
            Error::NotOnThisCore => String::from_str("not supperted on this core"),
            Error::UnboundOperand => String::from_str("operand not bound"),
            Error::WrongWidth => String::from_str("operand of the wrong width"),
            Error::InvalidExpression => String::from_str("unexpected token in expression"),
            Error::InvalidReadError { current, expected } => {
                let mut out = String::from_str("invalid read: trying to read ");
                out.append(
                    match expected {
                        ValueKind::Byte => "byte",
                        ValueKind::Bit => "bit",
                    },
                );
                out.append(" from ");
                out.append(
                    match current {
                        ValueKind::Byte => "byte",
                        ValueKind::Bit => "bit",
                    },
                );
                out
            },
        }
    }
}

} // verus!
