use avr_sim::constraint::Constraint;
use avr_sim::error::Error;
use avr_sim::opcode::Opcode;
use avr_sim::operand::constraint_violation_text;
use avr_sim::register::CommonRegister;

#[test]
fn what_the_errors_say() {
    assert_eq!(Error::OpcodeNotFound { opcode: 65535 }.message(), "OpcodeNotFound found: 65535");
    assert_eq!(Error::UnknownInstruction { id: 124 }.message(), "Opcode 124 not found");
    assert_eq!(
        Error::InvalidConstraintValue { constraint: Constraint::r, value: 32, address: 0x1f }
            .message(),
        "constraint Requirements not met: r: regiter number can`t be higher than 31, got 32 at \
         address 0x1f"
    );
    assert_eq!(
        Error::InvalidOperandCount { expected: 2, got: 10 }.message(),
        "Invaild operand count expected:2, instead got:10"
    );
    assert_eq!(Error::InvalidValue.message(), "Invalid Value");
    assert_eq!(
        Error::InvalidRecordType { record_type: 6 }.message(),
        "invalid record type must be between 0 and 5 instead got: 6"
    );
    assert_eq!(
        Error::NotImplemented { record_type: 3 }.message(),
        "function not implemented: record type 3 not implemented"
    );
    assert_eq!(
        Error::MissingStartCode { line: 7 }.message(),
        "file should start with \":\" as in intel hex on line: 7"
    );
    assert_eq!(
        Error::ChecksumMismatch { line: 120 }.message(),
        "file checksum does not match on line: 120"
    );
    assert_eq!(Error::MalformedRecord { line: 0 }.message(), "file holds no record on line: 0");
    assert_eq!(
        Error::InvalidAddress { address: u64::MAX }.message(),
        "invalid address:18446744073709551615"
    );
    assert_eq!(Error::InvalidTarget { target: -4 }.message(), "invalid jump target:-4");
    assert_eq!(Error::InvalidRegister { index: -1 }.message(), "invalid reg index:-1");
    assert_eq!(
        Error::MissingRegister { register: CommonRegister::Eind }.message(),
        "could not get common regs: EIND"
    );
    assert_eq!(Error::UnsupportedInstruction { name: Opcode::DES }.message(), "not implemented");
    assert_eq!(Error::NotExecutable { id: 1000 }.message(), "this should not execute: 1000");
    assert_eq!(Error::InvalidMcu.message(), "Invalid mcu");
    assert_eq!(Error::InvalidDevice.message(), "invalid device description");
    assert_eq!(Error::NotOnThisCore.message(), "not supperted on this core");
    assert_eq!(Error::UnboundOperand.message(), "operand not bound");
    assert_eq!(Error::WrongWidth.message(), "operand of the wrong width");
    assert_eq!(Error::InvalidExpression.message(), "unexpected token in expression");
}

#[test]
fn the_rule_that_a_field_broke() {
    assert_eq!(
        constraint_violation_text(Constraint::d, 15),
        "d: ldi regiter number must be between 16 and 31, got 15"
    );
    // the short direct address is shown with its offset
    assert_eq!(
        constraint_violation_text(Constraint::j, 0x7f),
        "j: 7 bit immediate Value that must be between from 0x40 to 0xBF, got 191"
    );
    assert_eq!(
        constraint_violation_text(Constraint::j, u32::MAX),
        "j: 7 bit immediate Value that must be between from 0x40 to 0xBF, got 4294967359"
    );
    assert_eq!(
        constraint_violation_text(Constraint::c, 4),
        "c: index direction must be less than 4, got 4"
    );
}
