use avr_sim::bits::{gather_bits, scatter_bits};
use avr_sim::constraint::Constraint;
use avr_sim::error::Error;
use avr_sim::instruction::Instruction;
use avr_sim::operand::{
    constraint_b_into_pointer, constraint_e_into_pointer, constraint_z_into_pointer,
    pointer_into_constraint_b, pointer_into_constraint_e, pointer_into_constraint_z, Operand,
};

const ALL: [Constraint; 23] = [
    Constraint::r,
    Constraint::d,
    Constraint::v,
    Constraint::a,
    Constraint::w,
    Constraint::e,
    Constraint::b,
    Constraint::z,
    Constraint::M,
    Constraint::n,
    Constraint::s,
    Constraint::P,
    Constraint::p,
    Constraint::K,
    Constraint::i,
    Constraint::j,
    Constraint::l,
    Constraint::L,
    Constraint::h,
    Constraint::S,
    Constraint::E,
    Constraint::o,
    Constraint::c,
];

fn violation(constraint: Constraint, value: u32) -> Result<i64, Error> {
    Err(Error::InvalidConstraintValue { constraint, value, address: 0 })
}

#[test]
fn test_unsigned_to_signed() {
    assert_eq!(Operand::unsigned_to_signed(0b010101101110, 12), 1390);
    assert_eq!(Operand::unsigned_to_signed(0b1001010111101110, 16), -27154);
    assert_eq!(Operand::unsigned_to_signed(0b0, 14), 0);
    assert_eq!(Operand::unsigned_to_signed(0b1111, 4), -1);
}

#[test]
fn unsigned_to_signed_at_the_edges() {
    assert_eq!(Operand::unsigned_to_signed(0, 1), 0);
    assert_eq!(Operand::unsigned_to_signed(1, 1), -1);
    assert_eq!(Operand::unsigned_to_signed(0x7fff_ffff, 32), i32::MAX);
    assert_eq!(Operand::unsigned_to_signed(0x8000_0000, 32), i32::MIN);
    assert_eq!(Operand::unsigned_to_signed(0xffff_ffff, 32), -1);
    assert_eq!(Operand::unsigned_to_signed(63, 7), 63);
    assert_eq!(Operand::unsigned_to_signed(64, 7), -64);
}

#[test]
fn decode_val_packs_the_selected_bits() {
    assert_eq!(Instruction::decode_val(0, 0xffff_ffff), 0);
    assert_eq!(Instruction::decode_val(0xffff_ffff, 0x1234_5678), 0x1234_5678);
    assert_eq!(Instruction::decode_val(0x01f0, 0x0c01), 0);
    assert_eq!(Instruction::decode_val(0x020f, 0x0c01), 1);
    assert_eq!(Instruction::decode_val(0x020f, 0x0e0f), 0x1f);
    assert_eq!(Instruction::decode_val(0b1010_1010, 0b1000_0010), 0b1001);
    assert_eq!(Instruction::decode_val(0x8000_0001, 0x8000_0000), 0b10);
}

#[test]
fn extract_then_deposit_gives_the_masked_word() {
    let masks = [0u32, 1, 0x8000_0000, 0x01f0, 0x020f, 0x0f0f, 0xffff, 0xaaaa_5555, 0xffff_ffff];
    let words = [0u32, 1, 0x0c01, 0x940e_0100, 0xdead_beef, 0xffff_ffff, 0x8000_0001];
    for mask in masks {
        for word in words {
            assert_eq!(scatter_bits(mask, gather_bits(mask, word)), word & mask);
        }
    }
    // every mask of sixteen bits with up to two bits set
    for a in 0..16u32 {
        for b in 0..16u32 {
            let mask = (1 << a) | (1 << b);
            for word in [0x0000u32, 0xffff, 0x5a5a, 0xa5a5, 0x1234] {
                assert_eq!(scatter_bits(mask, gather_bits(mask, word)), word & mask);
            }
        }
    }
}

#[test]
fn scatter_bits_is_not_the_identity() {
    assert_eq!(scatter_bits(0b1010_0000, 0b11), 0b1010_0000);
    assert_eq!(scatter_bits(0b1010_0000, 0b01), 0b0010_0000);
    assert_eq!(gather_bits(0b1010_0000, 0b1010_0000), 0b11);
}

#[test]
fn map_register_number_applies_the_bias() {
    assert_eq!(Instruction::map_register_number(0, Constraint::d), 16);
    assert_eq!(Instruction::map_register_number(15, Constraint::d), 31);
    assert_eq!(Instruction::map_register_number(7, Constraint::a), 23);
    assert_eq!(Instruction::map_register_number(15, Constraint::v), 30);
    assert_eq!(Instruction::map_register_number(0, Constraint::w), 24);
    assert_eq!(Instruction::map_register_number(3, Constraint::w), 30);
    assert_eq!(Instruction::map_register_number(0x100, Constraint::h), 0x200);
    assert_eq!(Instruction::map_register_number(31, Constraint::r), 31);
    assert_eq!(Instruction::map_register_number(255, Constraint::M), 255);
}

#[test]
fn map_value_accepts_what_the_rule_allows() {
    assert_eq!(Operand::map_value(0, Constraint::r), Ok(0));
    assert_eq!(Operand::map_value(31, Constraint::r), Ok(31));
    assert_eq!(Operand::map_value(16, Constraint::d), Ok(16));
    assert_eq!(Operand::map_value(31, Constraint::d), Ok(31));
    assert_eq!(Operand::map_value(30, Constraint::v), Ok(30));
    assert_eq!(Operand::map_value(23, Constraint::a), Ok(23));
    for value in [24u32, 26, 28, 30] {
        assert_eq!(Operand::map_value(value, Constraint::w), Ok(value as i64));
    }
    assert_eq!(Operand::map_value(3, Constraint::e), Ok(3));
    assert_eq!(Operand::map_value(1, Constraint::b), Ok(1));
    assert_eq!(Operand::map_value(1, Constraint::z), Ok(1));
    assert_eq!(Operand::map_value(255, Constraint::M), Ok(255));
    assert_eq!(Operand::map_value(255, Constraint::n), Ok(255));
    assert_eq!(Operand::map_value(7, Constraint::s), Ok(7));
    assert_eq!(Operand::map_value(7, Constraint::S), Ok(7));
    assert_eq!(Operand::map_value(63, Constraint::P), Ok(63));
    assert_eq!(Operand::map_value(31, Constraint::p), Ok(31));
    assert_eq!(Operand::map_value(63, Constraint::K), Ok(63));
    assert_eq!(Operand::map_value(u32::MAX, Constraint::i), Ok(u32::MAX as i64));
    assert_eq!(Operand::map_value(u32::MAX, Constraint::h), Ok(u32::MAX as i64));
    assert_eq!(Operand::map_value(15, Constraint::E), Ok(15));
    assert_eq!(Operand::map_value(63, Constraint::o), Ok(63));
    assert_eq!(Operand::map_value(3, Constraint::c), Ok(3));
}

#[test]
fn map_value_rejects_what_the_rule_forbids() {
    assert_eq!(Operand::map_value(32, Constraint::r), violation(Constraint::r, 32));
    assert_eq!(Operand::map_value(15, Constraint::d), violation(Constraint::d, 15));
    assert_eq!(Operand::map_value(32, Constraint::d), violation(Constraint::d, 32));
    assert_eq!(Operand::map_value(3, Constraint::v), violation(Constraint::v, 3));
    assert_eq!(Operand::map_value(32, Constraint::v), violation(Constraint::v, 32));
    assert_eq!(Operand::map_value(24, Constraint::a), violation(Constraint::a, 24));
    assert_eq!(Operand::map_value(25, Constraint::w), violation(Constraint::w, 25));
    assert_eq!(Operand::map_value(32, Constraint::w), violation(Constraint::w, 32));
    assert_eq!(Operand::map_value(4, Constraint::e), violation(Constraint::e, 4));
    assert_eq!(Operand::map_value(2, Constraint::b), violation(Constraint::b, 2));
    assert_eq!(Operand::map_value(2, Constraint::z), violation(Constraint::z, 2));
    assert_eq!(Operand::map_value(256, Constraint::M), violation(Constraint::M, 256));
    assert_eq!(Operand::map_value(256, Constraint::n), violation(Constraint::n, 256));
    assert_eq!(Operand::map_value(8, Constraint::s), violation(Constraint::s, 8));
    assert_eq!(Operand::map_value(8, Constraint::S), violation(Constraint::S, 8));
    assert_eq!(Operand::map_value(64, Constraint::P), violation(Constraint::P, 64));
    assert_eq!(Operand::map_value(32, Constraint::p), violation(Constraint::p, 32));
    assert_eq!(Operand::map_value(64, Constraint::K), violation(Constraint::K, 64));
    assert_eq!(Operand::map_value(16, Constraint::E), violation(Constraint::E, 16));
    assert_eq!(Operand::map_value(64, Constraint::o), violation(Constraint::o, 64));
    assert_eq!(Operand::map_value(4, Constraint::c), violation(Constraint::c, 4));
}

#[test]
fn map_value_of_the_short_direct_address() {
    assert_eq!(Operand::map_value(0, Constraint::j), Ok(0x40));
    assert_eq!(Operand::map_value(0x7e, Constraint::j), Ok(0xbe));
    assert_eq!(Operand::map_value(0x7f, Constraint::j), violation(Constraint::j, 0x7f));
    assert_eq!(Operand::map_value(u32::MAX, Constraint::j), violation(Constraint::j, u32::MAX));
}

#[test]
fn map_value_of_relative_offsets() {
    // seven bits, doubled, and then held to [-64, 64)
    assert_eq!(Operand::map_value(0, Constraint::l), Ok(0));
    assert_eq!(Operand::map_value(1, Constraint::l), Ok(2));
    assert_eq!(Operand::map_value(31, Constraint::l), Ok(62));
    assert_eq!(Operand::map_value(32, Constraint::l), violation(Constraint::l, 32));
    assert_eq!(Operand::map_value(0x7f, Constraint::l), Ok(-2));
    assert_eq!(Operand::map_value(0x60, Constraint::l), Ok(-64));
    assert_eq!(Operand::map_value(0x5f, Constraint::l), violation(Constraint::l, 0x5f));
    // twelve bits, doubled, and then held to [-2048, 2048)
    assert_eq!(Operand::map_value(0x3ff, Constraint::L), Ok(2046));
    assert_eq!(Operand::map_value(0x400, Constraint::L), violation(Constraint::L, 0x400));
    assert_eq!(Operand::map_value(0xfff, Constraint::L), Ok(-2));
    assert_eq!(Operand::map_value(0xc00, Constraint::L), Ok(-2048));
    assert_eq!(Operand::map_value(0xbff, Constraint::L), violation(Constraint::L, 0xbff));
}

#[test]
fn operands_as_text() {
    let text = |constraint, value| Operand::new(constraint, value).map_string_from_value().unwrap();
    assert_eq!(text(Constraint::r, 0), "r0");
    assert_eq!(text(Constraint::d, 31), "r31");
    assert_eq!(text(Constraint::e, 3), "X");
    assert_eq!(text(Constraint::e, 2), "Y");
    assert_eq!(text(Constraint::e, 0), "Z");
    assert_eq!(text(Constraint::e, 1), "Invalid Value");
    assert_eq!(text(Constraint::b, 0), "Z");
    assert_eq!(text(Constraint::b, 1), "Y");
    assert_eq!(text(Constraint::z, 0), "");
    assert_eq!(text(Constraint::z, 1), "Z+");
    assert_eq!(text(Constraint::M, 255), "0xff");
    assert_eq!(text(Constraint::M, 0), "0x0");
    assert_eq!(text(Constraint::h, 0x1234), "0x1234");
    assert_eq!(text(Constraint::i, -1), "0xffffffffffffffff");
    assert_eq!(text(Constraint::l, -64), ".-64");
    assert_eq!(text(Constraint::L, 2046), ".2046");
    assert_eq!(text(Constraint::o, 63), "+63");
    assert_eq!(text(Constraint::c, 0), "");
    assert_eq!(text(Constraint::c, 1), "+");
    assert_eq!(text(Constraint::c, 2), "-");
    assert_eq!(text(Constraint::r, i64::MIN), "r-9223372036854775808");
    assert_eq!(text(Constraint::r, i64::MAX), "r9223372036854775807");
}

#[test]
fn operands_from_text() {
    let value = |text: &str, constraint| Operand::map_value_from_string(&text.to_string(), constraint);
    assert_eq!(value("r17", Constraint::r), Ok(17));
    assert_eq!(value("R17", Constraint::d), Ok(17));
    assert_eq!(value(".-64", Constraint::l), Ok(-64));
    assert_eq!(value(".+8", Constraint::L), Ok(8));
    assert_eq!(value("+12", Constraint::o), Ok(12));
    assert_eq!(value("0x1f", Constraint::M), Ok(0x1f));
    assert_eq!(value("0X1F", Constraint::M), Ok(0x1f));
    assert_eq!(value("1f", Constraint::M), Ok(0x1f));
    assert_eq!(value("x", Constraint::e), Ok(3));
    assert_eq!(value("Y", Constraint::e), Ok(2));
    assert_eq!(value("Z", Constraint::b), Ok(0));
    assert_eq!(value("Y", Constraint::b), Ok(1));
    assert_eq!(value("", Constraint::z), Ok(0));
    assert_eq!(value("Z+", Constraint::z), Ok(1));
    assert_eq!(value("-", Constraint::c), Ok(2));
    assert_eq!(value("", Constraint::r), Err(Error::InvalidValue));
    assert_eq!(value("r", Constraint::r), Err(Error::InvalidValue));
    assert_eq!(value("r1x", Constraint::r), Err(Error::InvalidValue));
    assert_eq!(value("0x", Constraint::M), Err(Error::InvalidValue));
    assert_eq!(value("0xg", Constraint::M), Err(Error::InvalidValue));
    assert_eq!(value("W", Constraint::e), Err(Error::InvalidValue));
    assert_eq!(value("", Constraint::b), Err(Error::InvalidValue));
    assert_eq!(value("Z", Constraint::z), Err(Error::InvalidValue));
    assert_eq!(value("r9223372036854775808", Constraint::r), Err(Error::InvalidValue));
    assert_eq!(value("r-9223372036854775808", Constraint::r), Ok(i64::MIN));
    assert_eq!(value("0x7fffffffffffffff", Constraint::i), Ok(i64::MAX));
    assert_eq!(value("0x8000000000000000", Constraint::i), Err(Error::InvalidValue));
    assert_eq!(value("r\u{e9}", Constraint::r), Err(Error::InvalidValue));
}

#[test]
fn text_round_trip_over_every_constraint() {
    for constraint in ALL {
        for field in 0..5000u32 {
            if let Ok(value) = Operand::map_value(field, constraint) {
                if constraint == Constraint::e && value == 1 {
                    continue;
                }
                let text = Operand::new(constraint, value).map_string_from_value().unwrap();
                assert_eq!(Operand::map_value_from_string(&text, constraint), Ok(value));
            }
        }
    }
    for field in [0x1_0000u32, 0x00ff_ffff, 0x7fff_ffff, u32::MAX] {
        for constraint in [Constraint::i, Constraint::h] {
            let value = Operand::map_value(field, constraint).unwrap();
            let text = Operand::new(constraint, value).map_string_from_value().unwrap();
            assert_eq!(Operand::map_value_from_string(&text, constraint), Ok(value));
        }
    }
}

#[test]
fn the_pointer_selector_one_has_no_text_to_read_back() {
    let text = Operand::new(Constraint::e, 1).map_string_from_value().unwrap();
    assert_eq!(Operand::map_value_from_string(&text, Constraint::e), Err(Error::InvalidValue));
}

#[test]
fn pointer_helpers() {
    assert_eq!(constraint_e_into_pointer(3).unwrap(), "X");
    assert_eq!(constraint_b_into_pointer(1).unwrap(), "Y");
    assert_eq!(constraint_z_into_pointer(1).unwrap(), "Z+");
    assert_eq!(constraint_z_into_pointer(7).unwrap(), "Invalid Value");
    assert_eq!(pointer_into_constraint_e("X"), Ok(3));
    assert_eq!(pointer_into_constraint_e("z"), Ok(0));
    assert_eq!(pointer_into_constraint_e(""), Err(Error::InvalidValue));
    assert_eq!(pointer_into_constraint_b("Y"), Ok(1));
    assert_eq!(pointer_into_constraint_b("X"), Err(Error::InvalidValue));
    assert_eq!(pointer_into_constraint_z(""), Ok(0));
    assert_eq!(pointer_into_constraint_z("z+"), Ok(1));
    assert_eq!(pointer_into_constraint_z("Z-"), Err(Error::InvalidValue));
}

#[test]
fn operand_in_a_listing() {
    let mut operand = Operand::new(Constraint::r, 5);
    assert_eq!(operand.to_text(), "r5");
    operand.name = "bad: ".to_string();
    assert_eq!(operand.to_text(), "bad: r5");
}

#[test]
fn constraint_letters() {
    for constraint in ALL {
        assert_eq!(Constraint::from_char(constraint.to_char()), Some(constraint));
    }
    assert_eq!(Constraint::from_char('r'), Some(Constraint::r));
    assert_eq!(Constraint::from_char('R'), None);
    assert_eq!(Constraint::from_char(' '), None);
}
