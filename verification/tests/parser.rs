use avr_sim::error::Error;
use avr_sim::instruction::{Instruction, PartialInstruction};
use avr_sim::display::Display;
use avr_sim::opcode::Opcode;
use avr_sim::parser::{calculate_checksum, parse_hex, parse_vec};

const FIRST: &str = ":10000000010C0E9400010FEF0895FFFF0000FFCFD9";
const END: &str = ":00000001FF";

fn names(list: &[Instruction]) -> Vec<Opcode> {
    list.iter().map(|i| i.get_raw_inst().unwrap().name).collect()
}

fn values(inst: &Instruction) -> Vec<i64> {
    inst.operands.as_ref().map(|list| list.iter().map(|o| o.value).collect()).unwrap_or_default()
}

#[test]
fn checksum_of_a_line() {
    assert_eq!(calculate_checksum(FIRST), Ok(true));
    assert_eq!(calculate_checksum(END), Ok(true));
    assert_eq!(calculate_checksum(":020010000E944C"), Ok(true));
    assert_eq!(calculate_checksum(":020010000E944D"), Ok(false));
    assert_eq!(calculate_checksum(":020010000E954C"), Ok(false));
    assert_eq!(calculate_checksum(":00000001FE"), Ok(false));
    // lower case digits
    assert_eq!(calculate_checksum(":020010000e944c"), Ok(true));
    // the sum of the bytes before the checksum may be a multiple of 256
    assert_eq!(calculate_checksum(":0000"), Ok(true));
    assert_eq!(calculate_checksum(":00"), Ok(true));
    assert_eq!(calculate_checksum(":FF01"), Ok(true));
}

#[test]
fn checksum_of_what_is_no_record() {
    assert_eq!(calculate_checksum(""), Err(Error::InvalidValue));
    assert_eq!(calculate_checksum(":"), Err(Error::InvalidValue));
    assert_eq!(calculate_checksum(":0"), Err(Error::InvalidValue));
    assert_eq!(calculate_checksum("00000001FF"), Err(Error::InvalidValue));
    assert_eq!(calculate_checksum(":0000001FF"), Err(Error::InvalidValue));
    assert_eq!(calculate_checksum(":000000G1FF"), Err(Error::InvalidValue));
    assert_eq!(calculate_checksum(":00000001F\u{e9}"), Err(Error::InvalidValue));
}

#[test]
fn an_image_of_one_record() {
    let list = parse_hex(&format!("{}\n{}\n", FIRST, END)).unwrap();
    assert_eq!(
        names(&list),
        vec![
            Opcode::ADD,
            Opcode::CALL,
            Opcode::LDI,
            Opcode::RET,
            Opcode::CUSTOM_INST(999),
            Opcode::NOP,
            Opcode::RJMP
        ]
    );
    let addresses: Vec<u32> = list.iter().map(|i| i.address).collect();
    assert_eq!(addresses, vec![0, 1, 3, 4, 5, 6, 7]);
    assert_eq!(list[0].raw_opcode, 0x0c01);
    assert_eq!(values(&list[0]), vec![0, 1]);
    assert_eq!(list[1].raw_opcode, 0x940e_0100);
    assert_eq!(values(&list[1]), vec![0x200]);
    assert_eq!(values(&list[2]), vec![16, 255]);
    assert_eq!(values(&list[3]), Vec::<i64>::new());
    assert_eq!(values(&list[4]), vec![0xffff]);
    assert_eq!(values(&list[6]), vec![-2]);
}

#[test]
fn the_low_byte_of_a_word_comes_first() {
    // the bytes 01 0C are the word 0x0C01
    let list = parse_hex(":02000000010CF1\n").unwrap();
    assert_eq!(list.len(), 1);
    assert_eq!(list[0].raw_opcode, 0x0c01);
    assert_eq!(names(&list), vec![Opcode::ADD]);
}

#[test]
fn a_wrong_checksum_stops_the_load_and_names_the_line() {
    let text = format!("{}\n:020010000E944D\n{}\n", FIRST, END);
    assert_eq!(parse_hex(&text).unwrap_err(), Error::ChecksumMismatch { line: 2 });
    let text = format!(":10000000010C0E9400010FEF0895FFFF0000FFCFD8\n{}\n", END);
    assert_eq!(parse_hex(&text).unwrap_err(), Error::ChecksumMismatch { line: 1 });
    let text = format!("{}\n{}\n:00000001FE\n", FIRST, ":020010000E944C");
    assert_eq!(parse_hex(&text).unwrap_err(), Error::ChecksumMismatch { line: 3 });
}

#[test]
fn a_line_that_is_no_record_stops_the_load() {
    assert_eq!(
        parse_hex(&format!("{}\n020010000E944C\n", FIRST)).unwrap_err(),
        Error::MissingStartCode { line: 2 }
    );
    assert_eq!(parse_hex("\n").unwrap_err(), Error::MissingStartCode { line: 1 });
    assert_eq!(
        parse_hex(&format!("{}\n\n{}\n", FIRST, END)).unwrap_err(),
        Error::MissingStartCode { line: 2 }
    );
    assert_eq!(parse_hex(":0200100").unwrap_err(), Error::MalformedRecord { line: 1 });
    assert_eq!(parse_hex(":02001000ZZ944C").unwrap_err(), Error::MalformedRecord { line: 1 });
    // the byte count does not fit the length of the line
    assert_eq!(parse_hex(":030010000E944B").unwrap_err(), Error::MalformedRecord { line: 1 });
    assert_eq!(parse_hex(":0000").unwrap_err(), Error::MalformedRecord { line: 1 });
    assert_eq!(parse_hex(":00000001F\u{e9}").unwrap_err(), Error::MalformedRecord { line: 0 });
}

#[test]
fn record_types() {
    assert_eq!(
        parse_hex(":0400000300000000F9\n").unwrap_err(),
        Error::NotImplemented { record_type: 3 }
    );
    assert_eq!(
        parse_hex(":020000040000FA\n").unwrap_err(),
        Error::NotImplemented { record_type: 4 }
    );
    assert_eq!(
        parse_hex(":0400000500000000F7\n").unwrap_err(),
        Error::NotImplemented { record_type: 5 }
    );
    assert_eq!(
        parse_hex(":00000006FA\n").unwrap_err(),
        Error::InvalidRecordType { record_type: 6 }
    );
}

#[test]
fn the_end_of_file_record_ends_the_image() {
    let text = format!("{}\n{}\nthis is not read\n", FIRST, END);
    assert_eq!(parse_hex(&text).unwrap().len(), 7);
    assert_eq!(parse_hex(END).unwrap().len(), 0);
    assert_eq!(parse_hex("").unwrap().len(), 0);
    // an image may end without the record
    assert_eq!(parse_hex(FIRST).unwrap().len(), 7);
}

#[test]
fn lines_may_end_with_a_carriage_return() {
    let text = format!("{}\r\n{}\r\n", FIRST, END);
    assert_eq!(parse_hex(&text).unwrap().len(), 7);
}

#[test]
fn the_segment_record_moves_the_addresses() {
    // segment 0x1000: offset 0x10000 bytes, 0x8000 words
    let text = format!(":020000021000EC\n:020020000000DE\n{}\n", END);
    let list = parse_hex(&text).unwrap();
    assert_eq!(list.len(), 1);
    assert_eq!(list[0].address, 0x8000 + 0x10);
    let list = parse_hex(":020020000000DE\n").unwrap();
    assert_eq!(list[0].address, 0x10);
}

#[test]
fn a_long_instruction_goes_on_in_the_next_record() {
    let text = format!(":020010000E944C\n:0400120000010000E9\n{}\n", END);
    let list = parse_hex(&text).unwrap();
    assert_eq!(names(&list), vec![Opcode::CALL, Opcode::NOP]);
    assert_eq!(list[0].raw_opcode, 0x940e_0100);
    assert_eq!(list[0].address, 8);
    assert_eq!(values(&list[0]), vec![0x200]);
    assert_eq!(list[1].address, 10);
}

#[test]
fn a_long_instruction_without_second_word_keeps_an_empty_half() {
    let list = parse_hex(":0200100000905E\n").unwrap();
    assert_eq!(names(&list), vec![Opcode::LDS]);
    assert_eq!(list[0].raw_opcode, 0x9000_0000);
    assert_eq!(values(&list[0]), vec![0, 0]);
}

#[test]
fn a_byte_left_over_is_dropped() {
    let list = parse_hex(":03000000010C559B\n").unwrap();
    assert_eq!(names(&list), vec![Opcode::ADD]);
}

#[test]
fn stored_lists() {
    let stored = |id| PartialInstruction {
        comment: "c".to_string(),
        comment_display: Display::Dec,
        operands: None,
        address: 7,
        opcode_id: id,
    };
    let list = parse_vec(vec![stored(1), stored(999), stored(123)]).unwrap();
    assert_eq!(list.len(), 3);
    assert_eq!(list[1].opcode_id, 999);
    assert_eq!(list[2].address, 7);
    assert_eq!(list[2].comment, "c");
    assert_eq!(list[2].comment_display, Display::Dec);
    assert_eq!(list[2].raw_opcode, 0);
    assert_eq!(
        parse_vec(vec![stored(1), stored(124), stored(500)]).unwrap_err(),
        Error::UnknownInstruction { id: 124 }
    );
    assert_eq!(parse_vec(vec![]).unwrap().len(), 0);
}
