use avr_sim::constraint::Constraint;
use avr_sim::display::Display;
use avr_sim::error::Error;
use avr_sim::instruction::{gen_comment, Instruction, PartialInstruction};
use avr_sim::opcode::{opcode_list, CustomOpcodes, Opcode, RawInst};
use avr_sim::operand::Operand;

fn decode(first: u16, second: Option<u16>) -> Instruction {
    let mut inst = Instruction::decode_from_opcode(first).unwrap();
    if let Some(word) = second {
        inst.raw_opcode = (inst.raw_opcode << 16) + word as u32;
    }
    inst.mach_registers().unwrap();
    inst
}

fn name(inst: &Instruction) -> Opcode {
    inst.get_raw_inst().unwrap().name
}

fn values(inst: &Instruction) -> Vec<i64> {
    inst.operands.as_ref().map(|list| list.iter().map(|o| o.value).collect()).unwrap_or_default()
}

#[test]
fn it_works() {
    assert_eq!(opcode_list().len(), 124);
}

#[test]
fn lib_it_works() {
    assert_eq!(opcode_list().len(), 124);
}

#[test]
fn first_match_wins() {
    assert_eq!(RawInst::get_inst_id_from_opcode_num(0x9488), Some(0));
    // `clc` stands before `bclr`, `brcc` before `brsh` and `brbc`
    assert_eq!(name(&decode(0x9488, None)), Opcode::CLC);
    assert_eq!(name(&decode(0xf400, None)), Opcode::BRCC);
    assert_eq!(name(&decode(0x0c01, None)), Opcode::ADD);
    assert_eq!(name(&decode(0x2400, None)), Opcode::EOR);
    assert_eq!(name(&decode(0xef0f, None)), Opcode::LDI);
    assert_eq!(name(&decode(0x0000, None)), Opcode::NOP);
    assert_eq!(name(&decode(0x9508, None)), Opcode::RET);
    assert_eq!(name(&decode(0x900f, None)), Opcode::POP);
    assert_eq!(name(&decode(0x920f, None)), Opcode::PUSH);
    assert_eq!(name(&decode(0x9000, Some(0x0100))), Opcode::LDS);
    assert_eq!(name(&decode(0x8000, None)), Opcode::LDD);
    assert_eq!(name(&decode(0x900d, None)), Opcode::LD);
}

#[test]
fn lookup_by_mnemonic() {
    let id = RawInst::get_inst_id_from_opcode(Opcode::ADD).unwrap();
    let entry = RawInst::get_inst_from_id(id).unwrap();
    assert_eq!(entry.name, Opcode::ADD);
    assert_eq!(entry.opcode, "000011rdddddrrrr");
    assert_eq!(entry.len, 1);
    assert_eq!(entry.bin_mask, 0xfc00);
    assert_eq!(entry.bin_opcode, 0x0c00);
    assert_eq!(entry.description, "Add without Carry");
    let fields = entry.constraints.unwrap();
    assert_eq!(fields.len(), 2);
    assert_eq!((fields[0].map, fields[0].constraint), (0x01f0, 'r'));
    assert_eq!((fields[1].map, fields[1].constraint), (0x020f, 'r'));
    // a second name of another instruction is found by name only
    let tst = RawInst::get_inst_id_from_opcode(Opcode::TST).unwrap();
    assert_eq!(RawInst::get_inst_from_id(tst).unwrap().name, Opcode::TST);
    assert_eq!(RawInst::get_inst_id_from_opcode(Opcode::CUSTOM_INST(0)), None);
    assert_eq!(RawInst::get_inst_from_id(0).unwrap().name, Opcode::CLC);
    assert_eq!(RawInst::get_inst_from_id(123).unwrap().name, Opcode::DES);
}

#[test]
fn every_entry_is_found_by_its_own_pattern_or_by_an_earlier_one() {
    let list = opcode_list();
    for (id, entry) in list.iter().enumerate() {
        let found = RawInst::get_inst_id_from_opcode_num(entry.bin_opcode).unwrap();
        assert!(found <= id);
        assert_eq!(entry.bin_opcode & list[found].bin_mask, list[found].bin_opcode);
        assert_eq!(entry.bin_opcode & entry.bin_mask, entry.bin_opcode);
        assert!(entry.len == 1 || entry.len == 2);
        for field in entry.constraints.iter().flatten() {
            assert!(Constraint::from_char(field.constraint).is_some());
        }
    }
}

#[test]
fn synthetic_entries() {
    let word = RawInst::get_inst_from_id(999).unwrap();
    assert_eq!(word.opcode, ".word");
    assert_eq!(word.name, Opcode::CUSTOM_INST(999));
    assert_eq!(word.len, 0);
    assert!(word.constraints.is_none());
    assert_eq!(RawInst::get_inst_from_id(998).unwrap().opcode, ".reminder");
    assert_eq!(RawInst::get_inst_from_id(1000).unwrap().opcode, ".empty");
    assert_eq!(RawInst::get_inst_from_id(124).unwrap_err(), Error::UnknownInstruction { id: 124 });
    assert_eq!(RawInst::get_inst_from_id(997).unwrap_err(), Error::UnknownInstruction { id: 997 });
    assert_eq!(CustomOpcodes::try_from(1000), Ok(CustomOpcodes::EMPTY));
    assert_eq!(CustomOpcodes::try_from(5), Err(Error::UnknownInstruction { id: 5 }));
    assert_eq!(CustomOpcodes::REMINDER.id(), 998);
}

#[test]
fn a_word_that_matches_nothing_is_raw_data() {
    assert_eq!(RawInst::get_inst_id_from_opcode_num(0xffff), None);
    assert_eq!(
        Instruction::match_raw_instruction_from_opcode(0xffff),
        Err(Error::OpcodeNotFound { opcode: 0xffff })
    );
    let inst = decode(0xffff, None);
    assert_eq!(inst.opcode_id, 999);
    assert_eq!(inst.raw_opcode, 0xffff);
    let operands = inst.operands.unwrap();
    assert_eq!(operands.len(), 1);
    assert_eq!(operands[0].constraint, Constraint::h);
    assert_eq!(operands[0].value, 0xffff);
}

#[test]
fn operands_of_decoded_words() {
    // add r0, r1
    assert_eq!(values(&decode(0x0c01, None)), vec![0, 1]);
    // add r31, r31
    assert_eq!(values(&decode(0x0fff, None)), vec![31, 31]);
    // ldi r16, 0xff
    assert_eq!(values(&decode(0xef0f, None)), vec![16, 255]);
    // adiw r24, 10
    assert_eq!(values(&decode(0x960a, None)), vec![24, 10]);
    // adiw r30, 63
    assert_eq!(values(&decode(0x96ff, None)), vec![30, 63]);
    // movw r16, r18
    assert_eq!(values(&decode(0x0189, None)), vec![16, 18]);
    // rjmp .-2
    assert_eq!(values(&decode(0xcfff, None)), vec![-2]);
    // breq .+4
    assert_eq!(values(&decode(0xf011, None)), vec![4]);
    // out 0x3f, r0
    assert_eq!(values(&decode(0xbe0f, None)), vec![0x3f, 0]);
    // in r0, 0x3f
    assert_eq!(values(&decode(0xb60f, None)), vec![0, 0x3f]);
    // call 0x100 (words)
    let call = decode(0x940e, Some(0x0100));
    assert_eq!(name(&call), Opcode::CALL);
    assert_eq!(call.raw_opcode, 0x940e_0100);
    assert_eq!(values(&call), vec![0x200]);
    // lds r16, 0x0123
    assert_eq!(values(&decode(0x9100, Some(0x0123))), vec![16, 0x0123]);
    // sts 0x0123, r16
    assert_eq!(values(&decode(0x9300, Some(0x0123))), vec![0x0123, 16]);
    // ld r16, X+
    assert_eq!(values(&decode(0x910d, None)), vec![16, 1, 3]);
    // st -Y, r17
    assert_eq!(values(&decode(0x931a, None)), vec![2, 17, 2]);
    // ldd r16, Y+5
    assert_eq!(values(&decode(0x810d, None)), vec![16, 5, 1]);
    // std Z+63, r0
    assert_eq!(values(&decode(0xae07, None)), vec![63, 0, 0]);
}

#[test]
fn a_field_that_breaks_its_rule_becomes_a_marker() {
    // brcc with offset field 32: doubled it lies outside [-64, 64)
    let inst = decode(0xf500, None);
    assert_eq!(name(&inst), Opcode::BRCC);
    let operands = inst.operands.unwrap();
    assert_eq!(operands.len(), 1);
    assert_eq!(operands[0].value, 1);
    assert_eq!(operands[0].constraint, Constraint::l);
    assert_eq!(
        operands[0].name,
        "opcode:62720error: constraint Requirements not met: l: signed pc relative offset must be \
         between  -64 to 63, got 32 at address 0x0"
    );
    // the other words of the image still decode
    assert_eq!(values(&decode(0xf4f8, None)), vec![62]);
}

#[test]
fn decoding_twice_gives_the_same_instruction() {
    for word in [0x0000u16, 0x0c01, 0x940e, 0xffff, 0xf500, 0x9488, 0xcfff] {
        let a = decode(word, Some(0x1234));
        let b = decode(word, Some(0x1234));
        assert_eq!(a.opcode_id, b.opcode_id);
        assert_eq!(a.raw_opcode, b.raw_opcode);
        assert_eq!(values(&a), values(&b));
        assert_eq!(format!("{:?}", a), format!("{:?}", b));
    }
}

#[test]
fn unknown_identity() {
    let mut inst = Instruction::new(String::new(), 500, vec![]);
    assert_eq!(inst.get_raw_inst().unwrap_err(), Error::UnknownInstruction { id: 500 });
    assert_eq!(inst.mach_registers(), Err(Error::UnknownInstruction { id: 500 }));
    assert_eq!(inst.operands.as_ref().unwrap().len(), 0);
}

#[test]
fn comment_of_a_relative_jump() {
    let mut inst = decode(0xc001, None);
    assert_eq!(name(&inst), Opcode::RJMP);
    inst.address = 0x10;
    gen_comment(&mut inst).unwrap();
    assert_eq!(inst.comment, "36");
    assert_eq!(inst.comment_display, Display::Hex);
    let mut back = decode(0xdfff, None);
    assert_eq!(name(&back), Opcode::RCALL);
    gen_comment(&mut back).unwrap();
    assert_eq!(back.comment, "0");
    let mut other = decode(0x0c01, None);
    gen_comment(&mut other).unwrap();
    assert_eq!(other.comment, "");
    assert_eq!(other.comment_display, Display::Unset);
}

#[test]
fn stored_instructions() {
    let inst = Instruction::new("note".to_string(), 33, vec![Operand::new(Constraint::r, 1)]);
    let stored = PartialInstruction::from(inst);
    assert_eq!(stored.opcode_id, 33);
    assert_eq!(stored.comment, "note");
    let back = Instruction::try_from(stored).unwrap();
    assert_eq!(back.opcode_id, 33);
    assert_eq!(back.raw_opcode, 0);
    assert_eq!(back.operands.unwrap()[0].value, 1);
    let bad = PartialInstruction {
        comment: String::new(),
        comment_display: Display::Unset,
        operands: None,
        address: 0,
        opcode_id: 400,
    };
    assert_eq!(Instruction::try_from(bad).unwrap_err(), Error::UnknownInstruction { id: 400 });
}

#[test]
fn a_target_outside_sixty_four_bits_is_no_comment() {
    let id = RawInst::get_inst_id_from_opcode(Opcode::RJMP).unwrap();
    let mut inst = Instruction::new(String::new(), id, vec![Operand::new(Constraint::L, i64::MAX)]);
    assert_eq!(gen_comment(&mut inst), Err(Error::InvalidValue));
    assert_eq!(inst.comment, "");
    assert_eq!(inst.comment_display, Display::Unset);
    let mut most = Instruction::new(String::new(), id, vec![Operand::new(Constraint::L, i64::MAX - 2)]);
    assert_eq!(gen_comment(&mut most), Ok(()));
    assert_eq!(most.comment, "9223372036854775807");
    let mut unknown = Instruction::new(String::new(), 200, vec![]);
    assert_eq!(gen_comment(&mut unknown), Err(Error::UnknownInstruction { id: 200 }));
    // two operands are no target
    let mut two = Instruction::new(
        String::new(),
        id,
        vec![Operand::new(Constraint::L, 2), Operand::new(Constraint::L, 4)],
    );
    assert_eq!(gen_comment(&mut two), Ok(()));
    assert_eq!(two.comment, "");
}

#[test]
fn placeholders_and_copies() {
    let cell = Instruction::placeholder(CustomOpcodes::REMINDER);
    assert_eq!(cell.opcode_id, 998);
    assert!(cell.operands.is_none());
    let mut inst = decode(0x0c01, None);
    inst.comment = "first".to_string();
    inst.address = 9;
    let copy = inst.duplicate();
    assert_eq!(format!("{:?}", copy), format!("{:?}", inst));
}
