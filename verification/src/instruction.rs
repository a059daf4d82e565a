//! Decoded instructions: matching a raw word against the opcode table and
//! extracting the operands.

use vstd::prelude::*;
use vstd::string::*;
use crate::bits::{extract_bits, gather_bits};
use crate::constraint::Constraint;
use crate::display::Display;
use crate::error::{message_text, Error};
use crate::opcode::{
    first_match, is_custom_id, lemma_table_letters, table_operand, table_operands, CustomOpcodes,
    Opcode, RawInst, OPCODE_NAMES, OPERAND_COUNTS, OPERAND_KINDS, WORD_ID,
};
use crate::operand::{checked_value, parsed, Operand, OperandValue, OperandView};
use crate::text::{append_decimal, append_unsigned, decimal_digits, decimal_text};

verus! {

/// The largest field that the register bias is applied to: a wider one
/// breaks the rule of every constraint.
pub const MAX_FIELD: u32 = 0x3fff_ffff;

/// One decoded instruction.
#[derive(Debug)]
pub struct Instruction {
    pub comment: String,
    pub comment_display: Display,
    pub opcode_id: usize,
    pub operands: Option<Vec<Operand>>,
    /// The word address in flash at which the instruction starts.
    pub address: u32,
    /// The raw encoding; of a two-word instruction the first word stands in
    /// the upper half.
    pub raw_opcode: u32,
}

/// An instruction as it is stored: without its raw encoding.
#[derive(Debug)]
pub struct PartialInstruction {
    pub comment: String,
    pub comment_display: Display,
    pub operands: Option<Vec<Operand>>,
    pub address: u32,
    pub opcode_id: usize,
}

/// An instruction as plain values.
pub struct InstructionView {
    pub comment: Seq<char>,
    pub comment_display: Display,
    pub opcode_id: usize,
    pub operands: Option<Seq<OperandView>>,
    pub address: u32,
    pub raw_opcode: u32,
}

/// A stored instruction as plain values.
pub struct PartialInstructionView {
    pub comment: Seq<char>,
    pub comment_display: Display,
    pub operands: Option<Seq<OperandView>>,
    pub address: u32,
    pub opcode_id: usize,
}

/// The views of a list of operands.
pub open spec fn operand_views(list: Seq<Operand>) -> Seq<OperandView> {
    Seq::new(list.len(), |k: int| list[k]@)
}

/// The views of an optional list of operands.
pub open spec fn optional_operand_views(list: Option<Vec<Operand>>) -> Option<Seq<OperandView>> {
    match list {
        Some(v) => Some(operand_views(v@)),
        None => None,
    }
}

impl View for Instruction {
    type V = InstructionView;

    open spec fn view(&self) -> InstructionView {
        InstructionView {
            comment: self.comment@,
            comment_display: self.comment_display,
            opcode_id: self.opcode_id,
            operands: optional_operand_views(self.operands),
            address: self.address,
            raw_opcode: self.raw_opcode,
        }
    }
}

impl View for PartialInstruction {
    type V = PartialInstructionView;

    open spec fn view(&self) -> PartialInstructionView {
        PartialInstructionView {
            comment: self.comment@,
            comment_display: self.comment_display,
            operands: optional_operand_views(self.operands),
            address: self.address,
            opcode_id: self.opcode_id,
        }
    }
}

/// A field after the bias of its constraint: the `ldi` and `fmul` classes
/// count from register 16, the `movw` class counts register pairs, the `adiw`
/// class counts pairs from register 24, and a code address counts words.
pub open spec fn register_bias(value: int, constraint: Constraint) -> int {
    match constraint {
        Constraint::d => value + 16,
        Constraint::v => value * 2,
        Constraint::a => value + 16,
        Constraint::w => value * 2 + 24,
        Constraint::h => value * 2,
        _ => value,
    }
}

/// The name of an operand that broke the rule of its constraint: the raw
/// encoding and the rule.
pub open spec fn diagnostic_name(raw: u32, constraint: Constraint, value: u32) -> Seq<char> {
    "opcode:"@ + decimal_digits(raw as nat) + "error: "@ + message_text(
        Error::InvalidConstraintValue { constraint, value, address: 0 },
    )
}

/// The operand that a field of `raw` decodes to. A field that is wider than
/// `MAX_FIELD`, or whose biased value breaks the rule of the constraint,
/// gives the marker value 1 under a diagnostic name.
pub open spec fn decoded_operand(map: u32, constraint: Constraint, raw: u32) -> OperandView {
    let field = extract_bits(map, raw);
    if field > MAX_FIELD {
        OperandView {
            name: diagnostic_name(raw, constraint, field),
            constraint,
            value: 1,
            operand_info: None,
        }
    } else {
        let biased = register_bias(field as int, constraint) as u32;
        match checked_value(constraint, biased) {
            Some(v) => OperandView { name: Seq::empty(), constraint, value: v, operand_info: None },
            None => OperandView {
                name: diagnostic_name(raw, constraint, biased),
                constraint,
                value: 1,
                operand_info: None,
            },
        }
    }
}

/// The operands of entry `id` of the table, decoded from `raw`.
pub open spec fn decoded_operands(id: int, raw: u32) -> Seq<OperandView>
    recommends
        0 <= id < 124,
{
    Seq::new(OPERAND_COUNTS[id] as nat, |k: int| decoded_table_operand(id, k, raw))
}

/// Operand `k` of entry `id` of the table, decoded from `raw`.
pub open spec fn decoded_table_operand(id: int, k: int, raw: u32) -> OperandView
    recommends
        0 <= id < 124,
        0 <= k < 3,
{
    decoded_operand(
        table_operand(id, k).map,
        Constraint::of_letter(table_operand(id, k).constraint).unwrap(),
        raw,
    )
}

/// The operand list of an instruction after its operands were matched: a
/// synthetic entry shows its raw encoding as one code address, an entry
/// without operands keeps what it had, and any other entry gets the operands
/// decoded from the raw encoding.
pub open spec fn matched_operands(before: InstructionView) -> Option<Seq<OperandView>> {
    let id = before.opcode_id as int;
    if is_custom_id(id) {
        Some(
            seq![
                OperandView {
                    name: Seq::empty(),
                    constraint: Constraint::h,
                    value: before.raw_opcode as i64,
                    operand_info: None,
                },
            ],
        )
    } else if 0 <= id < 124 && OPERAND_COUNTS[id] > 0 {
        Some(decoded_operands(id, before.raw_opcode))
    } else {
        before.operands
    }
}

/// The identity that a raw word decodes to: the first entry of the table
/// that matches, or the raw-data entry where none does.
pub open spec fn decoded_id(word: u16) -> usize {
    match first_match(word) {
        Some(id) => id,
        None => WORD_ID,
    }
}

/// The instruction that a raw word decodes to, before its operands are
/// matched.
pub open spec fn decoded_word(word: u16) -> InstructionView {
    InstructionView {
        comment: Seq::empty(),
        comment_display: Display::Unset,
        opcode_id: decoded_id(word),
        operands: None,
        address: 0,
        raw_opcode: word as u32,
    }
}

/// The byte address that a relative jump at word `address` with byte offset
/// `offset` goes to.
pub open spec fn relative_target(address: u32, offset: i64) -> int {
    2 * address + offset + 2
}

/// Whether entry `id` is a relative jump or call with exactly one operand.
pub open spec fn has_relative_target(inst: InstructionView) -> bool {
    &&& 0 <= inst.opcode_id < 124
    &&& (OPCODE_NAMES[inst.opcode_id as int] == Opcode::RJMP || OPCODE_NAMES[inst.opcode_id as int]
        == Opcode::RCALL)
    &&& inst.operands is Some
    &&& inst.operands.unwrap().len() == 1
}

/// An instruction with its annotation: a relative jump or call with exactly
/// one operand gets its target as comment; any other instruction stays as it
/// is. An error where the target is outside 64 bits, and where the identity
/// is unknown.
pub open spec fn annotated(inst: InstructionView) -> Result<InstructionView, Error> {
    if has_relative_target(inst) {
        let target = relative_target(inst.address, inst.operands.unwrap()[0].value);
        if target > i64::MAX {
            Err(Error::InvalidValue)
        } else {
            Ok(
                InstructionView {
                    comment: decimal_text(target),
                    comment_display: Display::Hex,
                    ..inst
                },
            )
        }
    } else if inst.opcode_id < 124 || is_custom_id(inst.opcode_id as int) {
        Ok(inst)
    } else {
        Err(Error::UnknownInstruction { id: inst.opcode_id })
    }
}

/// A copy of a list of operands.
pub fn duplicate_operands(list: &Vec<Operand>) -> (r: Vec<Operand>)
    ensures
        operand_views(r@) == operand_views(list@),
{
    let mut out: Vec<Operand> = Vec::new();
    let mut k: usize = 0;
    while k < list.len()
        invariant
            k <= list@.len(),
            out@.len() == k,
            forall|j: int| 0 <= j < k ==> out@[j]@ == list@[j]@,
        decreases list@.len() - k,
    {
        out.push(list[k].duplicate());
        k = k + 1;
    }
    assert(operand_views(out@) =~= operand_views(list@));
    out
}

impl Instruction {
    /// An instruction put together from its parts, at address 0 and without
    /// raw encoding.
    pub fn new(comment: String, opcode_id: usize, operands: Vec<Operand>) -> (r: Instruction)
        ensures
            r@ == (InstructionView {
                comment: comment@,
                comment_display: Display::Unset,
                opcode_id,
                operands: Some(operand_views(operands@)),
                address: 0,
                raw_opcode: 0,
            }),
    {
        Instruction {
            comment,
            comment_display: Display::Unset,
            opcode_id,
            operands: Some(operands),
            address: 0,
            raw_opcode: 0,
        }
    }

    /// A synthetic instruction: a placeholder of the flash array.
    pub fn placeholder(kind: CustomOpcodes) -> (r: Instruction)
        ensures
            r@ == (InstructionView {
                comment: Seq::empty(),
                comment_display: Display::Unset,
                opcode_id: kind.spec_id(),
                operands: None,
                address: 0,
                raw_opcode: 0,
            }),
    {
        Instruction {
            comment: String::new(),
            comment_display: Display::Unset,
            opcode_id: kind.id(),
            operands: None,
            address: 0,
            raw_opcode: 0,
        }
    }

    /// A copy of this instruction.
    pub fn duplicate(&self) -> (r: Instruction)
        ensures
            r@ == self@,
    {
        let operands = match &self.operands {
            Some(list) => Some(duplicate_operands(list)),
            None => None,
        };
        Instruction {
            comment: self.comment.clone(),
            comment_display: self.comment_display,
            opcode_id: self.opcode_id,
            operands,
            address: self.address,
            raw_opcode: self.raw_opcode,
        }
    }

    /// The entry of the opcode table that this instruction is an instance
    /// of.
    pub fn get_raw_inst(&self) -> (r: Result<RawInst, Error>)
        ensures
            match r {
                Ok(inst) => inst.has_id(self.opcode_id as int),
                Err(e) => self.opcode_id >= 124 && !is_custom_id(self.opcode_id as int) && e == (
                Error::UnknownInstruction { id: self.opcode_id }),
            },
    {
        RawInst::get_inst_from_id(self.opcode_id)
    }

    /// Decodes one raw word: the first entry of the table that matches it,
    /// or the raw-data entry where none does. The operands are not matched
    /// yet.
    pub fn decode_from_opcode(opcode: u16) -> (r: Result<Instruction, Error>)
        ensures
            r is Ok,
            r.unwrap()@ == decoded_word(opcode),
    {
        let id = match Self::match_raw_instruction_from_opcode(opcode) {
            Ok(id) => id,
            Err(_) => WORD_ID,
        };
        Ok(
            Instruction {
                comment: String::new(),
                comment_display: Display::Unset,
                opcode_id: id,
                operands: None,
                address: 0,
                raw_opcode: opcode as u32,
            },
        )
    }

    /// The first entry of the table that a raw word matches; an error where
    /// none does.
    pub fn match_raw_instruction_from_opcode(opcode: u16) -> (r: Result<usize, Error>)
        ensures
            r == (match first_match(opcode) {
                Some(id) => Ok::<usize, Error>(id),
                None => Err(Error::OpcodeNotFound { opcode: opcode as u32 }),
            }),
            r is Ok ==> r.unwrap() < 124,
    {
        match RawInst::get_inst_id_from_opcode_num(opcode) {
            None => Err(Error::OpcodeNotFound { opcode: opcode as u32 }),
            Some(i) => Ok(i),
        }
    }

    /// Gathers the bits of `opcode` that `mask` selects, from bit 0 upward,
    /// and packs them from bit 0 of the result in the same order.
    pub fn decode_val(mask: u32, opcode: u32) -> (r: u32)
        ensures
            r == extract_bits(mask, opcode),
    {
        gather_bits(mask, opcode)
    }

    /// Applies the bias of a constraint to a field.
    pub fn map_register_number(value: u32, constraint: Constraint) -> (r: u32)
        requires
            register_bias(value as int, constraint) <= u32::MAX,
        ensures
            r == register_bias(value as int, constraint),
    {
        match constraint {
            Constraint::d => value + 16,
            Constraint::v => value * 2,
            Constraint::a => value + 16,
            Constraint::w => value * 2 + 24,
            Constraint::h => value * 2,
            _ => value,
        }
    }

    /// Decodes one operand field of this instruction's raw encoding.
    pub fn decode_operand(&self, map: u32, constraint: Constraint) -> (r: Operand)
        ensures
            r@ == decoded_operand(map, constraint, self.raw_opcode),
    {
        let field = Self::decode_val(map, self.raw_opcode);
        let (shown, checked) = if field > MAX_FIELD {
            (field, Err(Error::InvalidConstraintValue { constraint, value: field, address: 0 }))
        } else {
            let biased = Self::map_register_number(field, constraint);
            (biased, Operand::map_value(biased, constraint))
        };
        match checked {
            Ok(value) => Operand::new(constraint, value),
            Err(_) => {
                let mut name = String::from_str("opcode:");
                append_unsigned(&mut name, self.raw_opcode as u64);
                name.append("error: ");
                let error = Error::InvalidConstraintValue { constraint, value: shown, address: 0 };
                name.append(error.message().as_str());
                Operand { name, constraint, value: 1, operand_info: None }
            },
        }
    }

    /// Matches the operands: decodes every operand field of the entry from
    /// the raw encoding, in the order of the operand list. An operand that
    /// breaks the rule of its constraint does not stop the others: it gets
    /// the marker value 1 and a diagnostic name. Fails, and changes nothing,
    /// where the instruction's identity is unknown.
    pub fn mach_registers(&mut self) -> (r: Result<(), Error>)
        ensures
            match r {
                Ok(()) => {
                    &&& old(self).opcode_id < 124 || is_custom_id(old(self).opcode_id as int)
                    &&& final(self)@ == (InstructionView {
                        operands: matched_operands(old(self)@),
                        ..old(self)@
                    })
                },
                Err(e) => {
                    &&& old(self).opcode_id >= 124
                    &&& !is_custom_id(old(self).opcode_id as int)
                    &&& e == (Error::UnknownInstruction { id: old(self).opcode_id })
                    &&& *final(self) == *old(self)
                },
            },
    {
        let raw = match self.get_raw_inst() {
            Ok(raw) => raw,
            Err(e) => {
                return Err(e);
            },
        };
        let id = self.opcode_id;
        match raw.name {
            Opcode::CUSTOM_INST(_) => {
                let mut list: Vec<Operand> = Vec::new();
                list.push(Operand::new(Constraint::h, self.raw_opcode as OperandValue));
                assert(operand_views(list@) =~= matched_operands(old(self)@).unwrap());
                self.operands = Some(list);
                Ok(())
            },
            _ => {
                match raw.constraints {
                    None => Ok(()),
                    Some(fields) => {
                        assert(id < 124);
                        assert(fields@ == table_operands(id as int));
                        let mut list: Vec<Operand> = Vec::new();
                        let mut k: usize = 0;
                        while k < fields.len()
                            invariant
                                id < 124,
                                k <= fields@.len(),
                                fields@ == table_operands(id as int),
                                fields@.len() == OPERAND_COUNTS[id as int],
                                list@.len() == k,
                                self.raw_opcode == old(self).raw_opcode,
                                forall|j: int|
                                    0 <= j < k ==> list@[j]@ == decoded_table_operand(
                                        id as int,
                                        j,
                                        self.raw_opcode,
                                    ),
                            decreases fields@.len() - k,
                        {
                            let field = fields[k];
                            proof {
                                lemma_table_letters(id as int, k as int);
                                assert(field == table_operand(id as int, k as int));
                            }
                            match Constraint::from_char(field.constraint) {
                                Some(constraint) => {
                                    list.push(self.decode_operand(field.map, constraint));
                                },
                                None => {
                                    assert(false);
                                },
                            }
                            k = k + 1;
                        }
                        assert(operand_views(list@) =~= decoded_operands(
                            id as int,
                            self.raw_opcode,
                        ));
                        self.operands = Some(list);
                        Ok(())
                    },
                }
            },
        }
    }

    /// Annotates a relative jump or call with the byte address it goes to,
    /// as a decimal number to be shown in hexadecimal. Any other instruction
    /// is left as it is. Fails, and changes nothing, where the identity is
    /// unknown or the target is outside 64 bits.
    pub fn annotate_target(&mut self) -> (r: Result<(), Error>)
        ensures
            match annotated(old(self)@) {
                Ok(after) => r is Ok && final(self)@ == after,
                Err(e) => r == Err::<(), Error>(e) && *final(self) == *old(self),
            },
    {
        let raw = match self.get_raw_inst() {
            Ok(raw) => raw,
            Err(e) => {
                return Err(e);
            },
        };
        match raw.name {
            Opcode::RJMP | Opcode::RCALL => {
                let value: Option<i64> = match &self.operands {
                    Some(list) => if list.len() == 1 {
                        Some(list[0].value)
                    } else {
                        None
                    },
                    None => None,
                };
                match value {
                    None => Ok(()),
                    Some(offset) => {
                        let base: i64 = 2 * (self.address as i64) + 2;
                        if offset > i64::MAX - base {
                            return Err(Error::InvalidValue);
                        }
                        let mut text = String::new();
                        append_decimal(&mut text, base + offset);
                        assert(text@ =~= decimal_text(base + offset));
                        self.comment_display = Display::Hex;
                        self.comment = text;
                        Ok(())
                    },
                }
            },
            _ => Ok(()),
        }
    }

    /// The instruction that a stored one stands for, with an empty raw
    /// encoding. Fails where the stored identity is unknown.
    pub fn try_from(value: PartialInstruction) -> (r: Result<Instruction, Error>)
        ensures
            match r {
                Ok(inst) => {
                    &&& value.opcode_id < 124 || is_custom_id(value.opcode_id as int)
                    &&& inst@ == (InstructionView {
                        comment: value@.comment,
                        comment_display: value@.comment_display,
                        opcode_id: value@.opcode_id,
                        operands: value@.operands,
                        address: value@.address,
                        raw_opcode: 0,
                    })
                },
                Err(e) => {
                    &&& value.opcode_id >= 124
                    &&& !is_custom_id(value.opcode_id as int)
                    &&& e == (Error::UnknownInstruction { id: value.opcode_id })
                },
            },
    {
        match RawInst::get_inst_from_id(value.opcode_id) {
            Err(e) => Err(e),
            Ok(_) => Ok(
                Instruction {
                    comment: value.comment,
                    comment_display: value.comment_display,
                    opcode_id: value.opcode_id,
                    operands: value.operands,
                    address: value.address,
                    raw_opcode: 0,
                },
            ),
        }
    }
}

impl PartialInstruction {
    /// What is stored of an instruction: all but its raw encoding.
    pub fn from(value: Instruction) -> (r: PartialInstruction)
        ensures
            r@ == (PartialInstructionView {
                comment: value@.comment,
                comment_display: value@.comment_display,
                operands: value@.operands,
                address: value@.address,
                opcode_id: value@.opcode_id,
            }),
    {
        PartialInstruction {
            comment: value.comment,
            comment_display: value.comment_display,
            operands: value.operands,
            address: value.address,
            opcode_id: value.opcode_id,
        }
    }
}

/// The constraint of operand `k` of entry `id` of the table.
pub open spec fn table_constraint(id: int, k: int) -> Constraint
    recommends
        0 <= id < 124,
        0 <= k < 3,
{
    Constraint::of_letter(table_operand(id, k).constraint).unwrap()
}

/// The operand that a text stands for as operand `k` of entry `id`.
pub open spec fn text_operand(id: int, k: int, text: Seq<char>) -> OperandView {
    OperandView {
        name: Seq::empty(),
        constraint: table_constraint(id, k),
        value: parsed(text, table_constraint(id, k)).unwrap(),
        operand_info: None,
    }
}

/// Whether the first `n` texts are operands of entry `id`.
pub open spec fn texts_fit(id: int, texts: Seq<String>, n: nat) -> bool {
    forall|k: int| 0 <= k < n ==> parsed((#[trigger] texts[k])@, table_constraint(id, k)) is Some
}

impl Instruction {
    /// Puts an instruction together from the texts of its operands, one for
    /// each operand of the entry and in their order. Fails where the
    /// identity is no entry of the table, where the number of texts is not
    /// the number of operands of the entry, and where a text is no operand
    /// of the constraint at its place.
    pub fn from_text(opcode_id: usize, texts: &Vec<String>) -> (r: Result<Instruction, Error>)
        ensures
            match r {
                Ok(inst) => {
                    &&& opcode_id < 124
                    &&& texts@.len() == OPERAND_COUNTS[opcode_id as int]
                    &&& texts_fit(opcode_id as int, texts@, texts@.len())
                    &&& inst@ == (InstructionView {
                        comment: Seq::empty(),
                        comment_display: Display::Unset,
                        opcode_id,
                        operands: Some(
                            Seq::new(
                                texts@.len(),
                                |k: int| text_operand(opcode_id as int, k, texts@[k]@),
                            ),
                        ),
                        address: 0,
                        raw_opcode: 0,
                    })
                },
                Err(e) => if opcode_id >= 124 {
                    e == (Error::UnknownInstruction { id: opcode_id })
                } else if texts@.len() != OPERAND_COUNTS[opcode_id as int] {
                    e == (Error::InvalidOperandCount {
                        expected: OPERAND_COUNTS[opcode_id as int] as usize,
                        got: texts@.len() as usize,
                    })
                } else {
                    e == Error::InvalidValue && !texts_fit(opcode_id as int, texts@, texts@.len())
                },
            },
    {
        if opcode_id >= 124 {
            return Err(Error::UnknownInstruction { id: opcode_id });
        }
        let raw = RawInst::get_inst_from_id(opcode_id)?;
        let expected = OPERAND_COUNTS[opcode_id] as usize;
        if texts.len() != expected {
            return Err(Error::InvalidOperandCount { expected, got: texts.len() });
        }
        let mut list: Vec<Operand> = Vec::new();
        let mut k: usize = 0;
        while k < expected
            invariant
                opcode_id < 124,
                k <= expected == texts@.len(),
                expected == OPERAND_COUNTS[opcode_id as int],
                raw.operands() =~= table_operands(opcode_id as int),
                list@.len() == k,
                texts_fit(opcode_id as int, texts@, k as nat),
                forall|j: int|
                    0 <= j < k ==> (#[trigger] list@[j])@ == text_operand(
                        opcode_id as int,
                        j,
                        texts@[j]@,
                    ),
            decreases expected - k,
        {
            proof {
                lemma_table_letters(opcode_id as int, k as int);
            }
            let letter = OPERAND_KINDS[opcode_id][k];
            let constraint = match Constraint::from_char(letter) {
                Some(constraint) => constraint,
                None => {
                    return Err(Error::InvalidValue);
                },
            };
            match Operand::map_value_from_string(&texts[k], constraint) {
                Ok(value) => {
                    list.push(Operand::new(constraint, value));
                },
                Err(e) => {
                    assert(!texts_fit(opcode_id as int, texts@, texts@.len()));
                    return Err(e);
                },
            }
            k = k + 1;
        }
        assert(operand_views(list@) =~= Seq::new(
            texts@.len(),
            |k: int| text_operand(opcode_id as int, k, texts@[k]@),
        ));
        Ok(
            Instruction {
                comment: String::new(),
                comment_display: Display::Unset,
                opcode_id,
                operands: Some(list),
                address: 0,
                raw_opcode: 0,
            },
        )
    }
}

/// Annotates a relative jump or call with the byte address it goes to, as a
/// decimal number to be shown in hexadecimal. Any other instruction is left
/// as it is. Fails, and changes nothing, where the identity is unknown or the
/// target is outside 64 bits.
pub fn gen_comment(i: &mut Instruction) -> (r: Result<(), Error>)
    ensures
        match annotated(old(i)@) {
            Ok(after) => r is Ok && final(i)@ == after,
            Err(e) => r == Err::<(), Error>(e) && *final(i) == *old(i),
        },
{
    i.annotate_target()
}

/// Decoding a raw word gives one result: two instructions that both are a
/// decoding of the same word, with their operands matched, are equal in
/// identity, operands and raw encoding.
pub proof fn lemma_decoding_is_deterministic(word: u16, a: InstructionView, b: InstructionView)
    requires
        a == (InstructionView { operands: matched_operands(decoded_word(word)), ..decoded_word(word) }),
        b == (InstructionView { operands: matched_operands(decoded_word(word)), ..decoded_word(word) }),
    ensures
        a.opcode_id == b.opcode_id,
        a.operands == b.operands,
        a.raw_opcode == b.raw_opcode,
        a == b,
{
}

} // verus!
