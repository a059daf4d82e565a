//! The loader: Intel HEX text to decoded instructions.
//!
//! Each line of an image is a record: a colon, then pairs of hexadecimal
//! digits for the byte count, the address (two bytes, high byte first), the
//! record type, the data and the checksum. The bytes of a data record are
//! taken in pairs, the low byte of a word first, and every word is decoded
//! in the order of the image.

use vstd::prelude::*;
use crate::display::Display;
use crate::error::Error;
use crate::instruction::{
    decoded_id, matched_operands, Instruction, InstructionView, PartialInstruction,
    PartialInstructionView,
};
use crate::memory::flash_views;
use crate::opcode::{is_custom_id, RawInst, OPCODE_LENGTHS};
use crate::text::{ascii_chars, digit_of, digit_value};
use vstd::utf8::is_ascii_chars;

verus! {

/// The data of one data record, with the byte address it is loaded at.
#[derive(Debug)]
pub struct RawData {
    pub data: Vec<u8>,
    pub address: u32,
}

/// A data record as plain values.
pub struct RawDataView {
    pub data: Seq<u8>,
    pub address: u32,
}

impl View for RawData {
    type V = RawDataView;

    open spec fn view(&self) -> RawDataView {
        RawDataView { data: self.data@, address: self.address }
    }
}

/// One record of an image.
pub struct Record {
    pub kind: u8,
    pub address: int,
    pub data: Seq<u8>,
}

/// Where the decoder stands: the instructions so far, and whether the last
/// of them still waits for its second word.
pub struct DecodeState {
    pub list: Seq<InstructionView>,
    pub pending: bool,
}

/// The views of a list of data records.
pub open spec fn record_views(list: Seq<RawData>) -> Seq<RawDataView> {
    Seq::new(list.len(), |k: int| list[k]@)
}

/// Whether a line is a colon and pairs of hexadecimal digits.
pub open spec fn is_hex_line(line: Seq<char>) -> bool {
    &&& line.len() % 2 == 1
    &&& line[0] == ':'
    &&& forall|k: int| 1 <= k < line.len() ==> digit_value(#[trigger] line[k]) < 16
}

/// Byte `k` of a line: the pair of digits behind the colon and `k` pairs.
pub open spec fn line_byte(line: Seq<char>, k: int) -> u8 {
    (16 * digit_value(line[1 + 2 * k]) + digit_value(line[2 + 2 * k])) as u8
}

/// The bytes of a line.
pub open spec fn line_bytes(line: Seq<char>) -> Seq<u8> {
    Seq::new(((line.len() - 1) / 2) as nat, |k: int| line_byte(line, k))
}

/// The sum of the first `n` bytes.
pub open spec fn byte_sum(bytes: Seq<u8>, n: nat) -> int
    decreases n,
{
    if n == 0 {
        0
    } else {
        byte_sum(bytes, (n - 1) as nat) + bytes[n - 1]
    }
}

/// The checksum that a record must end with: the two's complement of the
/// sum of the bytes before it, on eight bits.
pub open spec fn expected_checksum(bytes: Seq<u8>) -> u8
    recommends
        bytes.len() >= 1,
{
    ((256 - byte_sum(bytes, (bytes.len() - 1) as nat) % 256) % 256) as u8
}

/// Whether the last byte is the checksum of the bytes before it.
pub open spec fn checksum_ok(bytes: Seq<u8>) -> bool {
    bytes.len() >= 1 && bytes[bytes.len() - 1] == expected_checksum(bytes)
}

/// The record that line number `number` holds.
pub open spec fn record_of(line: Seq<char>, number: usize) -> Result<Record, Error> {
    if line.len() == 0 || line[0] != ':' {
        Err(Error::MissingStartCode { line: number })
    } else if !is_hex_line(line) || line_bytes(line).len() < 5 || line_bytes(line).len()
        != line_bytes(line)[0] + 5 {
        Err(Error::MalformedRecord { line: number })
    } else if !checksum_ok(line_bytes(line)) {
        Err(Error::ChecksumMismatch { line: number })
    } else {
        let bytes = line_bytes(line);
        Ok(
            Record {
                kind: bytes[3],
                address: bytes[1] * 256 + bytes[2],
                data: bytes.subrange(4, 4 + bytes[0]),
            },
        )
    }
}

/// Where the line that begins at `pos` ends: at the next line feed, or at
/// the end of the text.
pub open spec fn line_end(text: Seq<char>, pos: int) -> int
    decreases text.len() - pos,
{
    if pos >= text.len() || text[pos] == '\n' {
        pos
    } else {
        line_end(text, pos + 1)
    }
}

/// The line between `pos` and `end`, without a carriage return at its end.
pub open spec fn line_at(text: Seq<char>, pos: int, end: int) -> Seq<char> {
    if pos < end && text[end - 1] == '\r' {
        text.subrange(pos, end - 1)
    } else {
        text.subrange(pos, end)
    }
}

/// The number that the data of an extended segment address record stands
/// for, high byte first, on 32 bits.
pub open spec fn segment_value(data: Seq<u8>, n: nat) -> int
    decreases n,
{
    if n == 0 {
        0
    } else {
        (segment_value(data, (n - 1) as nat) * 256 + data[n - 1]) % 0x1_0000_0000
    }
}

/// The data records of an image from position `pos` on, where `number` is
/// the number of the line at `pos` and `offset` the address offset in force:
/// a data record (type 0) is loaded at its address plus the offset, an
/// extended segment address record (type 2) sets the offset to sixteen times
/// its value, the end-of-file record (type 1) ends the image, the types 3, 4
/// and 5 are not implemented, and any other type is invalid.
pub open spec fn load_from(text: Seq<char>, pos: int, number: usize, offset: u32) -> Result<
    Seq<RawDataView>,
    Error,
>
    decreases text.len() + 1 - pos,
{
    if pos >= text.len() || pos < 0 {
        Ok(Seq::empty())
    } else {
        let end = line_end(text, pos);
        if end < pos || end > text.len() {
            Ok(Seq::empty())
        } else {
            match record_of(line_at(text, pos, end), number) {
                Err(e) => Err(e),
                Ok(record) => if record.kind == 0 {
                    match load_from(text, end + 1, (number + 1) as usize, offset) {
                        Err(e) => Err(e),
                        Ok(rest) => Ok(
                            seq![
                                RawDataView {
                                    data: record.data,
                                    address: ((record.address + offset) % 0x1_0000_0000) as u32,
                                },
                            ] + rest,
                        ),
                    }
                } else if record.kind == 1 {
                    Ok(Seq::empty())
                } else if record.kind == 2 {
                    load_from(
                        text,
                        end + 1,
                        (number + 1) as usize,
                        ((segment_value(record.data, record.data.len()) * 16) % 0x1_0000_0000) as u32,
                    )
                } else if record.kind <= 5 {
                    Err(Error::NotImplemented { record_type: record.kind })
                } else {
                    Err(Error::InvalidRecordType { record_type: record.kind })
                },
            }
        }
    }
}

/// The instruction that one word starts, at the word address `address`. Of
/// a two-word instruction the word goes to the upper half of the encoding.
pub open spec fn started(address: u32, word: u16) -> InstructionView {
    let id = decoded_id(word);
    InstructionView {
        comment: Seq::empty(),
        comment_display: Display::Unset,
        opcode_id: id,
        operands: None,
        address,
        raw_opcode: if starts_two_words(word) {
            (word * 65536) as u32
        } else {
            word as u32
        },
    }
}

/// Whether a word is the first of a two-word instruction.
pub open spec fn starts_two_words(word: u16) -> bool {
    decoded_id(word) < 124 && OPCODE_LENGTHS[decoded_id(word) as int] == 2
}

/// The decoder after one more word: the word completes the instruction that
/// waits for its second word, or else starts the next instruction.
pub open spec fn feed_word(state: DecodeState, address: u32, word: u16) -> DecodeState {
    if state.pending && state.list.len() > 0 {
        let last = state.list[state.list.len() - 1];
        DecodeState {
            list: state.list.update(
                state.list.len() - 1,
                InstructionView { raw_opcode: (last.raw_opcode + word) as u32, ..last },
            ),
            pending: false,
        }
    } else {
        DecodeState { list: state.list.push(started(address, word)), pending: starts_two_words(word) }
    }
}

/// The word address of word `k` of a record: half its byte address, on 32
/// bits.
pub open spec fn word_address(record: RawDataView, k: int) -> u32 {
    (((record.address + 2 * k) / 2) % 0x1_0000_0000) as u32
}

/// Whether every instruction of a list has a known identity.
pub open spec fn all_known(list: Seq<InstructionView>) -> bool {
    forall|j: int|
        0 <= j < list.len() ==> (#[trigger] list[j]).opcode_id < 124 || is_custom_id(
            list[j].opcode_id as int,
        )
}

/// Word `k` of a record: two bytes, the low byte first.
pub open spec fn record_word(record: RawDataView, k: int) -> u16 {
    (record.data[2 * k] + 256 * record.data[2 * k + 1]) as u16
}

/// The decoder after the first `k` words of a record. A byte that is left
/// over at the end of a record is dropped.
pub open spec fn feed_record(state: DecodeState, record: RawDataView, k: nat) -> DecodeState
    decreases k,
{
    if k == 0 {
        state
    } else {
        feed_word(
            feed_record(state, record, (k - 1) as nat),
            word_address(record, k - 1),
            record_word(record, k - 1),
        )
    }
}

/// The decoder after the first `n` records. An instruction whose second
/// word is missing at the end of a record is completed by the first word of
/// the next record; where there is none, it keeps an empty lower half.
pub open spec fn feed_records(records: Seq<RawDataView>, n: nat) -> DecodeState
    decreases n,
{
    if n == 0 {
        DecodeState { list: Seq::empty(), pending: false }
    } else {
        feed_record(
            feed_records(records, (n - 1) as nat),
            records[n - 1],
            records[n - 1].data.len() / 2,
        )
    }
}

/// An instruction with its operands matched.
pub open spec fn matched(inst: InstructionView) -> InstructionView {
    InstructionView { operands: matched_operands(inst), ..inst }
}

/// The instructions that a list of data records decodes to.
pub open spec fn decoded_records(records: Seq<RawDataView>) -> Seq<InstructionView> {
    feed_records(records, records.len()).list.map_values(|inst: InstructionView| matched(inst))
}

/// What an image loads as.
pub open spec fn loaded(text: Seq<char>) -> Result<Seq<InstructionView>, Error> {
    if !is_ascii_chars(text) {
        Err(Error::MalformedRecord { line: 0 })
    } else {
        match load_from(text, 0, 1, 0) {
            Err(e) => Err(e),
            Ok(records) => Ok(decoded_records(records)),
        }
    }
}

/// Reads the bytes of a line: `None` unless the line is a colon and pairs
/// of hexadecimal digits.
pub(crate) fn read_line_bytes(chars: &Vec<char>, from: usize, to: usize) -> (r: Option<Vec<u8>>)
    requires
        from < to <= chars@.len(),
        chars@[from as int] == ':',
    ensures
        match r {
            Some(bytes) => is_hex_line(chars@.subrange(from as int, to as int)) && bytes@
                == line_bytes(chars@.subrange(from as int, to as int)),
            None => !is_hex_line(chars@.subrange(from as int, to as int)),
        },
{
    let ghost line = chars@.subrange(from as int, to as int);
    if (to - from) % 2 != 1 {
        return None;
    }
    let mut bytes: Vec<u8> = Vec::new();
    let mut k: usize = from + 1;
    while k < to
        invariant
            from < k <= to <= chars@.len(),
            (k - from) % 2 == 1,
            (to - from) % 2 == 1,
            line == chars@.subrange(from as int, to as int),
            bytes@.len() == (k - from - 1) / 2,
            forall|j: int| 1 <= j < k - from ==> digit_value(#[trigger] line[j]) < 16,
            forall|j: int| 0 <= j < bytes@.len() ==> bytes@[j] == line_byte(line, j),
        decreases to - k,
    {
        let high = digit_of(chars[k]);
        let low = digit_of(chars[k + 1]);
        assert(line[k - from] == chars@[k as int]);
        assert(line[k + 1 - from] == chars@[k + 1]);
        if high >= 16 || low >= 16 {
            return None;
        }
        bytes.push(16 * high + low);
        k = k + 2;
    }
    assert(bytes@ =~= line_bytes(line));
    Some(bytes)
}

/// Whether the last byte of a record is the two's complement of the sum of
/// the bytes before it.
pub fn checksum_matches(bytes: &Vec<u8>) -> (r: bool)
    ensures
        r == checksum_ok(bytes@),
{
    if bytes.len() == 0 {
        return false;
    }
    let last = bytes.len() - 1;
    let mut sum: u8 = 0;
    let mut k: usize = 0;
    while k < last
        invariant
            k <= last < bytes@.len(),
            sum == byte_sum(bytes@, k as nat) % 256,
        decreases last - k,
    {
        sum = ((sum as u16 + bytes[k] as u16) % 256) as u8;
        k = k + 1;
    }
    let expected: u8 = ((256 - sum as u16) % 256) as u8;
    bytes[last] == expected
}

/// Checks the checksum of one line of an image: whether the last byte of the
/// line is the two's complement of the sum of the bytes before it. An error
/// for a line that is not a colon and pairs of hexadecimal digits.
pub fn calculate_checksum(line: &str) -> (r: Result<bool, Error>)
    ensures
        r == (if is_ascii_chars(line@) && line@.len() >= 3 && is_hex_line(line@) {
            Ok::<bool, Error>(checksum_ok(line_bytes(line@)))
        } else {
            Err(Error::InvalidValue)
        }),
{
    let chars = match ascii_chars(line) {
        Some(chars) => chars,
        None => {
            return Err(Error::InvalidValue);
        },
    };
    if chars.len() < 3 || chars[0] != ':' {
        return Err(Error::InvalidValue);
    }
    assert(chars@.subrange(0, chars@.len() as int) =~= chars@);
    match read_line_bytes(&chars, 0, chars.len()) {
        Some(bytes) => Ok(checksum_matches(&bytes)),
        None => Err(Error::InvalidValue),
    }
}

/// Reads the record of one line.
fn read_record(chars: &Vec<char>, from: usize, to: usize, number: usize) -> (r: Result<
    (u8, u16, Vec<u8>),
    Error,
>)
    requires
        from <= to <= chars@.len(),
    ensures
        match r {
            Ok((kind, address, data)) => record_of(
                chars@.subrange(from as int, to as int),
                number,
            ) == Ok::<Record, Error>(Record { kind, address: address as int, data: data@ }),
            Err(e) => record_of(chars@.subrange(from as int, to as int), number) == Err::<
                Record,
                Error,
            >(e),
        },
{
    let ghost line = chars@.subrange(from as int, to as int);
    if from == to || chars[from] != ':' {
        assert(line.len() > 0 ==> line[0] == chars@[from as int]);
        return Err(Error::MissingStartCode { line: number });
    }
    assert(line[0] == chars@[from as int]);
    let bytes = match read_line_bytes(chars, from, to) {
        Some(bytes) => bytes,
        None => {
            return Err(Error::MalformedRecord { line: number });
        },
    };
    if bytes.len() < 5 || bytes.len() != bytes[0] as usize + 5 {
        return Err(Error::MalformedRecord { line: number });
    }
    if !checksum_matches(&bytes) {
        return Err(Error::ChecksumMismatch { line: number });
    }
    let count = bytes[0] as usize;
    let mut data: Vec<u8> = Vec::new();
    let mut k: usize = 0;
    while k < count
        invariant
            k <= count <= 255,
            bytes@.len() == count + 5,
            data@.len() == k,
            forall|j: int| 0 <= j < k ==> data@[j] == bytes@[4 + j],
        decreases count - k,
    {
        data.push(bytes[4 + k]);
        k = k + 1;
    }
    assert(data@ =~= bytes@.subrange(4, 4 + count));
    Ok((bytes[3], bytes[1] as u16 * 256 + bytes[2] as u16, data))
}

/// Finds the end of the line that begins at `pos`.
fn find_line_end(chars: &Vec<char>, pos: usize) -> (r: usize)
    requires
        pos <= chars@.len(),
    ensures
        r == line_end(chars@, pos as int),
        pos <= r <= chars@.len(),
{
    let mut end = pos;
    while end < chars.len() && chars[end] != '\n'
        invariant
            pos <= end <= chars@.len(),
            line_end(chars@, pos as int) == line_end(chars@, end as int),
        decreases chars@.len() - end,
    {
        end = end + 1;
    }
    end
}

/// The offset that an extended segment address record sets.
fn segment_offset(data: &Vec<u8>) -> (r: u32)
    ensures
        r == (segment_value(data@, data@.len()) * 16) % 0x1_0000_0000,
{
    let mut value: u64 = 0;
    let mut k: usize = 0;
    while k < data.len()
        invariant
            k <= data@.len(),
            value == segment_value(data@, k as nat),
            value < 0x1_0000_0000,
        decreases data@.len() - k,
    {
        value = (value * 256 + data[k] as u64) % 0x1_0000_0000;
        k = k + 1;
    }
    ((value * 16) % 0x1_0000_0000) as u32
}

/// Reads the data records of an image.
pub fn load_records(chars: &Vec<char>) -> (r: Result<Vec<RawData>, Error>)
    ensures
        match r {
            Ok(records) => load_from(chars@, 0, 1, 0) == Ok::<Seq<RawDataView>, Error>(
                record_views(records@),
            ),
            Err(e) => load_from(chars@, 0, 1, 0) == Err::<Seq<RawDataView>, Error>(e),
        },
{
    let mut records: Vec<RawData> = Vec::new();
    let mut pos: usize = 0;
    let mut number: usize = 1;
    let mut offset: u32 = 0;
    assert(record_views(records@) + Seq::<RawDataView>::empty() =~= record_views(records@));
    while pos < chars.len()
        invariant
            pos <= chars@.len() + 1,
            1 <= number <= pos + 1,
            load_from(chars@, 0, 1, 0) == (match load_from(chars@, pos as int, number, offset) {
                Ok(rest) => Ok::<Seq<RawDataView>, Error>(record_views(records@) + rest),
                Err(e) => Err(e),
            }),
        decreases chars@.len() + 1 - pos,
    {
        let end = find_line_end(chars, pos);
        let stop = if pos < end && chars[end - 1] == '\r' {
            end - 1
        } else {
            end
        };
        assert(chars@.subrange(pos as int, stop as int) == line_at(chars@, pos as int, end as int));
        let (kind, address, data) = read_record(chars, pos, stop, number)?;
        let ghost before = record_views(records@);
        if kind == 0 {
            let at = ((address as u64 + offset as u64) % 0x1_0000_0000) as u32;
            let ghost view = RawDataView { data: data@, address: at };
            records.push(RawData { data, address: at });
            proof {
                assert(record_views(records@) =~= before + seq![view]);
                match load_from(chars@, end + 1, (number + 1) as usize, offset) {
                    Ok(rest) => {
                        assert(before + (seq![view] + rest) =~= (before + seq![view]) + rest);
                    },
                    Err(_) => {},
                }
            }
        } else if kind == 1 {
            assert(before + Seq::<RawDataView>::empty() =~= before);
            return Ok(records);
        } else if kind == 2 {
            offset = segment_offset(&data);
        } else if kind <= 5 {
            return Err(Error::NotImplemented { record_type: kind });
        } else {
            return Err(Error::InvalidRecordType { record_type: kind });
        }
        if end == chars.len() {
            assert(load_from(chars@, end + 1, (number + 1) as usize, offset) == Ok::<
                Seq<RawDataView>,
                Error,
            >(Seq::empty()));
            assert(record_views(records@) + Seq::<RawDataView>::empty() =~= record_views(
                records@,
            ));
            return Ok(records);
        }
        pos = end + 1;
        number = number + 1;
    }
    assert(record_views(records@) + Seq::<RawDataView>::empty() =~= record_views(records@));
    Ok(records)
}

/// Whether the decoder's state matches a list of instructions whose
/// operands are not matched yet.
pub open spec fn state_of(list: Seq<Instruction>, pending: bool) -> DecodeState {
    DecodeState { list: flash_views(list), pending }
}

/// Feeds one word to the decoder.
fn decode_word(list: &mut Vec<Instruction>, pending: bool, address: u32, word: u16) -> (r: bool)
    requires
        pending ==> old(list)@.len() > 0 && old(list)@[old(list)@.len() - 1].raw_opcode % 65536
            == 0,
        all_known(flash_views(old(list)@)),
    ensures
        state_of(final(list)@, r) == feed_word(state_of(old(list)@, pending), address, word),
        r ==> final(list)@.len() > 0 && final(list)@[final(list)@.len() - 1].raw_opcode % 65536
            == 0,
        all_known(flash_views(final(list)@)),
{
    let ghost before = flash_views(list@);
    if pending {
        let at = list.len() - 1;
        let last = &list[at];
        let mut inst = last.duplicate();
        inst.raw_opcode = inst.raw_opcode + word as u32;
        list.set(at, inst);
        assert(flash_views(list@) =~= before.update(
            at as int,
            InstructionView { raw_opcode: (before[at as int].raw_opcode + word) as u32, ..before[at as int] },
        ));
        false
    } else {
        let id = match RawInst::get_inst_id_from_opcode_num(word) {
            Some(id) => id,
            None => crate::opcode::WORD_ID,
        };
        let two = id < 124 && OPCODE_LENGTHS[id] == 2;
        let inst = Instruction {
            comment: String::new(),
            comment_display: Display::Unset,
            opcode_id: id,
            operands: None,
            address,
            raw_opcode: if two {
                word as u32 * 65536
            } else {
                word as u32
            },
        };
        list.push(inst);
        assert(flash_views(list@) =~= before.push(started(address, word)));
        two
    }
}

/// Decodes the words of a list of data records, in their order, and matches
/// the operands of every instruction.
pub fn decode_records(records: &Vec<RawData>) -> (r: Vec<Instruction>)
    ensures
        flash_views(r@) == decoded_records(record_views(records@)),
{
    let mut list: Vec<Instruction> = Vec::new();
    let mut pending = false;
    let mut n: usize = 0;
    assert(flash_views(list@) =~= Seq::<InstructionView>::empty());
    while n < records.len()
        invariant
            n <= records@.len(),
            state_of(list@, pending) == feed_records(record_views(records@), n as nat),
            pending ==> list@.len() > 0 && list@[list@.len() - 1].raw_opcode % 65536 == 0,
            all_known(flash_views(list@)),
        decreases records@.len() - n,
    {
        let record = &records[n];
        assert(record_views(records@)[n as int] == record@);
        let len = record.data.len();
        let words = len / 2;
        let mut k: usize = 0;
        while k < words
            invariant
                k <= words == len / 2,
                len == record@.data.len(),
                all_known(flash_views(list@)),
                state_of(list@, pending) == feed_record(
                    feed_records(record_views(records@), n as nat),
                    record@,
                    k as nat,
                ),
                pending ==> list@.len() > 0 && list@[list@.len() - 1].raw_opcode % 65536 == 0,
            decreases words - k,
        {
            let word: u16 = record.data[2 * k] as u16 + 256 * (record.data[2 * k + 1] as u16);
            let at = (((record.address as u128 + 2 * (k as u128)) / 2) % 0x1_0000_0000) as u32;
            pending = decode_word(&mut list, pending, at, word);
            k = k + 1;
        }
        n = n + 1;
    }
    let ghost unmatched = flash_views(list@);
    let mut m: usize = 0;
    while m < list.len()
        invariant
            m <= list@.len(),
            list@.len() == unmatched.len(),
            forall|j: int| 0 <= j < m ==> (#[trigger] list@[j])@ == matched(unmatched[j]),
            forall|j: int| m <= j < list@.len() ==> (#[trigger] list@[j])@ == unmatched[j],
            all_known(unmatched),
        decreases list@.len() - m,
    {
        let mut inst = list[m].duplicate();
        assert(inst@ == unmatched[m as int]);
        let _ = inst.mach_registers();
        list.set(m, inst);
        m = m + 1;
    }
    assert(flash_views(list@) =~= unmatched.map_values(|inst: InstructionView| matched(inst)));
    list
}

/// Loads an image: checks every line, gathers the data records and decodes
/// their words. A line with a wrong checksum, a line that is no record and
/// a record of a type that is not handled stop the load with an error that
/// names the line or the type.
pub fn parse_hex(contents: &str) -> (r: Result<Vec<Instruction>, Error>)
    ensures
        match r {
            Ok(list) => loaded(contents@) == Ok::<Seq<InstructionView>, Error>(flash_views(list@)),
            Err(e) => loaded(contents@) == Err::<Seq<InstructionView>, Error>(e),
        },
{
    let chars = match ascii_chars(contents) {
        Some(chars) => chars,
        None => {
            return Err(Error::MalformedRecord { line: 0 });
        },
    };
    let records = load_records(&chars)?;
    Ok(decode_records(&records))
}

/// The instruction that a stored one stands for.
pub open spec fn restored(stored: PartialInstructionView) -> InstructionView {
    InstructionView {
        comment: stored.comment,
        comment_display: stored.comment_display,
        opcode_id: stored.opcode_id,
        operands: stored.operands,
        address: stored.address,
        raw_opcode: 0,
    }
}

/// Whether a stored instruction has a known identity.
pub open spec fn is_known(stored: PartialInstruction) -> bool {
    stored.opcode_id < 124 || is_custom_id(stored.opcode_id as int)
}

/// The instructions that a list of stored instructions stands for; the
/// error of the first one whose identity is unknown.
pub fn parse_vec(inst: Vec<PartialInstruction>) -> (r: Result<Vec<Instruction>, Error>)
    ensures
        match r {
            Ok(list) => {
                &&& list@.len() == inst@.len()
                &&& forall|k: int| 0 <= k < inst@.len() ==> is_known(#[trigger] inst@[k])
                &&& forall|k: int|
                    0 <= k < inst@.len() ==> (#[trigger] list@[k])@ == restored(inst@[k]@)
            },
            Err(e) => exists|k: int|
                {
                    &&& 0 <= k < inst@.len()
                    &&& !is_known(#[trigger] inst@[k])
                    &&& e == (Error::UnknownInstruction { id: inst@[k].opcode_id })
                    &&& forall|j: int| 0 <= j < k ==> is_known(#[trigger] inst@[j])
                },
        },
{
    let mut list: Vec<Instruction> = Vec::new();
    let mut k: usize = 0;
    while k < inst.len()
        invariant
            k <= inst@.len(),
            list@.len() == k,
            forall|j: int| 0 <= j < k ==> is_known(#[trigger] inst@[j]),
            forall|j: int| 0 <= j < k ==> (#[trigger] list@[j])@ == restored(inst@[j]@),
        decreases inst@.len() - k,
    {
        let stored = &inst[k];
        let operands = match &stored.operands {
            Some(operands) => Some(crate::instruction::duplicate_operands(operands)),
            None => None,
        };
        let copy = PartialInstruction {
            comment: stored.comment.clone(),
            comment_display: stored.comment_display,
            operands,
            address: stored.address,
            opcode_id: stored.opcode_id,
        };
        assert(copy@ == stored@);
        match Instruction::try_from(copy) {
            Ok(one) => {
                list.push(one);
            },
            Err(e) => {
                assert(!is_known(inst@[k as int]));
                return Err(e);
            },
        }
        k = k + 1;
    }
    Ok(list)
}

} // verus!
