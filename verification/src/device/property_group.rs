//! Named properties of a device, and the numbers of a description.

use vstd::prelude::*;
use vstd::string::*;
use vstd::utf8::is_ascii_chars;
use crate::text::{ascii_chars, parse_unsigned, unsigned_decimal_value, unsigned_hex_value};

verus! {

/// A named group of properties.
#[derive(Debug, Clone)]
pub struct PropertyGroup {
    pub name: String,
    pub properties: Vec<Property>,
}

/// One property.
#[derive(Debug, Clone)]
pub struct Property {
    pub name: String,
    pub value: PropertyValue,
}

/// The value of a property: a number, a list of numbers, or a text.
#[derive(Debug, Clone)]
pub enum PropertyValue {
    Number(u64),
    Vec(Vec<u64>),
    String(String),
}

/// The value of a property as a plain value.
pub enum PropertyValueView {
    Number(u64),
    Vec(Seq<u64>),
    String(Seq<char>),
}

impl View for PropertyValue {
    type V = PropertyValueView;

    open spec fn view(&self) -> PropertyValueView {
        match self {
            PropertyValue::Number(n) => PropertyValueView::Number(*n),
            PropertyValue::Vec(list) => PropertyValueView::Vec(list@),
            PropertyValue::String(text) => PropertyValueView::String(text@),
        }
    }
}

/// Whether a text begins with `0x`.
pub open spec fn has_hex_mark(text: Seq<char>) -> bool {
    text.len() >= 2 && text[0] == '0' && text[1] == 'x'
}

/// The number that a description writes: in hexadecimal behind `0x`, else
/// in decimal. `None` for a text that is no number, that is not ASCII, or
/// whose number is outside 64 bits.
pub open spec fn number_of(text: Seq<char>) -> Option<u64> {
    if !is_ascii_chars(text) {
        None
    } else if has_hex_mark(text) {
        unsigned_hex_value(text.skip(2))
    } else {
        unsigned_decimal_value(text)
    }
}

/// Where the piece that begins at `pos` ends: at the next blank, or at the
/// end of the text.
pub open spec fn piece_end(text: Seq<char>, pos: int) -> int
    decreases text.len() - pos,
{
    if pos >= text.len() || text[pos] == ' ' {
        pos
    } else {
        piece_end(text, pos + 1)
    }
}

/// The numbers of a list from `pos` on: pieces between single blanks, each
/// a hexadecimal number behind `0x`. `None` where a piece is no such number.
pub open spec fn hex_list_from(text: Seq<char>, pos: int) -> Option<Seq<u64>>
    decreases text.len() + 1 - pos,
{
    if pos < 0 || pos > text.len() {
        None
    } else {
        let end = piece_end(text, pos);
        if end < pos || end > text.len() {
            None
        } else {
            let piece = text.subrange(pos, end);
            if !has_hex_mark(piece) {
                None
            } else {
                match unsigned_hex_value(piece.skip(2)) {
                    None => None,
                    Some(value) => if end == text.len() {
                        Some(seq![value])
                    } else {
                        match hex_list_from(text, end + 1) {
                            Some(rest) => Some(seq![value] + rest),
                            None => None,
                        }
                    },
                }
            }
        }
    }
}

/// The value that the text of a property stands for: behind `0x` a
/// hexadecimal number, or else a list of such numbers; without `0x` a
/// decimal number; and any other text itself.
pub open spec fn property_of(text: Seq<char>) -> PropertyValueView {
    if !is_ascii_chars(text) {
        PropertyValueView::String(text)
    } else if has_hex_mark(text) {
        match unsigned_hex_value(text.skip(2)) {
            Some(value) => PropertyValueView::Number(value),
            None => match hex_list_from(text, 0) {
                Some(list) => PropertyValueView::Vec(list),
                None => PropertyValueView::String(text),
            },
        }
    } else {
        match unsigned_decimal_value(text) {
            Some(value) => PropertyValueView::Number(value),
            None => PropertyValueView::String(text),
        }
    }
}

fn marked(chars: &Vec<char>, from: usize, to: usize) -> (r: bool)
    requires
        from <= to <= chars@.len(),
    ensures
        r == has_hex_mark(chars@.subrange(from as int, to as int)),
{
    if to - from >= 2 {
        assert(chars@.subrange(from as int, to as int)[0] == chars@[from as int]);
        assert(chars@.subrange(from as int, to as int)[1] == chars@[from + 1]);
        chars[from] == '0' && chars[from + 1] == 'x'
    } else {
        false
    }
}

/// Reads a number of a description.
pub fn number(text: &str) -> (r: Option<u64>)
    ensures
        r == number_of(text@),
{
    let chars = match ascii_chars(text) {
        Some(chars) => chars,
        None => {
            return None;
        },
    };
    let len = chars.len();
    assert(chars@.subrange(0, len as int) =~= chars@);
    if marked(&chars, 0, len) {
        assert(chars@.subrange(2, len as int) =~= chars@.skip(2));
        parse_unsigned(&chars, 2, len, true)
    } else {
        parse_unsigned(&chars, 0, len, false)
    }
}

fn find_piece_end(chars: &Vec<char>, pos: usize) -> (r: usize)
    requires
        pos <= chars@.len(),
    ensures
        r == piece_end(chars@, pos as int),
        pos <= r <= chars@.len(),
{
    let mut end = pos;
    while end < chars.len() && chars[end] != ' '
        invariant
            pos <= end <= chars@.len(),
            piece_end(chars@, pos as int) == piece_end(chars@, end as int),
        decreases chars@.len() - end,
    {
        end = end + 1;
    }
    end
}

/// What is known of a list when the numbers before `pos` are `done`.
pub open spec fn list_after(text: Seq<char>, done: Seq<u64>, pos: int) -> Option<Seq<u64>> {
    match hex_list_from(text, pos) {
        Some(rest) => Some(done + rest),
        None => None,
    }
}

fn read_hex_list(chars: &Vec<char>) -> (r: Option<Vec<u64>>)
    ensures
        match r {
            Some(list) => hex_list_from(chars@, 0) == Some(list@),
            None => hex_list_from(chars@, 0) is None,
        },
{
    let mut list: Vec<u64> = Vec::new();
    let mut pos: usize = 0;
    proof {
        match hex_list_from(chars@, 0) {
            Some(rest) => {
                assert(list@ + rest =~= rest);
            },
            None => {},
        }
    }
    loop
        invariant
            pos <= chars@.len(),
            hex_list_from(chars@, 0) == list_after(chars@, list@, pos as int),
        decreases chars@.len() - pos,
    {
        let end = find_piece_end(chars, pos);
        if !marked(chars, pos, end) {
            return None;
        }
        assert(chars@.subrange(pos as int, end as int).skip(2) =~= chars@.subrange(
            pos + 2,
            end as int,
        ));
        let value = match parse_unsigned(chars, pos + 2, end, true) {
            Some(value) => value,
            None => {
                return None;
            },
        };
        let ghost before = list@;
        list.push(value);
        if end == chars.len() {
            assert(before + seq![value] =~= list@);
            return Some(list);
        }
        proof {
            match hex_list_from(chars@, end + 1) {
                Some(rest) => {
                    assert(before + (seq![value] + rest) =~= list@ + rest);
                },
                None => {},
            }
        }
        pos = end + 1;
    }
}

impl PropertyValue {
    /// The value that the text of a property stands for.
    pub fn from(x: &str) -> (r: PropertyValue)
        ensures
            r@ == property_of(x@),
    {
        let chars = match ascii_chars(x) {
            Some(chars) => chars,
            None => {
                return PropertyValue::String(String::from_str(x));
            },
        };
        let len = chars.len();
        assert(chars@.subrange(0, len as int) =~= chars@);
        if marked(&chars, 0, len) {
            assert(chars@.subrange(2, len as int) =~= chars@.skip(2));
            match parse_unsigned(&chars, 2, len, true) {
                Some(value) => PropertyValue::Number(value),
                None => match read_hex_list(&chars) {
                    Some(list) => PropertyValue::Vec(list),
                    None => PropertyValue::String(String::from_str(x)),
                },
            }
        } else {
            match parse_unsigned(&chars, 0, len, false) {
                Some(value) => PropertyValue::Number(value),
                None => PropertyValue::String(String::from_str(x)),
            }
        }
    }
}

} // verus!
