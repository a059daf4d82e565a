//! Address spaces and their memory segments.

use vstd::prelude::*;
use vstd::string::*;
use crate::error::Error;
use crate::text::ascii_chars;

verus! {

/// One address space of a device, with its memory segments.
#[derive(Debug, Clone)]
pub struct AddressSpace {
    pub memory_segments: Vec<MemorySegment>,
    pub endianess: Endianess,
    pub name: String,
    pub id: String,
    pub start: u64,
    pub size: u64,
}

/// The byte order of an address space.
#[derive(Clone, Copy, Debug, PartialEq, Eq, Structural)]
pub enum Endianess {
    Big,
    Little,
}

/// One segment of an address space.
#[derive(Debug, Clone)]
pub struct MemorySegment {
    pub start: u64,
    pub size: u64,
    pub name: String,
    pub data_type: String,
    pub access: Option<Access>,
    pub page_size: Option<u64>,
    /// Whether code can run from the segment.
    pub executable: Option<bool>,
    pub external: Option<bool>,
}

/// Whether a segment can be read only, or read and written.
#[derive(Clone, Copy, Debug, PartialEq, Eq, Structural)]
pub enum Access {
    R,
    RW,
}

/// A letter in lower case.
pub open spec fn lower(c: char) -> char {
    if 'A' <= c && c <= 'Z' {
        ((c as u8) + 32) as char
    } else {
        c
    }
}

/// Whether a text is `word` when letters in upper case count as their lower
/// case.
pub open spec fn is_word(text: Seq<char>, word: Seq<char>) -> bool {
    text.len() == word.len() && forall|k: int|
        0 <= k < text.len() ==> lower(#[trigger] text[k]) == word[k]
}

fn matches_word(chars: &Vec<char>, word: &str) -> (r: bool)
    requires
        vstd::utf8::is_ascii_chars(chars@),
    ensures
        r == is_word(chars@, word@),
{
    let len = word.unicode_len();
    if chars.len() != len {
        return false;
    }
    let mut k: usize = 0;
    while k < len
        invariant
            k <= len == chars@.len(),
            len == word@.len(),
            vstd::utf8::is_ascii_chars(chars@),
            forall|j: int| 0 <= j < k ==> lower(#[trigger] chars@[j]) == word@[j],
        decreases len - k,
    {
        let c = chars[k];
        let low = if 'A' <= c && c <= 'Z' {
            ((c as u8) + 32) as char
        } else {
            c
        };
        if low != word.get_char(k) {
            return false;
        }
        k = k + 1;
    }
    true
}

impl Endianess {
    /// The byte order that a description writes as `big` or `little`, in
    /// either case; an error for any other text.
    pub fn from_str(s: &str) -> (r: Result<Endianess, Error>)
        ensures
            r == (if is_word(s@, "big"@) {
                Ok::<Endianess, Error>(Endianess::Big)
            } else if is_word(s@, "little"@) {
                Ok(Endianess::Little)
            } else {
                Err(Error::InvalidValue)
            }),
    {
        proof {
            reveal_strlit("big");
            reveal_strlit("little");
        }
        match ascii_chars(s) {
            None => {
                assert(!is_word(s@, "big"@)) by {
                    if is_word(s@, "big"@) {
                        assert forall|k: int| 0 <= k < s@.len() implies '\0' <= #[trigger] s@[k]
                            <= '\u{7f}' by {
                            assert(lower(s@[k]) == "big"@[k]);
                        }
                    }
                }
                assert(!is_word(s@, "little"@)) by {
                    if is_word(s@, "little"@) {
                        assert forall|k: int| 0 <= k < s@.len() implies '\0' <= #[trigger] s@[k]
                            <= '\u{7f}' by {
                            assert(lower(s@[k]) == "little"@[k]);
                        }
                    }
                }
                Err(Error::InvalidValue)
            },
            Some(chars) => if matches_word(&chars, "big") {
                Ok(Endianess::Big)
            } else if matches_word(&chars, "little") {
                Ok(Endianess::Little)
            } else {
                Err(Error::InvalidValue)
            },
        }
    }
}

impl Access {
    /// The access that a description writes as `R` or `RW`; `None` for any
    /// other text.
    pub fn option_from(s: &str) -> (r: Option<Access>)
        ensures
            r == (if s@ == "R"@ {
                Some(Access::R)
            } else if s@ == "RW"@ {
                Some(Access::RW)
            } else {
                None
            }),
    {
        let text = String::from_str(s);
        if text == String::from_str("R") {
            Some(Access::R)
        } else if text == String::from_str("RW") {
            Some(Access::RW)
        } else {
            None
        }
    }
}

} // verus!
