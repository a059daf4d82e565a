//! Numbers as text: the decimal and hexadecimal forms that operands are
//! written in, and reading them back.

use vstd::prelude::*;
use vstd::string::*;
use vstd::utf8::is_ascii_chars;

verus! {

/// The character for a digit below sixteen, in lower case.
pub open spec fn digit_char(d: int) -> char {
    if d == 0 {
        '0'
    } else if d == 1 {
        '1'
    } else if d == 2 {
        '2'
    } else if d == 3 {
        '3'
    } else if d == 4 {
        '4'
    } else if d == 5 {
        '5'
    } else if d == 6 {
        '6'
    } else if d == 7 {
        '7'
    } else if d == 8 {
        '8'
    } else if d == 9 {
        '9'
    } else if d == 10 {
        'a'
    } else if d == 11 {
        'b'
    } else if d == 12 {
        'c'
    } else if d == 13 {
        'd'
    } else if d == 14 {
        'e'
    } else {
        'f'
    }
}

/// The value of a digit character in either case, or 16 for a character that
/// is no digit.
pub open spec fn digit_value(c: char) -> int {
    if c == '0' {
        0
    } else if c == '1' {
        1
    } else if c == '2' {
        2
    } else if c == '3' {
        3
    } else if c == '4' {
        4
    } else if c == '5' {
        5
    } else if c == '6' {
        6
    } else if c == '7' {
        7
    } else if c == '8' {
        8
    } else if c == '9' {
        9
    } else if c == 'a' || c == 'A' {
        10
    } else if c == 'b' || c == 'B' {
        11
    } else if c == 'c' || c == 'C' {
        12
    } else if c == 'd' || c == 'D' {
        13
    } else if c == 'e' || c == 'E' {
        14
    } else if c == 'f' || c == 'F' {
        15
    } else {
        16
    }
}

/// The decimal digits of `n`, most significant first, without leading zeros.
pub open spec fn decimal_digits(n: nat) -> Seq<char>
    decreases n,
{
    if n < 10 {
        seq![digit_char(n as int)]
    } else {
        decimal_digits(n / 10).push(digit_char((n % 10) as int))
    }
}

/// The hexadecimal digits of `n`, most significant first, in lower case and
/// without leading zeros.
pub open spec fn hex_digits(n: nat) -> Seq<char>
    decreases n,
{
    if n < 16 {
        seq![digit_char(n as int)]
    } else {
        hex_digits(n / 16).push(digit_char((n % 16) as int))
    }
}

/// A signed number in decimal: a minus sign for a negative one, then the
/// digits.
pub open spec fn decimal_text(v: int) -> Seq<char> {
    if v < 0 {
        seq!['-'] + decimal_digits((-v) as nat)
    } else {
        decimal_digits(v as nat)
    }
}

/// The 64-bit pattern of `v` in hexadecimal after the prefix `0x`; a negative
/// number shows as its two's complement.
pub open spec fn hex_text(v: i64) -> Seq<char> {
    seq!['0', 'x'] + hex_digits(
        if v < 0 {
            (v + 0x1_0000_0000_0000_0000) as nat
        } else {
            v as nat
        },
    )
}

/// Whether the first `n` characters of `s` are digits below `radix`.
pub open spec fn digits_below(s: Seq<char>, n: nat, radix: int) -> bool {
    forall|k: int| 0 <= k < n ==> digit_value(#[trigger] s[k]) < radix
}

/// The number that the first `n` characters of `s` spell in decimal.
pub open spec fn decimal_prefix(s: Seq<char>, n: nat) -> nat
    decreases n,
{
    if n == 0 {
        0
    } else {
        (decimal_prefix(s, (n - 1) as nat) * 10 + digit_value(s[n - 1])) as nat
    }
}

/// The number that the first `n` characters of `s` spell in hexadecimal.
pub open spec fn hex_prefix(s: Seq<char>, n: nat) -> nat
    decreases n,
{
    if n == 0 {
        0
    } else {
        (hex_prefix(s, (n - 1) as nat) * 16 + digit_value(s[n - 1])) as nat
    }
}

/// The digits of a signed number: what follows one leading `+` or `-`.
pub open spec fn unsigned_part(s: Seq<char>) -> Seq<char> {
    if s.len() > 0 && (s[0] == '-' || s[0] == '+') {
        s.skip(1)
    } else {
        s
    }
}

/// Whether a signed number starts with a minus sign.
pub open spec fn is_negative(s: Seq<char>) -> bool {
    s.len() > 0 && s[0] == '-'
}

/// The sign applied, and `None` where the result does not fit in 64 bits.
pub open spec fn signed_in_range(negative: bool, magnitude: nat) -> Option<i64> {
    let v = if negative {
        -(magnitude as int)
    } else {
        magnitude as int
    };
    if i64::MIN <= v <= i64::MAX {
        Some(v as i64)
    } else {
        None
    }
}

/// The value of a signed decimal number: an optional sign and at least one
/// digit; `None` for any other text and for a number outside 64 bits.
pub open spec fn decimal_value(s: Seq<char>) -> Option<i64> {
    let digits = unsigned_part(s);
    if digits.len() == 0 || !digits_below(digits, digits.len(), 10) {
        None
    } else {
        signed_in_range(is_negative(s), decimal_prefix(digits, digits.len()))
    }
}

/// The value of a signed hexadecimal number without prefix, read like
/// `decimal_value`.
pub open spec fn hex_value(s: Seq<char>) -> Option<i64> {
    let digits = unsigned_part(s);
    if digits.len() == 0 || !digits_below(digits, digits.len(), 16) {
        None
    } else {
        signed_in_range(is_negative(s), hex_prefix(digits, digits.len()))
    }
}

/// `s` without one leading `0x` or `0X`.
pub open spec fn without_hex_mark(s: Seq<char>) -> Seq<char> {
    if s.len() >= 2 && s[0] == '0' && (s[1] == 'x' || s[1] == 'X') {
        s.skip(2)
    } else {
        s
    }
}

pub(crate) proof fn lemma_digit_round_trip(d: int)
    requires
        0 <= d < 16,
    ensures
        digit_value(digit_char(d)) == d,
        digit_char(d) != '-',
        digit_char(d) != '+',
        digit_char(d) != 'x',
        digit_char(d) != 'X',
{
}

pub(crate) proof fn lemma_decimal_prefix_agrees(s: Seq<char>, t: Seq<char>, n: nat)
    requires
        n <= s.len(),
        n <= t.len(),
        forall|k: int| 0 <= k < n ==> s[k] == t[k],
    ensures
        decimal_prefix(s, n) == decimal_prefix(t, n),
    decreases n,
{
    if n > 0 {
        lemma_decimal_prefix_agrees(s, t, (n - 1) as nat);
    }
}

pub(crate) proof fn lemma_hex_prefix_agrees(s: Seq<char>, t: Seq<char>, n: nat)
    requires
        n <= s.len(),
        n <= t.len(),
        forall|k: int| 0 <= k < n ==> s[k] == t[k],
    ensures
        hex_prefix(s, n) == hex_prefix(t, n),
    decreases n,
{
    if n > 0 {
        lemma_hex_prefix_agrees(s, t, (n - 1) as nat);
    }
}

/// The decimal digits of a number spell that number, and all of them are
/// decimal digits.
pub proof fn lemma_decimal_digits_value(n: nat)
    ensures
        decimal_digits(n).len() >= 1,
        digits_below(decimal_digits(n), decimal_digits(n).len(), 10),
        decimal_prefix(decimal_digits(n), decimal_digits(n).len()) == n,
    decreases n,
{
    let t = decimal_digits(n);
    if n < 10 {
        lemma_digit_round_trip(n as int);
        assert(decimal_prefix(t, 0) == 0);
        assert(decimal_prefix(t, 1) == decimal_prefix(t, 0) * 10 + digit_value(t[0]));
    } else {
        let head = decimal_digits(n / 10);
        lemma_decimal_digits_value(n / 10);
        lemma_digit_round_trip((n % 10) as int);
        assert(t == head.push(digit_char((n % 10) as int)));
        lemma_decimal_prefix_agrees(t, head, head.len());
        assert forall|k: int| 0 <= k < t.len() implies digit_value(#[trigger] t[k]) < 10 by {
            if k < head.len() {
                assert(t[k] == head[k]);
            }
        }
    }
}

/// The hexadecimal digits of a number spell that number, and all of them are
/// hexadecimal digits.
pub proof fn lemma_hex_digits_value(n: nat)
    ensures
        hex_digits(n).len() >= 1,
        digits_below(hex_digits(n), hex_digits(n).len(), 16),
        hex_prefix(hex_digits(n), hex_digits(n).len()) == n,
    decreases n,
{
    let t = hex_digits(n);
    if n < 16 {
        lemma_digit_round_trip(n as int);
        assert(hex_prefix(t, 0) == 0);
        assert(hex_prefix(t, 1) == hex_prefix(t, 0) * 16 + digit_value(t[0]));
    } else {
        let head = hex_digits(n / 16);
        lemma_hex_digits_value(n / 16);
        lemma_digit_round_trip((n % 16) as int);
        assert(t == head.push(digit_char((n % 16) as int)));
        lemma_hex_prefix_agrees(t, head, head.len());
        assert forall|k: int| 0 <= k < t.len() implies digit_value(#[trigger] t[k]) < 16 by {
            if k < head.len() {
                assert(t[k] == head[k]);
            }
        }
    }
}

/// The first character of a number's digits is a digit, so neither a sign nor
/// part of a hexadecimal prefix.
pub(crate) proof fn lemma_digits_first(n: nat)
    ensures
        digit_value(decimal_digits(n)[0]) < 10,
        digit_value(hex_digits(n)[0]) < 16,
        hex_digits(n).len() >= 2 ==> digit_value(hex_digits(n)[1]) < 16,
{
    lemma_decimal_digits_value(n);
    lemma_hex_digits_value(n);
}

/// Reading the decimal text of a 64-bit number gives the number back.
pub proof fn lemma_decimal_round_trip(v: i64)
    ensures
        decimal_value(decimal_text(v as int)) == Some(v),
{
    let s = decimal_text(v as int);
    if v < 0 {
        let d = decimal_digits((-v) as nat);
        lemma_decimal_digits_value((-v) as nat);
        assert(s[0] == '-');
        assert(unsigned_part(s) =~= d);
    } else {
        let d = decimal_digits(v as nat);
        lemma_decimal_digits_value(v as nat);
        lemma_digits_first(v as nat);
        assert(unsigned_part(s) =~= d);
    }
}

/// Reading the hexadecimal text of a number that is not negative gives the
/// number back.
pub proof fn lemma_hex_round_trip(v: i64)
    requires
        v >= 0,
    ensures
        hex_value(without_hex_mark(hex_text(v))) == Some(v),
{
    let s = hex_text(v);
    let d = hex_digits(v as nat);
    lemma_hex_digits_value(v as nat);
    lemma_digits_first(v as nat);
    assert(s[0] == '0' && s[1] == 'x');
    assert(without_hex_mark(s) =~= d);
    assert(unsigned_part(d) =~= d);
}

/// The digits of a number are ASCII characters.
pub(crate) proof fn lemma_digits_ascii(n: nat)
    ensures
        is_ascii_chars(decimal_digits(n)),
        is_ascii_chars(hex_digits(n)),
    decreases n,
{
    if n >= 10 {
        lemma_digits_ascii(n / 10);
    }
    if n >= 16 {
        lemma_digits_ascii(n / 16);
    }
}

/// The decimal text of a number is ASCII.
pub(crate) proof fn lemma_decimal_text_ascii(v: int)
    ensures
        is_ascii_chars(decimal_text(v)),
{
    if v < 0 {
        lemma_digits_ascii((-v) as nat);
    } else {
        lemma_digits_ascii(v as nat);
    }
}

/// The hexadecimal text of a number is ASCII.
pub(crate) proof fn lemma_hex_text_ascii(v: i64)
    ensures
        is_ascii_chars(hex_text(v)),
{
    if v < 0 {
        lemma_digits_ascii((v + 0x1_0000_0000_0000_0000) as nat);
    } else {
        lemma_digits_ascii(v as nat);
    }
}

/// The one-character text of a digit.
pub(crate) fn digit_str(d: u8) -> (s: &'static str)
    requires
        d < 16,
    ensures
        s@ == seq![digit_char(d as int)],
{
    proof {
        reveal_strlit("0");
        reveal_strlit("1");
        reveal_strlit("2");
        reveal_strlit("3");
        reveal_strlit("4");
        reveal_strlit("5");
        reveal_strlit("6");
        reveal_strlit("7");
        reveal_strlit("8");
        reveal_strlit("9");
        reveal_strlit("a");
        reveal_strlit("b");
        reveal_strlit("c");
        reveal_strlit("d");
        reveal_strlit("e");
        reveal_strlit("f");
    }
    let s = if d == 0 {
        "0"
    } else if d == 1 {
        "1"
    } else if d == 2 {
        "2"
    } else if d == 3 {
        "3"
    } else if d == 4 {
        "4"
    } else if d == 5 {
        "5"
    } else if d == 6 {
        "6"
    } else if d == 7 {
        "7"
    } else if d == 8 {
        "8"
    } else if d == 9 {
        "9"
    } else if d == 10 {
        "a"
    } else if d == 11 {
        "b"
    } else if d == 12 {
        "c"
    } else if d == 13 {
        "d"
    } else if d == 14 {
        "e"
    } else {
        "f"
    };
    assert(s@ =~= seq![digit_char(d as int)]);
    s
}

/// Appends the decimal digits of `n`.
pub fn append_unsigned(out: &mut String, n: u64)
    ensures
        final(out)@ == old(out)@ + decimal_digits(n as nat),
    decreases n,
{
    if n >= 10 {
        append_unsigned(out, n / 10);
    }
    out.append(digit_str((n % 10) as u8));
    assert(final(out)@ =~= old(out)@ + decimal_digits(n as nat));
}

/// Appends the hexadecimal digits of `n`.
pub fn append_hex_digits(out: &mut String, n: u64)
    ensures
        final(out)@ == old(out)@ + hex_digits(n as nat),
    decreases n,
{
    if n >= 16 {
        append_hex_digits(out, n / 16);
    }
    out.append(digit_str((n % 16) as u8));
    assert(final(out)@ =~= old(out)@ + hex_digits(n as nat));
}

/// Appends a signed number in decimal.
pub fn append_decimal(out: &mut String, v: i64)
    ensures
        final(out)@ == old(out)@ + decimal_text(v as int),
{
    if v < 0 {
        proof {
            reveal_strlit("-");
        }
        out.append("-");
        let magnitude: u64 = if v == i64::MIN {
            0x8000_0000_0000_0000u64
        } else {
            (-v) as u64
        };
        append_unsigned(out, magnitude);
        assert(final(out)@ =~= old(out)@ + decimal_text(v as int));
    } else {
        append_unsigned(out, v as u64);
    }
}

/// Appends a number in hexadecimal with the prefix `0x`.
pub fn append_hex(out: &mut String, v: i64)
    ensures
        final(out)@ == old(out)@ + hex_text(v),
{
    proof {
        reveal_strlit("0x");
    }
    out.append("0x");
    let pattern: u64 = if v < 0 {
        (v as i128 + 0x1_0000_0000_0000_0000i128) as u64
    } else {
        v as u64
    };
    append_hex_digits(out, pattern);
    assert(final(out)@ =~= old(out)@ + hex_text(v));
}

/// The characters of a text that holds only ASCII; `None` for any other.
pub fn ascii_chars(s: &str) -> (r: Option<Vec<char>>)
    ensures
        match r {
            Some(v) => v@ == s@ && is_ascii_chars(s@),
            None => !is_ascii_chars(s@),
        },
{
    if !s.is_ascii() {
        return None;
    }
    broadcast use is_ascii_spec_bytes;

    let bytes = s.as_bytes();
    let mut out: Vec<char> = Vec::new();
    let mut i: usize = 0;
    while i < bytes.len()
        invariant
            i <= bytes@.len(),
            bytes@.len() == s@.len(),
            is_ascii_chars(s@),
            forall|k: int| 0 <= k < s@.len() ==> bytes@[k] == s@[k] as u8,
            out@.len() == i,
            forall|k: int| 0 <= k < i ==> out@[k] == s@[k],
        decreases bytes@.len() - i,
    {
        let b = bytes[i];
        assert(s@[i as int] <= '\u{7f}');
        out.push(b as char);
        i = i + 1;
    }
    assert(out@ =~= s@);
    Some(out)
}

/// The value of a digit character, or 16 for a character that is no digit.
pub fn digit_of(c: char) -> (d: u8)
    ensures
        d == digit_value(c),
        d <= 16,
{
    if c == '0' {
        0
    } else if c == '1' {
        1
    } else if c == '2' {
        2
    } else if c == '3' {
        3
    } else if c == '4' {
        4
    } else if c == '5' {
        5
    } else if c == '6' {
        6
    } else if c == '7' {
        7
    } else if c == '8' {
        8
    } else if c == '9' {
        9
    } else if c == 'a' || c == 'A' {
        10
    } else if c == 'b' || c == 'B' {
        11
    } else if c == 'c' || c == 'C' {
        12
    } else if c == 'd' || c == 'D' {
        13
    } else if c == 'e' || c == 'E' {
        14
    } else if c == 'f' || c == 'F' {
        15
    } else {
        16
    }
}

proof fn lemma_decimal_prefix_grows(s: Seq<char>, a: nat, b: nat)
    requires
        a <= b <= s.len(),
        digits_below(s, b, 10),
    ensures
        decimal_prefix(s, a) <= decimal_prefix(s, b),
    decreases b,
{
    if a < b {
        lemma_decimal_prefix_grows(s, a, (b - 1) as nat);
        assert(digit_value(s[b - 1]) >= 0);
    }
}

proof fn lemma_hex_prefix_grows(s: Seq<char>, a: nat, b: nat)
    requires
        a <= b <= s.len(),
        digits_below(s, b, 16),
    ensures
        hex_prefix(s, a) <= hex_prefix(s, b),
    decreases b,
{
    if a < b {
        lemma_hex_prefix_grows(s, a, (b - 1) as nat);
        assert(digit_value(s[b - 1]) >= 0);
    }
}

/// Reads the characters of `s` from `start` on as a signed decimal number.
pub(crate) fn parse_decimal(s: &Vec<char>, start: usize) -> (r: Option<i64>)
    requires
        start <= s@.len(),
    ensures
        r == decimal_value(s@.skip(start as int)),
{
    let ghost text = s@.skip(start as int);
    let ghost digits = unsigned_part(text);
    let n = s.len();
    let mut negative = false;
    let mut first = start;
    if start < n && (s[start] == '-' || s[start] == '+') {
        negative = s[start] == '-';
        first = start + 1;
    }
    assert(text.len() == n - start);
    assert(digits.len() == n - first);
    assert(negative == is_negative(text));
    assert(forall|k: int| 0 <= k < digits.len() ==> digits[k] == s@[first + k]);
    if first == n {
        return None;
    }
    let mut acc: u64 = 0;
    let mut i: usize = first;
    while i < n
        invariant
            first <= i <= n,
            start <= n == s@.len(),
            digits == unsigned_part(s@.skip(start as int)),
            digits.len() == n - first,
            forall|k: int| 0 <= k < digits.len() ==> digits[k] == s@[first + k],
            digits_below(digits, (i - first) as nat, 10),
            acc == decimal_prefix(digits, (i - first) as nat),
            acc <= 0x8000_0000_0000_0000,
        decreases n - i,
    {
        let d = digit_of(s[i]);
        assert(digits[i - first] == s@[i as int]);
        if d >= 10 {
            assert(!digits_below(digits, digits.len(), 10));
            return None;
        }
        let next: u128 = acc as u128 * 10 + d as u128;
        assert(next == decimal_prefix(digits, (i + 1 - first) as nat));
        if next > 0x8000_0000_0000_0000u128 {
            proof {
                if digits_below(digits, digits.len(), 10) {
                    lemma_decimal_prefix_grows(digits, (i + 1 - first) as nat, digits.len());
                }
            }
            return None;
        }
        acc = next as u64;
        i = i + 1;
    }
    if negative {
        if acc == 0x8000_0000_0000_0000 {
            Some(i64::MIN)
        } else {
            Some(-(acc as i64))
        }
    } else if acc == 0x8000_0000_0000_0000 {
        None
    } else {
        Some(acc as i64)
    }
}

/// Reads the characters of `s` from `start` on as a signed hexadecimal
/// number without prefix.
pub(crate) fn parse_hex_number(s: &Vec<char>, start: usize) -> (r: Option<i64>)
    requires
        start <= s@.len(),
    ensures
        r == hex_value(s@.skip(start as int)),
{
    let ghost text = s@.skip(start as int);
    let ghost digits = unsigned_part(text);
    let n = s.len();
    let mut negative = false;
    let mut first = start;
    if start < n && (s[start] == '-' || s[start] == '+') {
        negative = s[start] == '-';
        first = start + 1;
    }
    assert(text.len() == n - start);
    assert(digits.len() == n - first);
    assert(negative == is_negative(text));
    assert(forall|k: int| 0 <= k < digits.len() ==> digits[k] == s@[first + k]);
    if first == n {
        return None;
    }
    let mut acc: u64 = 0;
    let mut i: usize = first;
    while i < n
        invariant
            first <= i <= n,
            start <= n == s@.len(),
            digits == unsigned_part(s@.skip(start as int)),
            digits.len() == n - first,
            forall|k: int| 0 <= k < digits.len() ==> digits[k] == s@[first + k],
            digits_below(digits, (i - first) as nat, 16),
            acc == hex_prefix(digits, (i - first) as nat),
            acc <= 0x8000_0000_0000_0000,
        decreases n - i,
    {
        let d = digit_of(s[i]);
        assert(digits[i - first] == s@[i as int]);
        if d >= 16 {
            assert(!digits_below(digits, digits.len(), 16));
            return None;
        }
        let next: u128 = acc as u128 * 16 + d as u128;
        assert(next == hex_prefix(digits, (i + 1 - first) as nat));
        if next > 0x8000_0000_0000_0000u128 {
            proof {
                if digits_below(digits, digits.len(), 16) {
                    lemma_hex_prefix_grows(digits, (i + 1 - first) as nat, digits.len());
                }
            }
            return None;
        }
        acc = next as u64;
        i = i + 1;
    }
    if negative {
        if acc == 0x8000_0000_0000_0000 {
            Some(i64::MIN)
        } else {
            Some(-(acc as i64))
        }
    } else if acc == 0x8000_0000_0000_0000 {
        None
    } else {
        Some(acc as i64)
    }
}

/// Whether a text is made of the characters of `name`.
pub fn same_name(text: &str, name: &Vec<char>) -> (r: bool)
    ensures
        r == (text@ == name@),
{
    let len = text.unicode_len();
    if len != name.len() {
        return false;
    }
    let mut k: usize = 0;
    while k < len
        invariant
            k <= len == name@.len(),
            len == text@.len(),
            forall|j: int| 0 <= j < k ==> text@[j] == name@[j],
        decreases len - k,
    {
        if text.get_char(k) != name[k] {
            return false;
        }
        k = k + 1;
    }
    assert(text@ =~= name@);
    true
}

/// The digits of an unsigned number: what follows one leading `+`.
pub open spec fn plus_part(s: Seq<char>) -> Seq<char> {
    if s.len() > 0 && s[0] == '+' {
        s.skip(1)
    } else {
        s
    }
}

/// The value of an unsigned decimal number: an optional `+` and at least
/// one digit; `None` for any other text and for a number outside 64 bits.
pub open spec fn unsigned_decimal_value(s: Seq<char>) -> Option<u64> {
    let digits = plus_part(s);
    if digits.len() == 0 || !digits_below(digits, digits.len(), 10) || decimal_prefix(
        digits,
        digits.len(),
    ) > u64::MAX {
        None
    } else {
        Some(decimal_prefix(digits, digits.len()) as u64)
    }
}

/// The value of an unsigned hexadecimal number without prefix, read like
/// `unsigned_decimal_value`.
pub open spec fn unsigned_hex_value(s: Seq<char>) -> Option<u64> {
    let digits = plus_part(s);
    if digits.len() == 0 || !digits_below(digits, digits.len(), 16) || hex_prefix(
        digits,
        digits.len(),
    ) > u64::MAX {
        None
    } else {
        Some(hex_prefix(digits, digits.len()) as u64)
    }
}

/// Reads the characters of `s` between `from` and `to` as an unsigned
/// number in decimal, or in hexadecimal where `hex`.
pub fn parse_unsigned(s: &Vec<char>, from: usize, to: usize, hex: bool) -> (r: Option<u64>)
    requires
        from <= to <= s@.len(),
    ensures
        r == (if hex {
            unsigned_hex_value(s@.subrange(from as int, to as int))
        } else {
            unsigned_decimal_value(s@.subrange(from as int, to as int))
        }),
{
    let ghost text = s@.subrange(from as int, to as int);
    let ghost digits = plus_part(text);
    let mut first = from;
    if from < to && s[from] == '+' {
        first = from + 1;
    }
    assert(text.len() == to - from);
    assert(from < to ==> text[0] == s@[from as int]);
    assert(digits.len() == to - first);
    assert(forall|k: int| 0 <= k < digits.len() ==> digits[k] == s@[first + k]);
    if first == to {
        return None;
    }
    let radix: u128 = if hex {
        16
    } else {
        10
    };
    let mut acc: u128 = 0;
    let mut i: usize = first;
    while i < to
        invariant
            first <= i <= to <= s@.len(),
            from <= first,
            radix == (if hex {
                16u128
            } else {
                10u128
            }),
            digits == plus_part(s@.subrange(from as int, to as int)),
            digits.len() == to - first,
            forall|k: int| 0 <= k < digits.len() ==> digits[k] == s@[first + k],
            digits_below(digits, (i - first) as nat, radix as int),
            hex ==> acc == hex_prefix(digits, (i - first) as nat),
            !hex ==> acc == decimal_prefix(digits, (i - first) as nat),
            acc <= u64::MAX,
        decreases to - i,
    {
        let d = digit_of(s[i]);
        assert(digits[i - first] == s@[i as int]);
        if d as u128 >= radix {
            assert(!digits_below(digits, digits.len(), radix as int));
            return None;
        }
        let next: u128 = acc * radix + d as u128;
        if next > u64::MAX as u128 {
            proof {
                if digits_below(digits, digits.len(), radix as int) {
                    if hex {
                        lemma_hex_prefix_grows(digits, (i + 1 - first) as nat, digits.len());
                    } else {
                        lemma_decimal_prefix_grows(digits, (i + 1 - first) as nat, digits.len());
                    }
                }
            }
            return None;
        }
        acc = next;
        i = i + 1;
    }
    Some(acc as u64)
}

} // verus!
