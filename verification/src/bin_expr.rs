//! Bit expressions: small formulas over the bits of named bytes, as the
//! datasheets write the status flags, for instance
//! `(ra3&rb3)|(ra3&!res3)|(rb3&!res3)`.
//!
//! A name followed by a number is that bit of the named byte; a name alone,
//! or followed by `(*)`, is the whole operand. The operators are `!`, `&`,
//! `^`, `|`, and the comparisons `=` (also written `==`) and `!=`; they bind
//! in this order, `!` most tightly. Parentheses group.

use vstd::prelude::*;
use vstd::string::*;
use crate::bits::{bit8, get_bit};
use crate::error::Error;
use crate::text::{ascii_chars, digit_of, digit_value, same_name};
use vstd::utf8::is_ascii_chars;

verus! {

/// The value of an operand or of an expression: a byte or one bit.
#[derive(Clone, Copy, Debug, PartialEq, Eq, Structural)]
pub enum Value {
    Byte(u8),
    Bit(bool),
}

/// The kinds of value.
#[derive(Clone, Copy, Debug, PartialEq, Eq, Structural)]
pub enum ValueKind {
    Byte,
    Bit,
}

impl Value {
    /// The kind of the value.
    pub open spec fn spec_kind(self) -> ValueKind {
        match self {
            Value::Byte(_) => ValueKind::Byte,
            Value::Bit(_) => ValueKind::Bit,
        }
    }

    /// The kind of the value.
    pub fn kind(self) -> (r: ValueKind)
        ensures
            r == self.spec_kind(),
    {
        match self {
            Value::Byte(_) => ValueKind::Byte,
            Value::Bit(_) => ValueKind::Bit,
        }
    }

    /// Reads the value as a byte. Fails where it is a bit.
    pub fn read_byte(self) -> (r: Result<u8, Error>)
        ensures
            r == (match self {
                Value::Byte(x) => Ok::<u8, Error>(x),
                Value::Bit(_) => Err(
                    Error::InvalidReadError { current: ValueKind::Bit, expected: ValueKind::Byte },
                ),
            }),
    {
        match self {
            Value::Byte(x) => Ok(x),
            Value::Bit(_) => Err(
                Error::InvalidReadError { current: ValueKind::Bit, expected: ValueKind::Byte },
            ),
        }
    }

    /// Reads the value as a bit. Fails where it is a byte.
    pub fn read_bit(self) -> (r: Result<bool, Error>)
        ensures
            r == (match self {
                Value::Bit(b) => Ok::<bool, Error>(b),
                Value::Byte(_) => Err(
                    Error::InvalidReadError { current: ValueKind::Byte, expected: ValueKind::Bit },
                ),
            }),
    {
        match self {
            Value::Bit(b) => Ok(b),
            Value::Byte(_) => Err(
                Error::InvalidReadError { current: ValueKind::Byte, expected: ValueKind::Bit },
            ),
        }
    }
}

/// The operators that take two operands.
#[derive(Clone, Copy, Debug, PartialEq, Eq, Structural)]
pub enum Operator {
    And,
    Or,
    Xor,
    Equal,
    NotEqual,
}

/// A bit expression.
#[derive(Debug)]
pub enum Expr {
    /// An operand, or one bit of it.
    Var { name: Vec<char>, bit: Option<u8> },
    Not(Box<Expr>),
    Binary(Operator, Box<Expr>, Box<Expr>),
}

/// A bit expression as a plain value.
pub enum ExprView {
    Var { name: Seq<char>, bit: Option<u8> },
    Not(Box<ExprView>),
    Binary(Operator, Box<ExprView>, Box<ExprView>),
}

/// A named operand. An operand that could not be had holds the error, which
/// an expression that uses the operand gives back.
#[derive(Debug)]
pub struct Binding {
    pub name: String,
    pub value: Result<Value, Error>,
}

/// A named operand as a plain value.
pub struct BindingView {
    pub name: Seq<char>,
    pub value: Result<Value, Error>,
}

/// The pieces that the text of an expression is made of.
#[derive(Debug)]
pub enum Token {
    And,
    Or,
    Xor,
    Not,
    Equal,
    NotEqual,
    Open,
    Close,
    Star,
    Var { name: Vec<char>, bit: Option<u8> },
}

/// A token as a plain value.
pub enum TokenView {
    And,
    Or,
    Xor,
    Not,
    Equal,
    NotEqual,
    Open,
    Close,
    Star,
    Var { name: Seq<char>, bit: Option<u8> },
}

impl Expr {
    /// The expression as a plain value.
    pub open spec fn shape(self) -> ExprView
        decreases self,
    {
        match self {
            Expr::Var { name, bit } => ExprView::Var { name: name@, bit },
            Expr::Not(inner) => ExprView::Not(Box::new((*inner).shape())),
            Expr::Binary(op, left, right) => ExprView::Binary(
                op,
                Box::new((*left).shape()),
                Box::new((*right).shape()),
            ),
        }
    }
}

impl View for Expr {
    type V = ExprView;

    open spec fn view(&self) -> ExprView {
        self.shape()
    }
}

impl View for Binding {
    type V = BindingView;

    open spec fn view(&self) -> BindingView {
        BindingView { name: self.name@, value: self.value }
    }
}

impl View for Token {
    type V = TokenView;

    open spec fn view(&self) -> TokenView {
        match self {
            Token::And => TokenView::And,
            Token::Or => TokenView::Or,
            Token::Xor => TokenView::Xor,
            Token::Not => TokenView::Not,
            Token::Equal => TokenView::Equal,
            Token::NotEqual => TokenView::NotEqual,
            Token::Open => TokenView::Open,
            Token::Close => TokenView::Close,
            Token::Star => TokenView::Star,
            Token::Var { name, bit } => TokenView::Var { name: name@, bit: *bit },
        }
    }
}

/// The views of a list of bindings.
pub open spec fn binding_views(list: Seq<Binding>) -> Seq<BindingView> {
    Seq::new(list.len(), |k: int| list[k]@)
}

/// The views of a list of tokens.
pub open spec fn token_views(list: Seq<Token>) -> Seq<TokenView> {
    Seq::new(list.len(), |k: int| list[k]@)
}

/// What the first binding of the name `name` among the first `n` holds.
pub open spec fn bound(env: Seq<BindingView>, name: Seq<char>, n: nat) -> Option<
    Result<Value, Error>,
>
    decreases n,
{
    if n == 0 {
        None
    } else {
        match bound(env, name, (n - 1) as nat) {
            Some(value) => Some(value),
            None => if env[n - 1].name == name {
                Some(env[n - 1].value)
            } else {
                None
            },
        }
    }
}

/// The value of an operand, or of one of its bits.
pub open spec fn operand(env: Seq<BindingView>, name: Seq<char>, bit: Option<u8>) -> Result<
    Value,
    Error,
> {
    match bound(env, name, env.len()) {
        None => Err(Error::UnboundOperand),
        Some(Err(e)) => Err(e),
        Some(Ok(value)) => match bit {
            None => Ok(value),
            Some(b) => match value {
                Value::Byte(x) => if b < 8 {
                    Ok(Value::Bit(bit8(x, b)))
                } else {
                    Err(Error::WrongWidth)
                },
                Value::Bit(_) => Err(Error::WrongWidth),
            },
        },
    }
}

/// The negation of a value: of a bit, or of every bit of a byte.
pub open spec fn negated(value: Value) -> Value {
    match value {
        Value::Bit(b) => Value::Bit(!b),
        Value::Byte(x) => Value::Byte(!x),
    }
}

/// Two values combined: two bits give a bit, two bytes a byte, and a
/// comparison gives a bit. A byte and a bit do not combine.
pub open spec fn combined(op: Operator, left: Value, right: Value) -> Result<Value, Error> {
    match (left, right) {
        (Value::Bit(a), Value::Bit(b)) => Ok(
            match op {
                Operator::And => Value::Bit(a && b),
                Operator::Or => Value::Bit(a || b),
                Operator::Xor => Value::Bit(a != b),
                Operator::Equal => Value::Bit(a == b),
                Operator::NotEqual => Value::Bit(a != b),
            },
        ),
        (Value::Byte(a), Value::Byte(b)) => Ok(
            match op {
                Operator::And => Value::Byte(a & b),
                Operator::Or => Value::Byte(a | b),
                Operator::Xor => Value::Byte(a ^ b),
                Operator::Equal => Value::Bit(a == b),
                Operator::NotEqual => Value::Bit(a != b),
            },
        ),
        _ => Err(Error::WrongWidth),
    }
}

/// The value of an expression under the given bindings. The operands are
/// taken from left to right, and the first error ends the evaluation.
pub open spec fn value_of(expr: ExprView, env: Seq<BindingView>) -> Result<Value, Error>
    decreases expr,
{
    match expr {
        ExprView::Var { name, bit } => operand(env, name, bit),
        ExprView::Not(inner) => match value_of(*inner, env) {
            Err(e) => Err(e),
            Ok(value) => Ok(negated(value)),
        },
        ExprView::Binary(op, left, right) => match value_of(*left, env) {
            Err(e) => Err(e),
            Ok(a) => match value_of(*right, env) {
                Err(e) => Err(e),
                Ok(b) => combined(op, a, b),
            },
        },
    }
}

/// Whether a character is a letter of a name.
pub open spec fn is_letter(c: char) -> bool {
    ('a' <= c && c <= 'z') || ('A' <= c && c <= 'Z') || c == '_'
}

/// Where the run of letters that begins at `pos` ends.
pub open spec fn letters_end(text: Seq<char>, pos: int) -> int
    decreases text.len() - pos,
{
    if pos >= text.len() || !is_letter(text[pos]) {
        pos
    } else {
        letters_end(text, pos + 1)
    }
}

/// Where the run of decimal digits that begins at `pos` ends.
pub open spec fn digits_end(text: Seq<char>, pos: int) -> int
    decreases text.len() - pos,
{
    if pos >= text.len() || digit_value(text[pos]) >= 10 {
        pos
    } else {
        digits_end(text, pos + 1)
    }
}

/// The number that the digits between `from` and `to` spell.
pub open spec fn digits_number(text: Seq<char>, from: int, to: int) -> int
    decreases to - from,
{
    if to <= from {
        0
    } else {
        digits_number(text, from, to - 1) * 10 + digit_value(text[to - 1])
    }
}

/// The tokens of a text from `pos` on. Blanks between tokens are passed
/// over. `None` where a character begins no token, and where a bit number
/// is above 255.
pub open spec fn tokens_from(text: Seq<char>, pos: int) -> Option<Seq<TokenView>>
    decreases text.len() - pos,
{
    if pos >= text.len() || pos < 0 {
        Some(Seq::empty())
    } else {
        let c = text[pos];
        if c == ' ' {
            tokens_from(text, pos + 1)
        } else if c == '!' && pos + 1 < text.len() && text[pos + 1] == '=' {
            prepend(TokenView::NotEqual, tokens_from(text, pos + 2))
        } else if c == '=' && pos + 1 < text.len() && text[pos + 1] == '=' {
            prepend(TokenView::Equal, tokens_from(text, pos + 2))
        } else if is_letter(c) {
            let mid = letters_end(text, pos);
            let end = digits_end(text, mid);
            if mid <= pos || end < mid || end > text.len() || digits_number(text, mid, end) > 255 {
                None
            } else {
                prepend(
                    TokenView::Var {
                        name: text.subrange(pos, mid),
                        bit: if end == mid {
                            None
                        } else {
                            Some(digits_number(text, mid, end) as u8)
                        },
                    },
                    tokens_from(text, end),
                )
            }
        } else {
            match single(c) {
                Some(token) => prepend(token, tokens_from(text, pos + 1)),
                None => None,
            }
        }
    }
}

/// The token that one character is.
pub open spec fn single(c: char) -> Option<TokenView> {
    if c == '&' {
        Some(TokenView::And)
    } else if c == '|' {
        Some(TokenView::Or)
    } else if c == '^' {
        Some(TokenView::Xor)
    } else if c == '!' {
        Some(TokenView::Not)
    } else if c == '=' {
        Some(TokenView::Equal)
    } else if c == '(' {
        Some(TokenView::Open)
    } else if c == ')' {
        Some(TokenView::Close)
    } else if c == '*' {
        Some(TokenView::Star)
    } else {
        None
    }
}

/// A token in front of the tokens that follow it.
pub open spec fn prepend(token: TokenView, rest: Option<Seq<TokenView>>) -> Option<
    Seq<TokenView>,
> {
    match rest {
        Some(list) => Some(seq![token] + list),
        None => None,
    }
}

/// The operator of a level of the grammar: 0 is `&`, 1 is `^`, 2 is `|`.
pub open spec fn level_operator(level: nat) -> Operator {
    if level == 0 {
        Operator::And
    } else if level == 1 {
        Operator::Xor
    } else {
        Operator::Or
    }
}

/// Whether a token is the operator of a level.
pub open spec fn is_level_token(token: TokenView, level: nat) -> bool {
    if level == 0 {
        token is And
    } else if level == 1 {
        token is Xor
    } else {
        token is Or
    }
}

/// An operand of the grammar at `pos`: a name, a name with `(*)`, or an
/// expression in parentheses. Gives the expression and the position behind
/// it.
pub open spec fn parse_atom(t: Seq<TokenView>, pos: int) -> Option<(ExprView, int)>
    decreases t.len() - pos, 0nat,
{
    if pos < 0 || pos >= t.len() {
        None
    } else {
        match t[pos] {
            TokenView::Open => match parse_comparison(t, pos + 1) {
                Some((inner, next)) => if pos < next < t.len() && t[next] is Close {
                    Some((inner, next + 1))
                } else {
                    None
                },
                None => None,
            },
            TokenView::Var { name, bit } => if bit is None && pos + 3 < t.len() && t[pos + 1] is Open
                && t[pos + 2] is Star && t[pos + 3] is Close {
                Some((ExprView::Var { name, bit: None }, pos + 4))
            } else {
                Some((ExprView::Var { name, bit }, pos + 1))
            },
            _ => None,
        }
    }
}

/// An operand with any number of `!` in front of it.
pub open spec fn parse_unary(t: Seq<TokenView>, pos: int) -> Option<(ExprView, int)>
    decreases t.len() - pos, 1nat,
{
    if pos < 0 || pos >= t.len() {
        None
    } else if t[pos] is Not {
        match parse_unary(t, pos + 1) {
            Some((inner, next)) => Some((ExprView::Not(Box::new(inner)), next)),
            None => None,
        }
    } else {
        parse_atom(t, pos)
    }
}

/// An operand of a level: of `&` a unary expression, of `^` a chain of `&`,
/// of `|` a chain of `^`.
pub open spec fn parse_operand(t: Seq<TokenView>, pos: int, level: nat) -> Option<(ExprView, int)>
    decreases t.len() - pos, 2 + 2 * level,
{
    if level == 0 {
        parse_unary(t, pos)
    } else {
        parse_chain(t, pos, (level - 1) as nat)
    }
}

/// A chain of operands of a level, joined by the operator of the level from
/// left to right.
pub open spec fn parse_chain(t: Seq<TokenView>, pos: int, level: nat) -> Option<(ExprView, int)>
    decreases t.len() - pos, 3 + 2 * level,
{
    match parse_operand(t, pos, level) {
        Some((left, next)) => if pos < next <= t.len() {
            parse_rest(t, next, level, left)
        } else {
            None
        },
        None => None,
    }
}

/// The rest of a chain behind the expression `left`.
pub open spec fn parse_rest(t: Seq<TokenView>, pos: int, level: nat, left: ExprView) -> Option<
    (ExprView, int),
>
    decreases t.len() - pos, 0nat,
{
    if 0 <= pos < t.len() && is_level_token(t[pos], level) {
        match parse_operand(t, pos + 1, level) {
            Some((right, next)) => if pos < next <= t.len() {
                parse_rest(
                    t,
                    next,
                    level,
                    ExprView::Binary(level_operator(level), Box::new(left), Box::new(right)),
                )
            } else {
                None
            },
            None => None,
        }
    } else {
        Some((left, pos))
    }
}

/// A chain of `|`, or two of them around one comparison.
pub open spec fn parse_comparison(t: Seq<TokenView>, pos: int) -> Option<(ExprView, int)>
    decreases t.len() - pos, 10nat,
{
    match parse_chain(t, pos, 2) {
        Some((left, next)) => if pos < next < t.len() && (t[next] is Equal || t[next] is NotEqual) {
            match parse_chain(t, next + 1, 2) {
                Some((right, end)) => Some(
                    (
                        ExprView::Binary(
                            if t[next] is Equal {
                                Operator::Equal
                            } else {
                                Operator::NotEqual
                            },
                            Box::new(left),
                            Box::new(right),
                        ),
                        end,
                    ),
                ),
                None => None,
            }
        } else {
            Some((left, next))
        },
        None => None,
    }
}

/// The expression that a list of tokens is, where it is one as a whole.
pub open spec fn parse_tokens(t: Seq<TokenView>) -> Option<ExprView> {
    match parse_comparison(t, 0) {
        Some((expr, next)) => if next == t.len() {
            Some(expr)
        } else {
            None
        },
        None => None,
    }
}

/// The expression that a text is, where it is one.
pub open spec fn parsed_text(text: Seq<char>) -> Option<ExprView> {
    if !is_ascii_chars(text) {
        None
    } else {
        match tokens_from(text, 0) {
            Some(tokens) => parse_tokens(tokens),
            None => None,
        }
    }
}

/// What the first binding of a name holds.
pub fn lookup(env: &Vec<Binding>, name: &Vec<char>) -> (r: Option<Result<Value, Error>>)
    ensures
        r == bound(binding_views(env@), name@, env@.len() as nat),
{
    let mut k: usize = 0;
    while k < env.len()
        invariant
            k <= env@.len(),
            bound(binding_views(env@), name@, k as nat) is None,
        decreases env@.len() - k,
    {
        assert(binding_views(env@)[k as int] == env@[k as int]@);
        if same_name(env[k].name.as_str(), name) {
            proof {
                lemma_bound_found(binding_views(env@), name@, (k + 1) as nat, env@.len() as nat);
            }
            return Some(env[k].value);
        }
        k = k + 1;
    }
    None
}

proof fn lemma_bound_found(env: Seq<BindingView>, name: Seq<char>, n: nat, m: nat)
    requires
        n <= m,
        bound(env, name, n) is Some,
    ensures
        bound(env, name, m) == bound(env, name, n),
    decreases m,
{
    if n < m {
        lemma_bound_found(env, name, n, (m - 1) as nat);
    }
}

/// Combines two values.
pub fn combine(op: Operator, left: Value, right: Value) -> (r: Result<Value, Error>)
    ensures
        r == combined(op, left, right),
{
    match (left, right) {
        (Value::Bit(a), Value::Bit(b)) => Ok(
            match op {
                Operator::And => Value::Bit(a && b),
                Operator::Or => Value::Bit(a || b),
                Operator::Xor => Value::Bit(a != b),
                Operator::Equal => Value::Bit(a == b),
                Operator::NotEqual => Value::Bit(a != b),
            },
        ),
        (Value::Byte(a), Value::Byte(b)) => Ok(
            match op {
                Operator::And => Value::Byte(a & b),
                Operator::Or => Value::Byte(a | b),
                Operator::Xor => Value::Byte(a ^ b),
                Operator::Equal => Value::Bit(a == b),
                Operator::NotEqual => Value::Bit(a != b),
            },
        ),
        _ => Err(Error::WrongWidth),
    }
}

/// Evaluates an expression under the given bindings. Fails where the
/// expression names an operand that is not bound or that holds an error,
/// takes a bit of what is no byte, or combines a byte with a bit.
pub fn evaluate(expr: &Expr, env: &Vec<Binding>) -> (r: Result<Value, Error>)
    ensures
        r == value_of(expr@, binding_views(env@)),
    decreases expr,
{
    match expr {
        Expr::Var { name, bit } => {
            match lookup(env, name) {
                None => Err(Error::UnboundOperand),
                Some(Err(e)) => Err(e),
                Some(Ok(value)) => match bit {
                    None => Ok(value),
                    Some(b) => match value {
                        Value::Byte(x) => if *b < 8 {
                            Ok(Value::Bit(get_bit(x, *b)))
                        } else {
                            Err(Error::WrongWidth)
                        },
                        Value::Bit(_) => Err(Error::WrongWidth),
                    },
                },
            }
        },
        Expr::Not(inner) => {
            match evaluate(inner, env) {
                Err(e) => Err(e),
                Ok(Value::Bit(b)) => Ok(Value::Bit(!b)),
                Ok(Value::Byte(x)) => Ok(Value::Byte(!x)),
            }
        },
        Expr::Binary(op, left, right) => {
            let a = evaluate(left, env)?;
            let b = evaluate(right, env)?;
            combine(*op, a, b)
        },
    }
}

/// A copy of the characters between `from` and `to`.
fn copy_chars(chars: &Vec<char>, from: usize, to: usize) -> (r: Vec<char>)
    requires
        from <= to <= chars@.len(),
    ensures
        r@ == chars@.subrange(from as int, to as int),
{
    let mut out: Vec<char> = Vec::new();
    let mut k: usize = from;
    while k < to
        invariant
            from <= k <= to <= chars@.len(),
            out@.len() == k - from,
            forall|j: int| 0 <= j < out@.len() ==> out@[j] == chars@[from + j],
        decreases to - k,
    {
        out.push(chars[k]);
        k = k + 1;
    }
    assert(out@ =~= chars@.subrange(from as int, to as int));
    out
}

/// Whether a character is a letter of a name.
fn letter(c: char) -> (r: bool)
    ensures
        r == is_letter(c),
{
    ('a' <= c && c <= 'z') || ('A' <= c && c <= 'Z') || c == '_'
}

fn find_letters_end(chars: &Vec<char>, pos: usize) -> (r: usize)
    requires
        pos <= chars@.len(),
    ensures
        r == letters_end(chars@, pos as int),
        pos <= r <= chars@.len(),
{
    let mut end = pos;
    while end < chars.len() && letter(chars[end])
        invariant
            pos <= end <= chars@.len(),
            letters_end(chars@, pos as int) == letters_end(chars@, end as int),
        decreases chars@.len() - end,
    {
        end = end + 1;
    }
    end
}

fn find_digits_end(chars: &Vec<char>, pos: usize) -> (r: usize)
    requires
        pos <= chars@.len(),
    ensures
        r == digits_end(chars@, pos as int),
        pos <= r <= chars@.len(),
        forall|j: int| pos <= j < r ==> digit_value(#[trigger] chars@[j]) < 10,
{
    let mut end = pos;
    while end < chars.len() && digit_of(chars[end]) < 10
        invariant
            pos <= end <= chars@.len(),
            digits_end(chars@, pos as int) == digits_end(chars@, end as int),
            forall|j: int| pos <= j < end ==> digit_value(#[trigger] chars@[j]) < 10,
        decreases chars@.len() - end,
    {
        end = end + 1;
    }
    end
}

proof fn lemma_digits_number_grows(text: Seq<char>, from: int, a: int, b: int)
    requires
        from <= a <= b <= text.len(),
        0 <= from,
        forall|j: int| from <= j < b ==> digit_value(#[trigger] text[j]) < 10,
    ensures
        0 <= digits_number(text, from, a) <= digits_number(text, from, b),
    decreases b - from,
{
    if a < b {
        lemma_digits_number_grows(text, from, a, b - 1);
        assert(digit_value(text[b - 1]) >= 0);
    } else if from < a {
        lemma_digits_number_grows(text, from, a - 1, a - 1);
        assert(digit_value(text[a - 1]) >= 0);
    }
}

/// The number that the digits between `from` and `to` spell, where it is at
/// most 255.
fn read_bit_number(chars: &Vec<char>, from: usize, to: usize) -> (r: Option<u8>)
    requires
        from <= to <= chars@.len(),
        forall|j: int| from <= j < to ==> digit_value(#[trigger] chars@[j]) < 10,
    ensures
        match r {
            Some(n) => digits_number(chars@, from as int, to as int) == n,
            None => digits_number(chars@, from as int, to as int) > 255,
        },
{
    let mut number: u16 = 0;
    let mut k: usize = from;
    while k < to
        invariant
            from <= k <= to <= chars@.len(),
            forall|j: int| from <= j < to ==> digit_value(#[trigger] chars@[j]) < 10,
            number == digits_number(chars@, from as int, k as int),
            number <= 255,
        decreases to - k,
    {
        let d = digit_of(chars[k]);
        let next: u16 = number * 10 + d as u16;
        if next > 255 {
            proof {
                lemma_digits_number_grows(chars@, from as int, k + 1, to as int);
            }
            return None;
        }
        number = next;
        k = k + 1;
    }
    Some(number as u8)
}

/// The token that one character is.
fn single_token(c: char) -> (r: Option<Token>)
    ensures
        match r {
            Some(token) => single(c) == Some(token@),
            None => single(c) is None,
        },
{
    if c == '&' {
        Some(Token::And)
    } else if c == '|' {
        Some(Token::Or)
    } else if c == '^' {
        Some(Token::Xor)
    } else if c == '!' {
        Some(Token::Not)
    } else if c == '=' {
        Some(Token::Equal)
    } else if c == '(' {
        Some(Token::Open)
    } else if c == ')' {
        Some(Token::Close)
    } else if c == '*' {
        Some(Token::Star)
    } else {
        None
    }
}

/// What is known of the tokens of a text when the tokens before `pos` are
/// `done`.
pub open spec fn tokens_after(text: Seq<char>, done: Seq<TokenView>, pos: int) -> Option<
    Seq<TokenView>,
> {
    match tokens_from(text, pos) {
        Some(rest) => Some(done + rest),
        None => None,
    }
}

/// Cuts a text into tokens.
pub fn tokenize(chars: &Vec<char>) -> (r: Option<Vec<Token>>)
    ensures
        match r {
            Some(tokens) => tokens_from(chars@, 0) == Some(token_views(tokens@)),
            None => tokens_from(chars@, 0) is None,
        },
{
    let mut tokens: Vec<Token> = Vec::new();
    let mut pos: usize = 0;
    proof {
        match tokens_from(chars@, 0) {
            Some(rest) => {
                assert(token_views(tokens@) + rest =~= rest);
            },
            None => {},
        }
    }
    while pos < chars.len()
        invariant
            pos <= chars@.len(),
            tokens_from(chars@, 0) == tokens_after(chars@, token_views(tokens@), pos as int),
        decreases chars@.len() - pos,
    {
        let c = chars[pos];
        let ghost done = token_views(tokens@);
        if c == ' ' {
            pos = pos + 1;
        } else if c == '!' && pos + 1 < chars.len() && chars[pos + 1] == '=' {
            tokens.push(Token::NotEqual);
            proof {
                lemma_pushed(chars@, done, token_views(tokens@), TokenView::NotEqual, pos + 2);
            }
            pos = pos + 2;
        } else if c == '=' && pos + 1 < chars.len() && chars[pos + 1] == '=' {
            tokens.push(Token::Equal);
            proof {
                lemma_pushed(chars@, done, token_views(tokens@), TokenView::Equal, pos + 2);
            }
            pos = pos + 2;
        } else if letter(c) {
            let mid = find_letters_end(chars, pos + 1);
            assert(letters_end(chars@, pos as int) == letters_end(chars@, pos + 1));
            let end = find_digits_end(chars, mid);
            let bit = if end == mid {
                None
            } else {
                match read_bit_number(chars, mid, end) {
                    Some(n) => Some(n),
                    None => {
                        return None;
                    },
                }
            };
            proof {
                if end == mid {
                    assert(digits_number(chars@, mid as int, end as int) == 0);
                }
            }
            let name = copy_chars(chars, pos, mid);
            let ghost view = TokenView::Var { name: name@, bit };
            tokens.push(Token::Var { name, bit });
            proof {
                lemma_pushed(chars@, done, token_views(tokens@), view, end as int);
            }
            pos = end;
        } else {
            match single_token(c) {
                Some(token) => {
                    let ghost view = token@;
                    tokens.push(token);
                    proof {
                        lemma_pushed(chars@, done, token_views(tokens@), view, pos + 1);
                    }
                    pos = pos + 1;
                },
                None => {
                    return None;
                },
            }
        }
    }
    assert(token_views(tokens@) + Seq::<TokenView>::empty() =~= token_views(tokens@));
    Some(tokens)
}

proof fn lemma_pushed(
    text: Seq<char>,
    done: Seq<TokenView>,
    more: Seq<TokenView>,
    token: TokenView,
    next: int,
)
    requires
        more =~= done.push(token),
    ensures
        tokens_after(text, more, next) == (match prepend(token, tokens_from(text, next)) {
            Some(rest) => Some(done + rest),
            None => None,
        }),
{
    match tokens_from(text, next) {
        Some(rest) => {
            assert(done + (seq![token] + rest) =~= done.push(token) + rest);
        },
        None => {},
    }
}

/// An operand of the grammar.
fn atom(t: &Vec<Token>, pos: usize) -> (r: Option<(Expr, usize)>)
    ensures
        match r {
            Some((expr, next)) => parse_atom(token_views(t@), pos as int) == Some(
                (expr@, next as int),
            ) && pos < next <= t@.len(),
            None => parse_atom(token_views(t@), pos as int) is None,
        },
    decreases t@.len() - pos, 0nat,
{
    if pos >= t.len() {
        return None;
    }
    assert(token_views(t@)[pos as int] == t@[pos as int]@);
    match &t[pos] {
        Token::Open => {
            match comparison(t, pos + 1) {
                Some((inner, next)) => {
                    if next < t.len() {
                        assert(token_views(t@)[next as int] == t@[next as int]@);
                        match &t[next] {
                            Token::Close => Some((inner, next + 1)),
                            _ => None,
                        }
                    } else {
                        None
                    }
                },
                None => None,
            }
        },
        Token::Var { name, bit } => {
            let copy = copy_chars(name, 0, name.len());
            assert(copy@ =~= name@);
            let whole = match bit {
                None => t.len() - pos > 3 && is_open(&t[pos + 1]) && is_star(&t[pos + 2])
                    && is_close(&t[pos + 3]),
                Some(_) => false,
            };
            proof {
                if pos + 3 < t@.len() {
                    assert(token_views(t@)[pos + 1] == t@[pos + 1]@);
                    assert(token_views(t@)[pos + 2] == t@[pos + 2]@);
                    assert(token_views(t@)[pos + 3] == t@[pos + 3]@);
                }
            }
            if whole {
                Some((Expr::Var { name: copy, bit: None }, pos + 4))
            } else {
                Some((Expr::Var { name: copy, bit: *bit }, pos + 1))
            }
        },
        _ => None,
    }
}

fn is_open(token: &Token) -> (r: bool)
    ensures
        r == (token@ is Open),
{
    match token {
        Token::Open => true,
        _ => false,
    }
}

fn is_close(token: &Token) -> (r: bool)
    ensures
        r == (token@ is Close),
{
    match token {
        Token::Close => true,
        _ => false,
    }
}

fn is_star(token: &Token) -> (r: bool)
    ensures
        r == (token@ is Star),
{
    match token {
        Token::Star => true,
        _ => false,
    }
}

fn is_not(token: &Token) -> (r: bool)
    ensures
        r == (token@ is Not),
{
    match token {
        Token::Not => true,
        _ => false,
    }
}

fn is_level(token: &Token, level: u8) -> (r: bool)
    ensures
        r == is_level_token(token@, level as nat),
{
    match token {
        Token::And => level == 0,
        Token::Xor => level == 1,
        Token::Or => level >= 2,
        _ => false,
    }
}

/// An operand with any number of `!` in front of it.
fn unary(t: &Vec<Token>, pos: usize) -> (r: Option<(Expr, usize)>)
    ensures
        match r {
            Some((expr, next)) => parse_unary(token_views(t@), pos as int) == Some(
                (expr@, next as int),
            ) && pos < next <= t@.len(),
            None => parse_unary(token_views(t@), pos as int) is None,
        },
    decreases t@.len() - pos, 1nat,
{
    if pos >= t.len() {
        return None;
    }
    assert(token_views(t@)[pos as int] == t@[pos as int]@);
    if is_not(&t[pos]) {
        match unary(t, pos + 1) {
            Some((inner, next)) => Some((Expr::Not(Box::new(inner)), next)),
            None => None,
        }
    } else {
        atom(t, pos)
    }
}

/// An operand of a level.
fn operand_of_level(t: &Vec<Token>, pos: usize, level: u8) -> (r: Option<(Expr, usize)>)
    requires
        level <= 2,
    ensures
        match r {
            Some((expr, next)) => parse_operand(token_views(t@), pos as int, level as nat) == Some(
                (expr@, next as int),
            ) && pos < next <= t@.len(),
            None => parse_operand(token_views(t@), pos as int, level as nat) is None,
        },
    decreases t@.len() - pos, 2 + 2 * level,
{
    if level == 0 {
        unary(t, pos)
    } else {
        chain(t, pos, level - 1)
    }
}

/// A chain of operands of a level.
fn chain(t: &Vec<Token>, pos: usize, level: u8) -> (r: Option<(Expr, usize)>)
    requires
        level <= 2,
    ensures
        match r {
            Some((expr, next)) => parse_chain(token_views(t@), pos as int, level as nat) == Some(
                (expr@, next as int),
            ) && pos < next <= t@.len(),
            None => parse_chain(token_views(t@), pos as int, level as nat) is None,
        },
    decreases t@.len() - pos, 3 + 2 * level,
{
    match operand_of_level(t, pos, level) {
        Some((left, next)) => rest(t, next, level, left),
        None => None,
    }
}

/// The operator of a level.
fn operator_of(level: u8) -> (r: Operator)
    ensures
        r == level_operator(level as nat),
{
    if level == 0 {
        Operator::And
    } else if level == 1 {
        Operator::Xor
    } else {
        Operator::Or
    }
}

/// The rest of a chain behind the expression `left`.
fn rest(t: &Vec<Token>, pos: usize, level: u8, left: Expr) -> (r: Option<(Expr, usize)>)
    requires
        level <= 2,
        pos <= t@.len(),
    ensures
        match r {
            Some((expr, next)) => parse_rest(token_views(t@), pos as int, level as nat, left@)
                == Some((expr@, next as int)) && pos <= next <= t@.len(),
            None => parse_rest(token_views(t@), pos as int, level as nat, left@) is None,
        },
    decreases t@.len() - pos, 0nat,
{
    if pos < t.len() {
        assert(token_views(t@)[pos as int] == t@[pos as int]@);
        if is_level(&t[pos], level) {
            return match operand_of_level(t, pos + 1, level) {
                Some((right, next)) => rest(
                    t,
                    next,
                    level,
                    Expr::Binary(operator_of(level), Box::new(left), Box::new(right)),
                ),
                None => None,
            };
        }
    }
    Some((left, pos))
}

/// A chain of `|`, or two of them around one comparison.
fn comparison(t: &Vec<Token>, pos: usize) -> (r: Option<(Expr, usize)>)
    ensures
        match r {
            Some((expr, next)) => parse_comparison(token_views(t@), pos as int) == Some(
                (expr@, next as int),
            ) && pos < next <= t@.len(),
            None => parse_comparison(token_views(t@), pos as int) is None,
        },
    decreases t@.len() - pos, 10nat,
{
    match chain(t, pos, 2) {
        Some((left, next)) => {
            if next < t.len() {
                assert(token_views(t@)[next as int] == t@[next as int]@);
                let op = match &t[next] {
                    Token::Equal => Some(Operator::Equal),
                    Token::NotEqual => Some(Operator::NotEqual),
                    _ => None,
                };
                match op {
                    Some(op) => match chain(t, next + 1, 2) {
                        Some((right, end)) => Some(
                            (Expr::Binary(op, Box::new(left), Box::new(right)), end),
                        ),
                        None => None,
                    },
                    None => Some((left, next)),
                }
            } else {
                Some((left, next))
            }
        },
        None => None,
    }
}

/// Reads an expression from its text. An error for a text that is no
/// expression.
pub fn parse(text: &str) -> (r: Result<Expr, Error>)
    ensures
        match r {
            Ok(expr) => parsed_text(text@) == Some(expr@),
            Err(e) => parsed_text(text@) is None && e == Error::InvalidExpression,
        },
{
    let chars = match ascii_chars(text) {
        Some(chars) => chars,
        None => {
            return Err(Error::InvalidExpression);
        },
    };
    let tokens = match tokenize(&chars) {
        Some(tokens) => tokens,
        None => {
            return Err(Error::InvalidExpression);
        },
    };
    match comparison(&tokens, 0) {
        Some((expr, next)) => if next == tokens.len() {
            Ok(expr)
        } else {
            Err(Error::InvalidExpression)
        },
        None => Err(Error::InvalidExpression),
    }
}

/// Reads an expression from its text and evaluates it under the given
/// bindings.
pub fn execute(text: &str, env: &Vec<Binding>) -> (r: Result<Value, Error>)
    ensures
        r == (match parsed_text(text@) {
            Some(expr) => value_of(expr, binding_views(env@)),
            None => Err(Error::InvalidExpression),
        }),
{
    let expr = parse(text)?;
    evaluate(&expr, env)
}

} // verus!
