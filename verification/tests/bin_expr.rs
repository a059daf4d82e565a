use avr_sim::alu;
use avr_sim::bin_expr::{
    evaluate, execute, parse, Binding, Expr, Operator, Value, ValueKind,
};
use avr_sim::error::Error;

fn byte(name: &str, value: u8) -> Binding {
    Binding { name: name.to_string(), value: Ok(Value::Byte(value)) }
}

fn bit(name: &str, value: bool) -> Binding {
    Binding { name: name.to_string(), value: Ok(Value::Bit(value)) }
}

fn var(name: &str, bit: Option<u8>) -> Expr {
    Expr::Var { name: name.chars().collect(), bit }
}

#[test]
pub fn exec() {
    let a: Result<Value, Error> = Ok(Value::Byte(0xffu8));
    let b: Result<Value, Error> = Ok(Value::Byte(0xf0u8));
    let c: Result<Value, Error> = Err(Error::InvalidRegister { index: 0xabcd });
    let d: Result<Value, Error> = Err(Error::InvalidRegister { index: 0xefef });
    let env = vec![
        Binding { name: "a".to_string(), value: a },
        Binding { name: "b".to_string(), value: b },
        Binding { name: "c".to_string(), value: c },
        Binding { name: "d".to_string(), value: d },
    ];
    let d = execute("a&b", &env);
    println!("{:?}", d);
    assert_eq!(d, Ok(Value::Byte(0xf0)));
    // an operand that holds an error gives the error, the first one from the left
    assert_eq!(execute("a&c", &env), Err(Error::InvalidRegister { index: 0xabcd }));
    assert_eq!(execute("d|c", &env), Err(Error::InvalidRegister { index: 0xefef }));
    // names that are not bound
    assert_eq!(execute("abcd", &env), Err(Error::UnboundOperand));
    assert_eq!(execute("a&efgh", &env), Err(Error::UnboundOperand));
}

#[test]
fn bits_of_bytes() {
    let env = vec![byte("ra", 0b1000_1000), byte("rb", 0b0000_1000), bit("flag", true)];
    assert_eq!(execute("ra3", &env), Ok(Value::Bit(true)));
    assert_eq!(execute("ra7", &env), Ok(Value::Bit(true)));
    assert_eq!(execute("ra0", &env), Ok(Value::Bit(false)));
    assert_eq!(execute("rb7", &env), Ok(Value::Bit(false)));
    assert_eq!(execute("ra3&rb3", &env), Ok(Value::Bit(true)));
    assert_eq!(execute("ra7&rb7", &env), Ok(Value::Bit(false)));
    assert_eq!(execute("ra7|rb7", &env), Ok(Value::Bit(true)));
    assert_eq!(execute("ra7^rb3", &env), Ok(Value::Bit(false)));
    assert_eq!(execute("!ra0", &env), Ok(Value::Bit(true)));
    assert_eq!(execute("!!ra0", &env), Ok(Value::Bit(false)));
    assert_eq!(execute("flag", &env), Ok(Value::Bit(true)));
    assert_eq!(execute("flag ^ ra7", &env), Ok(Value::Bit(false)));
    assert_eq!(execute("ra(*)", &env), Ok(Value::Byte(0b1000_1000)));
    assert_eq!(execute("ra^rb", &env), Ok(Value::Byte(0b1000_0000)));
    assert_eq!(execute("!rb", &env), Ok(Value::Byte(0b1111_0111)));
    assert_eq!(execute("ra=rb", &env), Ok(Value::Bit(false)));
    assert_eq!(execute("ra==ra", &env), Ok(Value::Bit(true)));
    assert_eq!(execute("ra!=rb", &env), Ok(Value::Bit(true)));
    assert_eq!(execute("ra3=rb3", &env), Ok(Value::Bit(true)));
}

#[test]
fn precedence() {
    let env = vec![bit("t", true), bit("f", false)];
    // `&` binds more tightly than `^`, `^` more tightly than `|`
    assert_eq!(execute("t|t&f", &env), Ok(Value::Bit(true)));
    assert_eq!(execute("(t|t)&f", &env), Ok(Value::Bit(false)));
    assert_eq!(execute("t^t&f", &env), Ok(Value::Bit(true)));
    assert_eq!(execute("(t^t)&f", &env), Ok(Value::Bit(false)));
    assert_eq!(execute("t|t^t", &env), Ok(Value::Bit(true)));
    assert_eq!(execute("(t|t)^t", &env), Ok(Value::Bit(false)));
    // `!` binds most tightly
    assert_eq!(execute("!f&f", &env), Ok(Value::Bit(false)));
    assert_eq!(execute("!(f&f)", &env), Ok(Value::Bit(true)));
    // a comparison binds least
    assert_eq!(execute("t|f=f|t", &env), Ok(Value::Bit(true)));
    assert_eq!(execute("t|(f=f)|f", &env), Ok(Value::Bit(true)));
    assert_eq!(execute("f&t!=t", &env), Ok(Value::Bit(true)));
}

#[test]
fn the_tree_of_an_expression() {
    let tree = parse("a1&!b|c").unwrap();
    let expected = Expr::Binary(
        Operator::Or,
        Box::new(Expr::Binary(
            Operator::And,
            Box::new(var("a", Some(1))),
            Box::new(Expr::Not(Box::new(var("b", None)))),
        )),
        Box::new(var("c", None)),
    );
    assert_eq!(format!("{:?}", tree), format!("{:?}", expected));
    // chains go from left to right
    let tree = parse("a^b^c").unwrap();
    let expected = Expr::Binary(
        Operator::Xor,
        Box::new(Expr::Binary(Operator::Xor, Box::new(var("a", None)), Box::new(var("b", None)))),
        Box::new(var("c", None)),
    );
    assert_eq!(format!("{:?}", tree), format!("{:?}", expected));
    let tree = parse(" res12 ").unwrap();
    assert_eq!(format!("{:?}", tree), format!("{:?}", var("res", Some(12))));
}

#[test]
fn what_is_no_expression() {
    for text in [
        "", " ", "&", "a&", "&a", "a b", "(a", "a)", "()", "a||b", "a=b=c", "3", "a3b", "a256",
        "a#b", "a(*", "a(b)", "a3(*)", "!", "a!b", "a\u{e9}",
    ] {
        assert_eq!(parse(text).err(), Some(Error::InvalidExpression), "{:?}", text);
        assert_eq!(execute(text, &vec![]), Err(Error::InvalidExpression));
    }
    assert!(parse("a255").is_ok());
    assert!(parse("((a))").is_ok());
    assert!(parse("a(*)&b(*)").is_ok());
}

#[test]
fn widths_that_do_not_fit() {
    let env = vec![byte("ra", 0xff), bit("flag", true)];
    assert_eq!(execute("ra&flag", &env), Err(Error::WrongWidth));
    assert_eq!(execute("flag=ra", &env), Err(Error::WrongWidth));
    assert_eq!(execute("flag3", &env), Err(Error::WrongWidth));
    assert_eq!(execute("ra8", &env), Err(Error::WrongWidth));
    assert_eq!(execute("ra7", &env), Ok(Value::Bit(true)));
    assert_eq!(execute("other", &env), Err(Error::UnboundOperand));
    // the first binding of a name counts
    let twice = vec![byte("x", 1), byte("x", 2)];
    assert_eq!(execute("x", &twice), Ok(Value::Byte(1)));
}

#[test]
fn a_tree_built_by_hand() {
    let env = vec![byte("ra", 0x08)];
    let tree = Expr::Not(Box::new(var("ra", Some(3))));
    assert_eq!(evaluate(&tree, &env), Ok(Value::Bit(false)));
    let name: Vec<char> = "r\u{e9}".chars().collect();
    let odd = Expr::Var { name, bit: None };
    let bound = vec![byte("r\u{e9}", 5)];
    assert_eq!(evaluate(&odd, &bound), Ok(Value::Byte(5)));
}

#[test]
fn the_flag_formulas_of_the_datasheet_give_the_flags_of_the_adder() {
    let half = parse("(ra3&rb3)|(ra3&!res3)|(rb3&!res3)").unwrap();
    let overflow = parse("(ra7&rb7&!res7)|(!ra7&!rb7&res7)").unwrap();
    let negative = parse("res7").unwrap();
    let sign = parse("v^n").unwrap();
    for a in (0..=255u8).step_by(3) {
        for b in (0..=255u8).step_by(5) {
            let sum = alu::add(a, b, false);
            let env = vec![byte("ra", a), byte("rb", b), byte("res", sum.value)];
            assert_eq!(evaluate(&half, &env), Ok(Value::Bit(sum.status.h.unwrap())));
            let v = evaluate(&overflow, &env).unwrap();
            let n = evaluate(&negative, &env).unwrap();
            assert_eq!(v, Value::Bit(sum.status.v.unwrap()));
            assert_eq!(n, Value::Bit(sum.status.n.unwrap()));
            let flags = vec![
                Binding { name: "v".to_string(), value: Ok(v) },
                Binding { name: "n".to_string(), value: Ok(n) },
            ];
            assert_eq!(evaluate(&sign, &flags), Ok(Value::Bit(sum.status.s.unwrap())));
        }
    }
}

#[test]
fn reading_a_value_as_what_it_is_not() {
    assert_eq!(Value::Byte(7).read_byte(), Ok(7));
    assert_eq!(Value::Bit(true).read_bit(), Ok(true));
    assert_eq!(
        Value::Byte(7).read_bit(),
        Err(Error::InvalidReadError { current: ValueKind::Byte, expected: ValueKind::Bit })
    );
    assert_eq!(
        Value::Bit(false).read_byte(),
        Err(Error::InvalidReadError { current: ValueKind::Bit, expected: ValueKind::Byte })
    );
    assert_eq!(Value::Bit(false).kind(), ValueKind::Bit);
    assert_eq!(
        Error::InvalidReadError { current: ValueKind::Bit, expected: ValueKind::Byte }.message(),
        "invalid read: trying to read byte from bit"
    );
}
