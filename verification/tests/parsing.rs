use lisp_lang::parsing::parse;
use lisp_lang::value::LispVal;

fn parse_str(input: &str) -> LispVal {
    parse(input).unwrap().0
}

#[test]
fn mod_test_math_expression() {
    assert_eq!(
        parse_str("(+ 1 2)"),
        LispVal::List(vec![
            LispVal::Symbol("+".into()),
            LispVal::Number(1),
            LispVal::Number(2),
        ])
    );
}

#[test]
fn test_nested_math_expression() {
    assert_eq!(
        parse_str("(+ 1 (* 2 3))"),
        LispVal::List(vec![
            LispVal::Symbol("+".into()),
            LispVal::Number(1),
            LispVal::List(vec![
                LispVal::Symbol("*".into()),
                LispVal::Number(2),
                LispVal::Number(3),
            ]),
        ])
    );
}

#[test]
fn mod_test_nested_math_expression() {
    assert_eq!(
        parse_str("(+ 1 (* 2 3))"),
        LispVal::List(vec![
            LispVal::Symbol("+".into()),
            LispVal::Number(1),
            LispVal::List(vec![
                LispVal::Symbol("*".into()),
                LispVal::Number(2),
                LispVal::Number(3),
            ]),
        ])
    );
}

#[test]
fn test_unevaluated_expression() {
    assert_eq!(
        parse_str("'(+ 1 2)"),
        LispVal::Unevaluated(Box::new(LispVal::List(vec![
            LispVal::Symbol("+".into()),
            LispVal::Number(1),
            LispVal::Number(2),
        ])))
    );
}

#[test]
fn mod_test_unevaluated_expression() {
    assert_eq!(
        parse_str("'(+ 1 2)"),
        LispVal::Unevaluated(Box::new(LispVal::List(vec![
            LispVal::Symbol("+".into()),
            LispVal::Number(1),
            LispVal::Number(2),
        ])))
    );
}

#[test]
fn test_boolean() {
    assert_eq!(parse_str("true"), LispVal::Boolean(true));
    assert_eq!(parse_str("false"), LispVal::Boolean(false));
}

#[test]
fn mod_test_boolean() {
    assert_eq!(parse_str("true"), LispVal::Boolean(true));
    assert_eq!(parse_str("false"), LispVal::Boolean(false));
}

#[test]
fn test_number() {
    assert_eq!(parse_str("1"), LispVal::Number(1));
    assert_eq!(parse_str("+1"), LispVal::Number(1));
    assert_eq!(parse_str("-1"), LispVal::Number(-1));
}

#[test]
fn mod_test_number() {
    assert_eq!(parse_str("1"), LispVal::Number(1));
    assert_eq!(parse_str("+1"), LispVal::Number(1));
    assert_eq!(parse_str("-1"), LispVal::Number(-1));
}

#[test]
fn test_whitespace_and_remainder() {
    let (v, rest) = parse("  ( +   1 2 )  tail").unwrap();
    assert_eq!(
        v,
        LispVal::List(vec![
            LispVal::Symbol("+".into()),
            LispVal::Number(1),
            LispVal::Number(2),
        ])
    );
    assert_eq!(rest, "tail".to_string());
}

#[test]
fn test_text_with_escapes() {
    assert_eq!(parse_str("\"ab\\nc\""), LispVal::Text("ab\nc".into()));
    assert_eq!(parse_str("\"say \\\"hi\\\"\""), LispVal::Text("say \"hi\"".into()));
    assert!(parse("\"unterminated").is_err());
}

#[test]
fn test_symbols() {
    assert_eq!(parse_str("foo?"), LispVal::Symbol("foo?".into()));
    assert_eq!(parse_str("def!"), LispVal::Symbol("def!".into()));
    assert_eq!(parse_str("_under_score1"), LispVal::Symbol("_under_score1".into()));
    assert_eq!(parse_str("<="), LispVal::Symbol("<=".into()));
    assert_eq!(parse_str("-"), LispVal::Symbol("-".into()));
}

#[test]
fn test_number_limits() {
    assert_eq!(
        parse_str("9223372036854775807"),
        LispVal::Number(i64::MAX)
    );
    assert_eq!(
        parse_str("-9223372036854775808"),
        LispVal::Number(i64::MIN)
    );
    assert!(parse("99999999999999999999").is_err());
}

#[test]
fn test_empty_list() {
    assert_eq!(parse_str("()"), LispVal::List(vec![]));
}

#[test]
fn test_unclosed_list_fails() {
    assert!(parse("(+ 1 2").is_err());
    assert!(parse("").is_err());
}
