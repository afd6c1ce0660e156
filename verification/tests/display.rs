use lisp_lang::errors::{EvalError, LispValUnwrapError};
use lisp_lang::evaluation::eval;
use lisp_lang::parsing::parse;
use lisp_lang::repl::{evaluate, REPLError};
use lisp_lang::scope::Scope;
use lisp_lang::value::{LispType, LispVal};

fn run_error(input: &str) -> EvalError {
    let (expr, _) = parse(input).unwrap();
    eval(Scope::default(), &expr).unwrap_err()
}

#[test]
fn test_render_scalars() {
    assert_eq!(LispVal::Void().render(), "void");
    assert_eq!(LispVal::Number(42).render(), "42");
    assert_eq!(LispVal::Number(-7).render(), "-7");
    assert_eq!(LispVal::Number(i64::MIN).render(), "-9223372036854775808");
    assert_eq!(LispVal::Boolean(true).render(), "true");
    assert_eq!(LispVal::Boolean(false).render(), "false");
    assert_eq!(LispVal::Symbol("abc".into()).render(), "abc");
    assert_eq!(LispVal::Text("hi".into()).render(), "\"hi\"");
}

#[test]
fn test_render_compound() {
    let list = LispVal::List(vec![
        LispVal::Symbol("+".into()),
        LispVal::Number(1),
        LispVal::Number(2),
    ]);
    assert_eq!(list.render(), "(+ 1 2)");
    assert_eq!(list.to_unevaluated().render(), "'(+ 1 2)");
    assert_eq!(LispVal::List(vec![]).render(), "()");
}

#[test]
fn test_render_function() {
    let (expr, _) = parse("(+ 3)").unwrap();
    let (_, curried) = eval(Scope::default(), &expr).unwrap();
    assert_eq!(curried.render(), "(fn! (+ a0 a1) [a0=3])");
}

#[test]
fn test_render_round_trip() {
    let (expr, _) = parse("(fold '(+) 1 '(1 2 3))").unwrap();
    let rendered = expr.render();
    let (reparsed, rest) = parse(&rendered).unwrap();
    assert_eq!(rest, "");
    assert_eq!(reparsed, expr);
}

#[test]
fn test_render_argument_type_error() {
    assert_eq!(
        run_error("(+ 1 \"a\")").render(),
        "Invalid argument type for `+` at position `1`, expected `number`, got `text`"
    );
}

#[test]
fn test_render_unknown_identifier() {
    assert_eq!(
        run_error("(undefined_name)").render(),
        "Unknown identifier `undefined_name`."
    );
}

#[test]
fn test_render_invalid_function_call() {
    assert_eq!(
        run_error("(1 2 3)").render(),
        "Invalid function call, got `1` of type `number`. \nIs this supposed to be a list? If so, use `'(1 2 3)`"
    );
}

#[test]
fn test_render_arguments_count() {
    assert_eq!(
        run_error("(+ 1 2 3)").render(),
        "Too many arguments for `+`, expected `2`, got `3`"
    );
}

#[test]
fn test_render_unwrap_error() {
    let e = LispValUnwrapError { expected: LispType::Number, got: LispType::Text };
    assert_eq!(e.render(), "Expected number, got text");
}

#[test]
fn test_render_scope() {
    let scope = Scope::new("main".to_string())
        .bind("a".to_string(), LispVal::Number(1))
        .bind("b".to_string(), LispVal::Boolean(true));
    assert_eq!(scope.render(), "{ a: 1, b: true }");
    assert_eq!(Scope::new("main".to_string()).render(), "{  }");
}

#[test]
fn test_evaluate_pipeline() {
    let (scope, value) = evaluate(Scope::default(), "(+ 1 2)").unwrap();
    assert_eq!(value, LispVal::Number(3));
    assert_eq!(scope.context, "main".to_string());
}

#[test]
fn test_evaluate_trailing_input() {
    let err = evaluate(Scope::default(), "(+ 1 2) trailing").unwrap_err();
    assert_eq!(
        err,
        REPLError::ParseError("Unexpected input: trailing".to_string())
    );
}

#[test]
fn test_evaluate_parse_failure() {
    let err = evaluate(Scope::default(), "(+ 1").unwrap_err();
    assert_eq!(err, REPLError::ParseError("Unable to parse the input".to_string()));
}

#[test]
fn test_evaluate_evaluation_failure() {
    let err = evaluate(Scope::default(), "(undefined_name)").unwrap_err();
    assert_eq!(
        err,
        REPLError::EvaluationError("Unknown identifier `undefined_name`.".to_string())
    );
}

#[test]
fn test_evaluate_threads_scope() {
    let (scope, _) = evaluate(Scope::default(), "(def! x 5)").unwrap();
    let (_, value) = evaluate(scope, "(+ x 1)").unwrap();
    assert_eq!(value, LispVal::Number(6));
}
