use lisp_lang::errors::EvalError;
use lisp_lang::evaluation::eval;
use lisp_lang::parsing::parse;
use lisp_lang::scope::Scope;
use lisp_lang::value::{LispType, LispVal};

fn run(input: &str) -> Result<(Scope, LispVal), EvalError> {
    let (expr, _) = parse(input).unwrap();
    eval(Scope::default(), &expr)
}

fn run_value(input: &str) -> LispVal {
    run(input).unwrap().1
}

fn run_error(input: &str) -> EvalError {
    run(input).unwrap_err()
}

#[test]
fn test_determinism() {
    let (expr, _) = parse("(list (def! x 10) (fold '(+) 0 '(1 2 3)) (map '(* 2) '(4 5)))").unwrap();
    let first = eval(Scope::default(), &expr).unwrap();
    let second = eval(Scope::default(), &expr).unwrap();
    assert_eq!(first.1, second.1);
    assert_eq!(first.0.context, second.0.context);
}

#[test]
fn test_binding_visibility() {
    let (scope, value) = run("(list (def! x 10) (+ x 2))").unwrap();
    assert_eq!(value, vec![LispVal::Void(), LispVal::Number(12)].into());
    assert_eq!(scope.get("x"), Some(&LispVal::Number(10)));
}

#[test]
fn test_binding_isolation() {
    let err = run_error("(list (defn! f (a) (def! y a)) (f 5) y)");
    assert_eq!(err, EvalError::UnknownIdentifier("y".to_string()));
}

#[test]
fn test_native_currying() {
    let curried = run_value("(+ 3)");
    match &curried {
        LispVal::Function { parameters, applied, .. } => {
            assert_eq!(parameters.len(), 2);
            assert_eq!(applied, &vec![LispVal::Number(3)]);
        },
        other => panic!("expected a function, got {:?}", other),
    }
    assert_eq!(
        run_value("(list (def! g (+ 3)) (g 4))"),
        vec![LispVal::Void(), LispVal::Number(7)].into()
    );
}

#[test]
fn test_user_currying_matches_native() {
    assert_eq!(
        run_value("(list (defn! plus (x y) (+ x y)) (def! h (plus 3)) (h 4))"),
        vec![LispVal::Void(), LispVal::Void(), LispVal::Number(7)].into()
    );
    let curried = run_value("(list (defn! plus (x y) (+ x y)) (plus 3))");
    match &curried {
        LispVal::List(items) => match &items[1] {
            LispVal::Function { parameters, applied, .. } => {
                assert_eq!(parameters.len(), 2);
                assert_eq!(applied, &vec![LispVal::Number(3)]);
            },
            other => panic!("expected a function, got {:?}", other),
        },
        other => panic!("expected a list, got {:?}", other),
    }
}

#[test]
fn test_fold_laws() {
    assert_eq!(run_value("(fold '(+) 5 '())"), LispVal::Number(5));
    assert_eq!(run_value("(fold '(+) 1 '(2))"), LispVal::Number(3));
    assert_eq!(run_value("(fold '(-) 10 '(1 2))"), LispVal::Number(7));
}

#[test]
fn test_map_laws() {
    assert_eq!(run_value("(map '(+ 2) '())"), LispVal::List(vec![]));
    assert_eq!(
        run_value("(map '(* 2) '(1 2 3))"),
        vec![LispVal::Number(2), LispVal::Number(4), LispVal::Number(6)].into()
    );
}

#[test]
fn test_concat_polymorphism() {
    assert_eq!(
        run_value("(concat (list 1 2) (list 3))"),
        vec![LispVal::Number(1), LispVal::Number(2), LispVal::Number(3)].into()
    );
    assert_eq!(
        run_value("(concat (list 1) 2)"),
        vec![LispVal::Number(1), LispVal::Number(2)].into()
    );
    assert_eq!(
        run_value("(concat 1 (list 2))"),
        vec![LispVal::Number(1), LispVal::Number(2)].into()
    );
    assert_eq!(
        run_value("(concat 1 2)"),
        vec![LispVal::Number(1), LispVal::Number(2)].into()
    );
}

#[test]
fn test_quoting_round_trip() {
    let scope = Scope::default();
    let inner = LispVal::List(vec![
        LispVal::Symbol("+".into()),
        LispVal::Number(1),
        LispVal::Number(2),
    ]);
    let quoted = inner.to_unevaluated();
    let (scope2, value) = eval(scope, &quoted).unwrap();
    assert_eq!(value, inner);
    assert_eq!(scope2.context, "main".to_string());
    assert_eq!(scope2.get("MAX_INT"), Some(&LispVal::Number(i64::MAX)));
}

#[test]
fn test_error_argument_type() {
    let err = run_error("(+ 1 \"a\")");
    assert_eq!(
        err,
        EvalError::InvalidArgumentType {
            name: "+".to_string(),
            expected: LispType::Number,
            got: LispType::Text,
            position: 1,
        }
    );
}

#[test]
fn test_error_unknown_identifier() {
    let err = run_error("(undefined_name)");
    assert_eq!(err, EvalError::UnknownIdentifier("undefined_name".to_string()));
}

#[test]
fn test_error_invalid_function_call() {
    let err = run_error("(1 2 3)");
    assert_eq!(
        err,
        EvalError::InvalidFunctionCall {
            values: vec![LispVal::Number(1), LispVal::Number(2), LispVal::Number(3)],
        }
    );
}

#[test]
fn test_error_division_by_zero() {
    assert_eq!(
        run_error("(/ 1 0)"),
        EvalError::DivisionByZero { name: "/".to_string() }
    );
    assert_eq!(
        run_error("(% 1 0)"),
        EvalError::DivisionByZero { name: "%".to_string() }
    );
}

#[test]
fn test_error_arithmetic_overflow() {
    assert_eq!(
        run_error("(+ 9223372036854775807 1)"),
        EvalError::ArithmeticOverflow { name: "+".to_string() }
    );
    assert_eq!(
        run_error("(/ -9223372036854775808 -1)"),
        EvalError::ArithmeticOverflow { name: "/".to_string() }
    );
}

#[test]
fn test_error_list_overflow() {
    assert_eq!(
        run_error("(head '())"),
        EvalError::ListOverflow { access: 0, count: 0 }
    );
    assert_eq!(
        run_error("(tail '())"),
        EvalError::ListOverflow { access: 1, count: 0 }
    );
}

#[test]
fn test_error_arguments_count() {
    assert_eq!(
        run_error("(+ 1 2 3)"),
        EvalError::InvalidArgumentsCount {
            name: "+".to_string(),
            expected: 2,
            got: 3,
        }
    );
}

#[test]
fn test_error_recursion_depth() {
    let err = run_error("(list (defn! spin (x) (spin x)) (spin 1))");
    assert_eq!(err, EvalError::RecursionDepthExceeded);
}

#[test]
fn test_if_evaluates_one_branch() {
    assert_eq!(run_value("(if! true 1 2)"), LispVal::Number(1));
    assert_eq!(run_value("(if! false 1 2)"), LispVal::Number(2));
    assert_eq!(run_value("(if! true 1 (undefined_name))"), LispVal::Number(1));
    assert_eq!(run_value("(if! false (undefined_name) 2)"), LispVal::Number(2));
}

#[test]
fn test_sequence_primitives() {
    assert_eq!(run_value("(head '(1 2))"), LispVal::Number(1));
    assert_eq!(
        run_value("(tail '(1 2 3))"),
        vec![LispVal::Number(2), LispVal::Number(3)].into()
    );
    assert_eq!(run_value("(len '(1 2 3))"), LispVal::Number(3));
    assert_eq!(
        run_value("(push '(1) 2)"),
        vec![LispVal::Number(1), LispVal::Number(2)].into()
    );
}

#[test]
fn test_comparison_and_logic() {
    assert_eq!(run_value("(< 1 2)"), LispVal::Boolean(true));
    assert_eq!(run_value("(>= 1 2)"), LispVal::Boolean(false));
    assert_eq!(run_value("(eq 2 2)"), LispVal::Boolean(true));
    assert_eq!(run_value("(and true false)"), LispVal::Boolean(false));
    assert_eq!(run_value("(or true false)"), LispVal::Boolean(true));
    assert_eq!(run_value("(not false)"), LispVal::Boolean(true));
    assert_eq!(run_value("(max 3 5)"), LispVal::Number(5));
    assert_eq!(run_value("(min 3 5)"), LispVal::Number(3));
    assert_eq!(run_value("(mod 7 3)"), LispVal::Number(1));
    assert_eq!(run_value("(div 7 3)"), LispVal::Number(2));
}

#[test]
fn test_to_string_native() {
    assert_eq!(run_value("(to_string 42)"), LispVal::Text("42".into()));
    assert_eq!(run_value("(to_string -7)"), LispVal::Text("-7".into()));
}

#[test]
fn test_eval_native() {
    assert_eq!(run_value("(eval '(+ 1 2))"), LispVal::Number(3));
}

#[test]
fn test_seeded_constants() {
    assert_eq!(run_value("MAX_INT"), LispVal::Number(i64::MAX));
    assert_eq!(run_value("MIN_INT"), LispVal::Number(i64::MIN));
}

#[test]
fn test_clear_scope_resets() {
    let err = run_error("(list (def! x 1) (clear_scope) x)");
    assert_eq!(err, EvalError::UnknownIdentifier("x".to_string()));
    let value = run_value("(list (def! x 1) (clear_scope) MAX_INT)");
    assert_eq!(
        value,
        vec![LispVal::Void(), LispVal::Void(), LispVal::Number(i64::MAX)].into()
    );
}

#[test]
fn test_shadowing() {
    assert_eq!(
        run_value("(list (def! x 1) (def! x 2) x)"),
        vec![LispVal::Void(), LispVal::Void(), LispVal::Number(2)].into()
    );
}

#[test]
fn test_fn_builds_function_value() {
    let value = run_value("(fn! (a b) (+ a b))");
    match &value {
        LispVal::Function { parameters, applied, .. } => {
            assert_eq!(parameters, &vec!["a".to_string(), "b".to_string()]);
            assert!(applied.is_empty());
        },
        other => panic!("expected a function, got {:?}", other),
    }
}

#[test]
fn test_fn_rejects_non_symbol_parameters() {
    let err = run_error("(fn! (a 1) (+ a 1))");
    assert_eq!(
        err,
        EvalError::InvalidArgumentType {
            name: "fn!".to_string(),
            expected: LispType::Symbol,
            got: LispType::Number,
            position: 1,
        }
    );
}

#[test]
fn test_too_many_arguments_for_closure() {
    let err = run_error("(list (defn! one (x) x) (one 1 2))");
    assert_eq!(
        err,
        EvalError::InvalidArgumentsCount {
            name: "one".to_string(),
            expected: 1,
            got: 2,
        }
    );
}

#[test]
fn test_debug_returns_argument() {
    assert_eq!(run_value("(debug 42)"), LispVal::Number(42));
}

#[test]
fn test_print_requires_text() {
    assert_eq!(run_value("(print \"hi\")"), LispVal::Void());
    assert_eq!(
        run_error("(print 1)"),
        EvalError::InvalidArgumentType {
            name: "print".to_string(),
            expected: LispType::Text,
            got: LispType::Number,
            position: 0,
        }
    );
}
