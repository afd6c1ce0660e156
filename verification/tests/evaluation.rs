use lisp_lang::evaluation::eval;
use lisp_lang::parsing::parse;
use lisp_lang::scope::Scope;
use lisp_lang::value::LispVal;

fn eval_str(input: &str) -> LispVal {
    let (expr, _) = parse(input).unwrap();
    let (_, value) = eval(Scope::new("unknown".to_string()), &expr).unwrap();
    value
}

#[test]
fn test_math_expression() {
    assert_eq!(eval_str("(+ 1 2)"), LispVal::Number(3));
}

#[test]
fn test_binding() {
    assert_eq!(
        eval_str("(list (let 'x 10) (+ x 2))"),
        vec![LispVal::Void(), LispVal::Number(12)].into()
    );
}

#[test]
fn mod_test_binding() {
    assert_eq!(
        eval_str("(list (let 'x 10) (+ x 2))"),
        vec![LispVal::Void(), LispVal::Number(12)].into()
    );
}

#[test]
fn test_fold() {
    assert_eq!(eval_str("(fold '(+) 1 '(1 2 3))"), LispVal::Number(7));
}

#[test]
fn mod_test_fold() {
    assert_eq!(eval_str("(fold '(+) 1 '(1 2 3))"), LispVal::Number(7));
}

#[test]
fn test_map() {
    assert_eq!(
        eval_str("(map '(+ 2) '(1 2 3))"),
        vec![LispVal::Number(3), LispVal::Number(4), LispVal::Number(5)].into()
    );
}

#[test]
fn mod_test_map() {
    assert_eq!(
        eval_str("(map '(+ 2) '(1 2 3))"),
        vec![LispVal::Number(3), LispVal::Number(4), LispVal::Number(5)].into()
    );
}

#[test]
fn test_function_call() {
    assert_eq!(
        eval_str("(list (let 'add2 '(+ 2)) (map add2 (list 1 2 3)))"),
        vec![
            LispVal::Void(),
            vec![LispVal::Number(3), LispVal::Number(4), LispVal::Number(5)].into()
        ]
        .into()
    );
}
