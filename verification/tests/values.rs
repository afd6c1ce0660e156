use lisp_lang::errors::LispValUnwrapError;
use lisp_lang::natives::{lookup_native, NativeFunction, NativeOp};
use lisp_lang::scope::Scope;
use lisp_lang::value::{LispType, LispVal};

#[test]
fn test_to_type() {
    assert_eq!(LispVal::Number(1).to_type(), LispType::Number);
    assert_eq!(LispVal::Text("x".into()).to_type(), LispType::Text);
    assert_eq!(LispVal::Symbol("x".into()).to_type(), LispType::Symbol);
    assert_eq!(LispVal::Boolean(true).to_type(), LispType::Boolean);
    assert_eq!(LispVal::List(vec![]).to_type(), LispType::List);
    assert_eq!(LispVal::Void().to_type(), LispType::Void);
    // A quoted value reports the kind of the value it wraps.
    assert_eq!(
        LispVal::Number(1).to_unevaluated().to_type(),
        LispType::Number
    );
}

#[test]
fn test_coercions() {
    assert_eq!(LispVal::Number(4).as_number(), Ok(4));
    assert_eq!(LispVal::Boolean(true).as_boolean(), Ok(true));
    assert_eq!(LispVal::Text("x".into()).as_text(), Ok("x".to_string()));
    assert_eq!(LispVal::Void().as_unit(), Ok(()));
    assert_eq!(LispVal::Symbol("s".into()).as_symbol(), Ok("s"));
    assert_eq!(
        LispVal::List(vec![LispVal::Number(1)]).as_list(),
        Ok(vec![LispVal::Number(1)])
    );
    assert_eq!(
        LispVal::Text("x".into()).as_number(),
        Err(LispValUnwrapError { expected: LispType::Number, got: LispType::Text })
    );
    assert_eq!(
        LispVal::Number(1).as_symbol(),
        Err(LispValUnwrapError { expected: LispType::Symbol, got: LispType::Number })
    );
}

#[test]
fn test_is_void_and_is_macro() {
    assert!(LispVal::Void().is_void());
    assert!(!LispVal::Number(0).is_void());
    assert!(LispVal::Symbol("def!".into()).is_macro());
    assert!(!LispVal::Symbol("def".into()).is_macro());
    assert!(!LispVal::Number(1).is_macro());
}

#[test]
fn test_concat_method() {
    let one = LispVal::Number(1);
    let two = LispVal::Number(2);
    let l12 = LispVal::List(vec![LispVal::Number(1), LispVal::Number(2)]);
    let l3 = LispVal::List(vec![LispVal::Number(3)]);
    assert_eq!(
        l12.concat(&l3),
        LispVal::List(vec![LispVal::Number(1), LispVal::Number(2), LispVal::Number(3)])
    );
    assert_eq!(
        l3.concat(&one),
        LispVal::List(vec![LispVal::Number(3), LispVal::Number(1)])
    );
    assert_eq!(
        one.concat(&l3),
        LispVal::List(vec![LispVal::Number(1), LispVal::Number(3)])
    );
    assert_eq!(
        one.concat(&two),
        LispVal::List(vec![LispVal::Number(1), LispVal::Number(2)])
    );
}

#[test]
fn test_try_push_and_append() {
    let l1 = LispVal::List(vec![LispVal::Number(1)]);
    assert_eq!(
        l1.try_push(&LispVal::Number(2)),
        Ok(LispVal::List(vec![LispVal::Number(1), LispVal::Number(2)]))
    );
    assert_eq!(
        l1.try_append(&vec![LispVal::Number(2), LispVal::Number(3)]),
        Ok(LispVal::List(vec![
            LispVal::Number(1),
            LispVal::Number(2),
            LispVal::Number(3),
        ]))
    );
    assert_eq!(
        LispVal::Number(1).try_push(&LispVal::Number(2)),
        Err(LispValUnwrapError { expected: LispType::List, got: LispType::Number })
    );
}

#[test]
fn test_scope_operations() {
    let base = Scope::empty("main".to_string());
    assert!(base.is_empty());
    let with_a = base.bind("a".to_string(), LispVal::Number(1));
    assert!(base.is_empty());
    assert!(!with_a.is_empty());
    assert_eq!(with_a.get("a"), Some(&LispVal::Number(1)));
    assert_eq!(with_a.get("b"), None);
    let shadowed = with_a.bind("a".to_string(), LispVal::Number(2));
    assert_eq!(shadowed.get("a"), Some(&LispVal::Number(2)));
    assert_eq!(with_a.get("a"), Some(&LispVal::Number(1)));
    let relabeled = with_a.with_context("other".to_string());
    assert_eq!(relabeled.context, "other".to_string());
    assert_eq!(relabeled.get("a"), Some(&LispVal::Number(1)));
}

#[test]
fn test_scope_merge_prefers_receiver() {
    let left = Scope::empty("main".to_string())
        .bind("a".to_string(), LispVal::Number(1))
        .bind("c".to_string(), LispVal::Number(5));
    let right = Scope::empty("main".to_string())
        .bind("a".to_string(), LispVal::Number(9))
        .bind("b".to_string(), LispVal::Number(2));
    let merged = left.merge(&right);
    assert_eq!(merged.get("a"), Some(&LispVal::Number(1)));
    assert_eq!(merged.get("b"), Some(&LispVal::Number(2)));
    assert_eq!(merged.get("c"), Some(&LispVal::Number(5)));
}

#[test]
fn test_default_scope_seeds() {
    let scope = Scope::default();
    assert_eq!(scope.context, "main".to_string());
    assert_eq!(scope.get("MIN_INT"), Some(&LispVal::Number(i64::MIN)));
    assert_eq!(scope.get("MAX_INT"), Some(&LispVal::Number(i64::MAX)));
}

#[test]
fn test_registry_lookup() {
    assert_eq!(lookup_native("+"), Some(NativeFunction::new(2, NativeOp::Add)));
    assert_eq!(lookup_native("add"), Some(NativeFunction::new(2, NativeOp::Add)));
    assert_eq!(lookup_native("fold"), Some(NativeFunction::new(3, NativeOp::Fold)));
    assert_eq!(lookup_native("not"), Some(NativeFunction::new(1, NativeOp::Not)));
    assert_eq!(lookup_native("nothing_like_this"), None);
    assert_eq!(lookup_native("list"), None);
}

#[test]
fn test_to_function_shape() {
    let nf = lookup_native("+").unwrap();
    let f = nf.to_function("+".to_string(), vec![LispVal::Number(3)]);
    assert_eq!(
        f,
        LispVal::Function {
            parameters: vec!["a0".to_string(), "a1".to_string()],
            body: Box::new(LispVal::List(vec![
                LispVal::Symbol("+".into()),
                LispVal::Symbol("a0".into()),
                LispVal::Symbol("a1".into()),
            ])),
            applied: vec![LispVal::Number(3)],
        }
    );
}
