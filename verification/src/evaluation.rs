//! The executable evaluator, proved to return exactly what the
//! mathematical semantics in [`crate::semantics`] describe.

use vstd::prelude::*;

use crate::errors::{EvalError, SpecErr};
use crate::natives::{lookup_native, spec_lookup_native, NativeFunction, NativeOp};
use crate::scope::{Scope, SpecScope};
use crate::semantics::{
    spec_apply, spec_bind_params, spec_call_native, spec_dispatch, spec_eval, spec_eval_list,
    spec_eval_seq, spec_fold, spec_make_function, spec_map, spec_run_native, spec_symbol_names,
};
use crate::strutil::{i64_to_string, str_eq};
use crate::value::{
    clone_names, clone_values, deeps, lemma_deeps, lemma_deeps_concat, lemma_deeps_push, LispVal,
    SpecVal,
};

verus! {

/// The depth budget used by [`eval`]: evaluation nested more deeply
/// than this is reported as [`EvalError::RecursionDepthExceeded`]
/// instead of exhausting the interpreter's stack.
pub const DEFAULT_DEPTH: u64 = 500;

/// The model of an evaluation outcome.
pub open spec fn outcome_view(r: Result<(Scope, LispVal), EvalError>) -> Result<
    (SpecScope, SpecVal),
    SpecErr,
> {
    match r {
        Ok((s, v)) => Ok((s@, v@)),
        Err(e) => Err(e@),
    }
}

/// The model of an argument-list evaluation outcome.
pub open spec fn seq_outcome_view(r: Result<(Scope, Vec<LispVal>), EvalError>) -> Result<
    (SpecScope, Seq<SpecVal>),
    SpecErr,
> {
    match r {
        Ok((s, vs)) => Ok((s@, deeps(vs@))),
        Err(e) => Err(e@),
    }
}

/// The arity that each native primitive consumes.
pub open spec fn spec_op_arity(op: NativeOp) -> nat {
    match op {
        NativeOp::Eval => 1,
        NativeOp::Print => 1,
        NativeOp::Debug => 1,
        NativeOp::ToString => 1,
        NativeOp::Head => 1,
        NativeOp::Tail => 1,
        NativeOp::Len => 1,
        NativeOp::Not => 1,
        NativeOp::Fold => 3,
        NativeOp::DefineFunction => 3,
        NativeOp::If => 3,
        NativeOp::PrintScope => 0,
        NativeOp::ClearScope => 0,
        _ => 2,
    }
}

/// Every registry entry's required count equals its operation's arity.
pub proof fn lemma_registry_arity(name: Seq<char>)
    ensures
        spec_lookup_native(name) matches Some(nf) ==> nf.required_arguments_count
            == spec_op_arity(nf.op),
{
}

/// A copy of the elements after the head of a list form.
fn tail_values(elems: &Vec<LispVal>) -> (r: Vec<LispVal>)
    requires
        elems@.len() > 0,
    ensures
        deeps(r@) == deeps(elems@).drop_first(),
{
    let mut r: Vec<LispVal> = Vec::new();
    let n = elems.len();
    let mut i: usize = 1;
    while i < n
        invariant
            1 <= i <= n,
            n == elems@.len(),
            r@.len() == i - 1,
            forall|j: int| 0 <= j < i - 1 ==> r@[j].deep() == elems@[j + 1].deep(),
        decreases n - i,
    {
        r.push(elems[i].deep_clone());
        i = i + 1;
    }
    proof {
        lemma_deeps(r@);
        lemma_deeps(elems@);
        assert(deeps(r@) =~= deeps(elems@).drop_first());
    }
    r
}

/// Evaluates one expression under a scope with an explicit depth
/// budget.  The result is exactly [`spec_eval`] of the models.
pub fn eval_with_depth(scope: Scope, expr: &LispVal, fuel: u64) -> (r: Result<
    (Scope, LispVal),
    EvalError,
>)
    ensures
        outcome_view(r) == spec_eval(scope@, expr@, fuel as nat),
    decreases fuel as nat, 9int, 0int,
{
    if fuel == 0 {
        return Err(EvalError::RecursionDepthExceeded);
    }
    match expr {
        LispVal::Symbol(name) => {
            let found = match scope.get(name.as_str()) {
                Some(value) => Some(value.deep_clone()),
                None => None,
            };
            match found {
                Some(value) => Ok((scope, value)),
                None => Err(EvalError::UnknownIdentifier(name.clone())),
            }
        },
        LispVal::List(elems) => eval_list(scope, elems, fuel),
        LispVal::Unevaluated(value) => Ok((scope, (**value).deep_clone())),
        _ => Ok((scope, expr.deep_clone())),
    }
}

/// Evaluates a list form (see [`spec_eval_list`]).
fn eval_list(scope: Scope, elems: &Vec<LispVal>, fuel: u64) -> (r: Result<
    (Scope, LispVal),
    EvalError,
>)
    requires
        fuel > 0,
    ensures
        outcome_view(r) == spec_eval_list(scope@, deeps(elems@), fuel as nat),
    decreases fuel as nat, 8int, 0int,
{
    let ghost es = deeps(elems@);
    proof {
        lemma_deeps(elems@);
    }
    if elems.len() == 0 {
        proof {
            assert(es =~= Seq::<SpecVal>::empty());
            assert(deeps(Seq::<LispVal>::empty()) =~= Seq::<SpecVal>::empty());
        }
        return Ok((scope, LispVal::List(Vec::new())));
    }
    proof {
        assert(es.drop_first() =~= es.skip(1));
    }
    let head = &elems[0];
    match head {
        LispVal::Symbol(name) => {
            let scope1 = scope.with_context(name.clone());
            if head.is_macro() {
                let args = tail_values(elems);
                dispatch(scope1, elems, name.as_str(), args, fuel)
            } else {
                match eval_seq(scope1, elems, 1, fuel) {
                    Err(e) => Err(e),
                    Ok((scope2, args)) => dispatch(scope2, elems, name.as_str(), args, fuel),
                }
            }
        },
        LispVal::Function { parameters, body, applied } => {
            let scope1 = scope.with_context("anonymous".to_owned());
            match eval_seq(scope1, elems, 1, fuel) {
                Err(e) => Err(e),
                Ok((scope2, args)) => {
                    let params = clone_names(parameters);
                    let body_clone = (**body).deep_clone();
                    let mut full = clone_values(applied);
                    let ghost pre = full@;
                    let mut args = args;
                    let ghost argsv = args@;
                    full.append(&mut args);
                    proof {
                        lemma_deeps_concat(pre, argsv);
                    }
                    apply(scope2, params, body_clone, full, fuel)
                },
            }
        },
        _ => Err(EvalError::InvalidFunctionCall { values: clone_values(elems) }),
    }
}

/// Evaluates the elements of `elems` from `start` on, left to right,
/// threading the scope (see [`spec_eval_seq`]).
fn eval_seq(scope: Scope, elems: &Vec<LispVal>, start: usize, fuel: u64) -> (r: Result<
    (Scope, Vec<LispVal>),
    EvalError,
>)
    requires
        start <= elems@.len(),
    ensures
        seq_outcome_view(r) == spec_eval_seq(scope@, deeps(elems@).skip(start as int), fuel as nat),
    decreases fuel as nat, 7int, elems@.len() - start,
{
    let ghost es = deeps(elems@).skip(start as int);
    proof {
        lemma_deeps(elems@);
    }
    if start == elems.len() {
        proof {
            assert(es =~= Seq::<SpecVal>::empty());
            assert(deeps(Seq::<LispVal>::empty()) =~= Seq::<SpecVal>::empty());
        }
        return Ok((scope, Vec::new()));
    }
    if fuel == 0 {
        return Err(EvalError::RecursionDepthExceeded);
    }
    match eval_with_depth(scope, &elems[start], fuel - 1) {
        Err(e) => Err(e),
        Ok((scope1, v)) => {
            proof {
                assert(es.drop_first() =~= deeps(elems@).skip(start + 1));
            }
            match eval_seq(scope1, elems, start + 1, fuel) {
                Err(e) => Err(e),
                Ok((scope2, vs)) => {
                    let mut vs = vs;
                    let ghost post = vs@;
                    vs.insert(0, v);
                    proof {
                        lemma_deeps(vs@);
                        lemma_deeps(post);
                        assert(deeps(vs@) =~= seq![vs@[0].deep()] + deeps(post));
                    }
                    Ok((scope2, vs))
                },
            }
        },
    }
}

/// Dispatches a named head over its arguments (see [`spec_dispatch`]).
fn dispatch(scope: Scope, elems: &Vec<LispVal>, name: &str, args: Vec<LispVal>, fuel: u64) -> (r:
    Result<(Scope, LispVal), EvalError>)
    ensures
        outcome_view(r) == spec_dispatch(scope@, deeps(elems@), name@, deeps(args@), fuel as nat),
    decreases fuel as nat, 6int, 0int,
{
    if str_eq(name, "list") {
        return Ok((scope, LispVal::List(args)));
    }
    match lookup_native(name) {
        Some(nf) => {
            proof {
                lemma_registry_arity(name@);
            }
            nf.call(scope, elems, args, fuel)
        },
        None => {
            let found = match scope.get(name) {
                Some(value) => Some(value.deep_clone()),
                None => None,
            };
            match found {
                Some(LispVal::Function { parameters, body, applied }) => {
                    let mut full = applied;
                    let ghost pre = full@;
                    let mut args = args;
                    let ghost argsv = args@;
                    full.append(&mut args);
                    proof {
                        lemma_deeps_concat(pre, argsv);
                    }
                    apply(scope, parameters, *body, full, fuel)
                },
                Some(_) => Err(EvalError::InvalidFunctionCall { values: clone_values(elems) }),
                None => Err(EvalError::UnknownIdentifier(name.to_owned())),
            }
        },
    }
}

impl NativeFunction {
    /// The uniform call protocol of a native registry entry (see
    /// [`spec_call_native`]).
    pub(crate) fn call(&self, scope: Scope, elems: &Vec<LispVal>, args: Vec<LispVal>, fuel: u64)
        -> (r: Result<(Scope, LispVal), EvalError>)
        requires
            self.required_arguments_count == spec_op_arity(self.op),
        ensures
            outcome_view(r) == spec_call_native(
                scope@,
                deeps(elems@),
                *self,
                deeps(args@),
                fuel as nat,
            ),
        decreases fuel as nat, 5int, 0int,
    {
        proof {
            lemma_deeps(args@);
        }
        if args.len() < self.required_arguments_count {
            let f = self.to_function(scope.context.clone(), args);
            Ok((scope, f))
        } else if args.len() > self.required_arguments_count {
            Err(EvalError::InvalidArgumentsCount {
                name: scope.context.clone(),
                expected: self.required_arguments_count,
                got: args.len(),
            })
        } else {
            run_native(scope, elems, self.op, args, fuel)
        }
    }
}

/// Whether an operation is a non-recursing one-argument primitive.
spec fn is_simple_unary(op: NativeOp) -> bool {
    match op {
        NativeOp::Print | NativeOp::Debug | NativeOp::ToString | NativeOp::Head | NativeOp::Tail
            | NativeOp::Len | NativeOp::Not => true,
        _ => false,
    }
}

/// Whether an operation is a non-recursing two-argument primitive.
spec fn is_simple_binary(op: NativeOp) -> bool {
    match op {
        NativeOp::Concat | NativeOp::Push | NativeOp::Let | NativeOp::Lt | NativeOp::Gt
            | NativeOp::Le | NativeOp::Ge | NativeOp::EqNum | NativeOp::And | NativeOp::Or => true,
        _ => is_math_op(op),
    }
}

/// Runs one native primitive on exactly its required argument count
/// (see [`spec_run_native`]).
fn run_native(scope: Scope, elems: &Vec<LispVal>, op: NativeOp, args: Vec<LispVal>, fuel: u64)
    -> (r: Result<(Scope, LispVal), EvalError>)
    requires
        args@.len() == spec_op_arity(op),
    ensures
        outcome_view(r) == spec_run_native(scope@, deeps(elems@), op, deeps(args@), fuel as nat),
    decreases fuel as nat, 4int, 0int,
{
    proof {
        lemma_deeps(args@);
    }
    match op {
        NativeOp::Eval => {
            if fuel == 0 {
                Err(EvalError::RecursionDepthExceeded)
            } else {
                eval_with_depth(scope, &args[0], fuel - 1)
            }
        },
        NativeOp::Print | NativeOp::Debug | NativeOp::ToString | NativeOp::Head | NativeOp::Tail
            | NativeOp::Len | NativeOp::Not => run_unary(scope, op, args, Ghost(deeps(elems@)), Ghost(fuel as nat)),
        NativeOp::Concat | NativeOp::Push | NativeOp::Let | NativeOp::Lt | NativeOp::Gt
            | NativeOp::Le | NativeOp::Ge | NativeOp::EqNum | NativeOp::And | NativeOp::Or
            | NativeOp::Add | NativeOp::Sub | NativeOp::Mul | NativeOp::Div | NativeOp::Rem
            | NativeOp::Max | NativeOp::Min => run_binary(scope, op, args, Ghost(deeps(elems@)), Ghost(fuel as nat)),
        NativeOp::Fold => match args[0].as_list() {
            Err(e) => Err(EvalError::from_arg(0, scope.context.as_str(), e)),
            Ok(op_elems) => match args[2].as_list() {
                Err(e) => Err(EvalError::from_arg(1, scope.context.as_str(), e)),
                Ok(items) => {
                    let init = args[1].deep_clone();
                    proof {
                        assert(deeps(items@).skip(0) =~= deeps(items@));
                    }
                    exec_fold(scope, op_elems, init, items, 0, fuel)
                },
            },
        },
        NativeOp::MapEach => match args[0].as_list() {
            Err(e) => Err(EvalError::from_arg(0, scope.context.as_str(), e)),
            Ok(op_elems) => match args[1].as_list() {
                Err(e) => Err(EvalError::from_arg(1, scope.context.as_str(), e)),
                Ok(items) => {
                    proof {
                        assert(deeps(items@).skip(0) =~= deeps(items@));
                    }
                    match exec_map(scope, op_elems, items, 0, fuel) {
                        Err(e) => Err(e),
                        Ok((scope2, vs)) => Ok((scope2, LispVal::List(vs))),
                    }
                },
            },
        },
        NativeOp::Define => {
            let bound = match args[0].as_symbol() {
                Err(e) => {
                    return Err(EvalError::from_arg(0, scope.context.as_str(), e));
                },
                Ok(s) => s.to_owned(),
            };
            if fuel == 0 {
                Err(EvalError::RecursionDepthExceeded)
            } else {
                match eval_with_depth(scope, &args[1], fuel - 1) {
                    Err(e) => Err(e),
                    Ok((scope2, value)) => Ok((scope2.bind(bound, value), LispVal::Void())),
                }
            }
        },
        NativeOp::DefineFunction => {
            let bound = match args[0].as_symbol() {
                Err(e) => {
                    return Err(EvalError::from_arg(0, scope.context.as_str(), e));
                },
                Ok(s) => s.to_owned(),
            };
            match make_function(&args[1], &args[2], scope.context.as_str()) {
                Err(e) => Err(e),
                Ok(f) => Ok((scope.bind(bound, f), LispVal::Void())),
            }
        },
        NativeOp::MakeFunction => match make_function(&args[0], &args[1], scope.context.as_str()) {
            Err(e) => Err(e),
            Ok(f) => Ok((scope, f)),
        },
        NativeOp::If => {
            if fuel == 0 {
                return Err(EvalError::RecursionDepthExceeded);
            }
            let ctx = scope.context.clone();
            match eval_with_depth(scope, &args[0], fuel - 1) {
                Err(e) => Err(e),
                Ok((scope2, cond)) => match cond.as_boolean() {
                    Err(e) => Err(EvalError::from_arg(0, ctx.as_str(), e)),
                    Ok(b) => {
                        if b {
                            eval_with_depth(scope2, &args[1], fuel - 1)
                        } else {
                            eval_with_depth(scope2, &args[2], fuel - 1)
                        }
                    },
                },
            }
        },
        NativeOp::PrintScope => Ok((scope, LispVal::Void())),
        _ => Ok((Scope::default(), LispVal::Void())),
    }
}

/// Runs one non-recursing one-argument primitive.
fn run_unary(
    scope: Scope,
    op: NativeOp,
    args: Vec<LispVal>,
    Ghost(es): Ghost<Seq<SpecVal>>,
    Ghost(fuel): Ghost<nat>,
) -> (r: Result<(Scope, LispVal), EvalError>)
    requires
        is_simple_unary(op),
        args@.len() == 1,
    ensures
        outcome_view(r) == spec_run_native(scope@, es, op, deeps(args@), fuel),
{
    proof {
        lemma_deeps(args@);
    }
    match op {
        NativeOp::Print => match args[0].as_text() {
            Err(e) => Err(EvalError::from_arg(0, scope.context.as_str(), e)),
            Ok(_) => Ok((scope, LispVal::Void())),
        },
        NativeOp::Debug => {
            let v = args[0].deep_clone();
            Ok((scope, v))
        },
        NativeOp::ToString => match args[0].as_number() {
            Err(e) => Err(EvalError::from_arg(0, scope.context.as_str(), e)),
            Ok(n) => Ok((scope, LispVal::Text(i64_to_string(n)))),
        },
        NativeOp::Head => match args[0].as_list() {
            Err(e) => Err(EvalError::from_arg(0, scope.context.as_str(), e)),
            Ok(vs) => {
                if vs.len() == 0 {
                    Err(EvalError::ListOverflow { access: 0, count: 0 })
                } else {
                    let ghost pre = vs@;
                    let mut vs = vs;
                    let first = vs.remove(0);
                    proof {
                        lemma_deeps(pre);
                    }
                    Ok((scope, first))
                }
            },
        },
        NativeOp::Tail => match args[0].as_list() {
            Err(e) => Err(EvalError::from_arg(0, scope.context.as_str(), e)),
            Ok(vs) => {
                if vs.len() == 0 {
                    Err(EvalError::ListOverflow { access: 1, count: 0 })
                } else {
                    let mut vs = vs;
                    let ghost pre = vs@;
                    let _ = vs.remove(0);
                    proof {
                        lemma_deeps(pre);
                        lemma_deeps(vs@);
                        assert(vs@ =~= pre.drop_first());
                        assert(deeps(vs@) =~= deeps(pre).drop_first());
                    }
                    Ok((scope, LispVal::List(vs)))
                }
            },
        },
        NativeOp::Len => match args[0].as_list() {
            Err(e) => Err(EvalError::from_arg(0, scope.context.as_str(), e)),
            Ok(vs) => {
                proof {
                    lemma_deeps(vs@);
                }
                if (vs.len() as u64) <= (i64::MAX as u64) {
                    Ok((scope, LispVal::Number(vs.len() as i64)))
                } else {
                    Err(EvalError::ArithmeticOverflow { name: scope.context.clone() })
                }
            },
        },
        _ => match args[0].as_boolean() {
            Err(e) => Err(EvalError::from_arg(0, scope.context.as_str(), e)),
            Ok(a) => Ok((scope, LispVal::Boolean(!a))),
        },
    }
}

/// Runs one non-recursing two-argument primitive.
fn run_binary(
    scope: Scope,
    op: NativeOp,
    args: Vec<LispVal>,
    Ghost(es): Ghost<Seq<SpecVal>>,
    Ghost(fuel): Ghost<nat>,
) -> (r: Result<(Scope, LispVal), EvalError>)
    requires
        is_simple_binary(op),
        args@.len() == 2,
    ensures
        outcome_view(r) == spec_run_native(scope@, es, op, deeps(args@), fuel),
{
    proof {
        lemma_deeps(args@);
    }
    match op {
        NativeOp::Concat => {
            let v = args[0].concat(&args[1]);
            Ok((scope, v))
        },
        NativeOp::Push => match args[0].as_list() {
            Err(e) => Err(EvalError::from_arg(0, scope.context.as_str(), e)),
            Ok(vs) => {
                let mut vs = vs;
                let ghost pre = vs@;
                vs.push(args[1].deep_clone());
                proof {
                    lemma_deeps_push(pre, vs@.last());
                }
                Ok((scope, LispVal::List(vs)))
            },
        },
        NativeOp::Let => {
            let bound = match args[0].as_symbol() {
                Err(e) => {
                    return Err(EvalError::from_arg(0, scope.context.as_str(), e));
                },
                Ok(s) => s.to_owned(),
            };
            let value = args[1].deep_clone();
            Ok((scope.bind(bound, value), LispVal::Void()))
        },
        NativeOp::Lt | NativeOp::Gt | NativeOp::Le | NativeOp::Ge | NativeOp::EqNum => {
            let a = match args[0].as_number() {
                Err(e) => {
                    return Err(EvalError::from_arg(0, scope.context.as_str(), e));
                },
                Ok(n) => n,
            };
            let b = match args[1].as_number() {
                Err(e) => {
                    return Err(EvalError::from_arg(1, scope.context.as_str(), e));
                },
                Ok(n) => n,
            };
            let c = match op {
                NativeOp::Lt => a < b,
                NativeOp::Gt => a > b,
                NativeOp::Le => a <= b,
                NativeOp::Ge => a >= b,
                _ => a == b,
            };
            Ok((scope, LispVal::Boolean(c)))
        },
        NativeOp::And | NativeOp::Or => {
            let a = match args[0].as_boolean() {
                Err(e) => {
                    return Err(EvalError::from_arg(0, scope.context.as_str(), e));
                },
                Ok(v) => v,
            };
            let b = match args[1].as_boolean() {
                Err(e) => {
                    return Err(EvalError::from_arg(1, scope.context.as_str(), e));
                },
                Ok(v) => v,
            };
            let c = match op {
                NativeOp::And => a && b,
                _ => a || b,
            };
            Ok((scope, LispVal::Boolean(c)))
        },
        _ => {
            let a = match args[0].as_number() {
                Err(e) => {
                    return Err(EvalError::from_arg(0, scope.context.as_str(), e));
                },
                Ok(n) => n,
            };
            let b = match args[1].as_number() {
                Err(e) => {
                    return Err(EvalError::from_arg(1, scope.context.as_str(), e));
                },
                Ok(n) => n,
            };
            match run_math(op, &scope.context, a, b) {
                Err(e) => Err(e),
                Ok(n) => Ok((scope, LispVal::Number(n))),
            }
        },
    }
}

/// Whether an operation is one of the two-integer arithmetic
/// primitives.
spec fn is_math_op(op: NativeOp) -> bool {
    match op {
        NativeOp::Add | NativeOp::Sub | NativeOp::Mul | NativeOp::Div | NativeOp::Rem
            | NativeOp::Max | NativeOp::Min => true,
        _ => false,
    }
}

/// The two-integer arithmetic primitives (see
/// [`crate::semantics::spec_math`]).
fn run_math(op: NativeOp, name: &String, a: i64, b: i64) -> (r: Result<i64, EvalError>)
    requires
        is_math_op(op),
    ensures
        match (r, crate::semantics::spec_math(op, name@, a, b)) {
            (Ok(n1), Ok(n2)) => n1 == n2,
            (Err(e1), Err(e2)) => e1@ == e2,
            _ => false,
        },
{
    match op {
        NativeOp::Add => match a.checked_add(b) {
            Some(n) => Ok(n),
            None => Err(EvalError::ArithmeticOverflow { name: name.clone() }),
        },
        NativeOp::Sub => match a.checked_sub(b) {
            Some(n) => Ok(n),
            None => Err(EvalError::ArithmeticOverflow { name: name.clone() }),
        },
        NativeOp::Mul => match a.checked_mul(b) {
            Some(n) => Ok(n),
            None => Err(EvalError::ArithmeticOverflow { name: name.clone() }),
        },
        NativeOp::Div => {
            if b == 0 {
                Err(EvalError::DivisionByZero { name: name.clone() })
            } else {
                match a.checked_div(b) {
                    Some(n) => Ok(n),
                    None => Err(EvalError::ArithmeticOverflow { name: name.clone() }),
                }
            }
        },
        NativeOp::Rem => {
            if b == 0 {
                Err(EvalError::DivisionByZero { name: name.clone() })
            } else {
                match a.checked_rem(b) {
                    Some(n) => Ok(n),
                    None => Err(EvalError::ArithmeticOverflow { name: name.clone() }),
                }
            }
        },
        NativeOp::Max => Ok(if a >= b { a } else { b }),
        _ => Ok(if a <= b { a } else { b }),
    }
}

/// Builds a function value from a literal parameter list and a body
/// (see [`spec_make_function`]).
fn make_function(params: &LispVal, body: &LispVal, name: &str) -> (r: Result<LispVal, EvalError>)
    ensures
        match (r, spec_make_function(params@, body@, name@)) {
            (Ok(f), Ok(fs)) => f@ == fs,
            (Err(e1), Err(e2)) => e1@ == e2,
            _ => false,
        },
{
    let vs = match params.as_list() {
        Err(e) => {
            return Err(EvalError::from_arg(0, name, e));
        },
        Ok(vs) => vs,
    };
    proof {
        lemma_deeps(vs@);
    }
    let mut names: Vec<String> = Vec::new();
    let n = vs.len();
    let mut i: usize = 0;
    while i < n
        invariant
            i <= n,
            n == vs@.len(),
            names@.len() == i,
            params@ == SpecVal::List(deeps(vs@)),
            deeps(vs@).len() == vs@.len(),
            forall|j: int| 0 <= j < vs@.len() ==> deeps(vs@)[j] == vs@[j].deep(),
            forall|j: int| 0 <= j < i ==> deeps(vs@)[j] is Symbol,
            forall|j: int| 0 <= j < i ==> names.deep_view()[j] == deeps(vs@)[j]->Symbol_0,
        decreases n - i,
    {
        match vs[i].as_symbol() {
            Err(e) => {
                proof {
                    lemma_symbol_names_err(deeps(vs@), name@, i as int);
                }
                return Err(EvalError::from_arg(1, name, e));
            },
            Ok(s) => {
                let ghost pre = names.deep_view();
                names.push(s.to_owned());
                proof {
                    assert(names.deep_view() =~= pre.push(names@.last()@));
                    assert(vs@[i as int].deep() == deeps(vs@)[i as int]);
                    assert(deeps(vs@)[i as int] is Symbol);
                    assert(names.deep_view()[i as int] == deeps(vs@)[i as int]->Symbol_0);
                }
            },
        }
        i = i + 1;
    }
    proof {
        lemma_symbol_names_ok(deeps(vs@), name@);
        assert(names.deep_view() =~= spec_symbol_names(deeps(vs@), name@)->Ok_0);
        assert(deeps(Seq::<LispVal>::empty()) =~= Seq::<SpecVal>::empty());
    }
    Ok(LispVal::Function {
        parameters: names,
        body: Box::new(body.deep_clone()),
        applied: Vec::new(),
    })
}

/// If every entry is a symbol, the name extraction succeeds and lists
/// each entry's name in order.
proof fn lemma_symbol_names_ok(vs: Seq<SpecVal>, name: Seq<char>)
    requires
        forall|j: int| 0 <= j < vs.len() ==> vs[j] is Symbol,
    ensures
        spec_symbol_names(vs, name) matches Ok(full) && full.len() == vs.len() && forall|j: int|
            0 <= j < vs.len() ==> full[j] == vs[j]->Symbol_0,
    decreases vs.len(),
{
    if vs.len() > 0 {
        assert(forall|j: int| 0 <= j < vs.drop_first().len() ==> vs.drop_first()[j]
            == vs[j + 1]);
        lemma_symbol_names_ok(vs.drop_first(), name);
    }
}

/// If entry `k` is not a symbol but all entries before it are, the
/// name extraction fails with exactly that entry's error.
proof fn lemma_symbol_names_err(vs: Seq<SpecVal>, name: Seq<char>, k: int)
    requires
        0 <= k < vs.len(),
        forall|j: int| 0 <= j < k ==> vs[j] is Symbol,
        !(vs[k] is Symbol),
    ensures
        spec_symbol_names(vs, name) == Result::<Seq<Seq<char>>, SpecErr>::Err(
            SpecErr::InvalidArgumentType {
                name,
                expected: crate::value::LispType::Symbol,
                got: vs[k].ty(),
                position: 1,
            },
        ),
    decreases k,
{
    if k > 0 {
        lemma_symbol_names_err(vs.drop_first(), name, k - 1);
    }
}

/// Left fold over the items from `idx` on (see [`spec_fold`]).
fn exec_fold(
    scope: Scope,
    op_elems: Vec<LispVal>,
    acc: LispVal,
    items: Vec<LispVal>,
    idx: usize,
    fuel: u64,
) -> (r: Result<(Scope, LispVal), EvalError>)
    requires
        idx <= items@.len(),
    ensures
        outcome_view(r) == spec_fold(
            scope@,
            deeps(op_elems@),
            acc@,
            deeps(items@).skip(idx as int),
            fuel as nat,
        ),
    decreases fuel as nat, 3int, items@.len() - idx,
{
    proof {
        lemma_deeps(items@);
    }
    if idx == items.len() {
        proof {
            assert(deeps(items@).skip(idx as int) =~= Seq::<SpecVal>::empty());
        }
        return Ok((scope, acc));
    }
    if fuel == 0 {
        return Err(EvalError::RecursionDepthExceeded);
    }
    let mut elems = clone_values(&op_elems);
    let ghost pre = elems@;
    elems.push(acc);
    proof {
        lemma_deeps_push(pre, elems@.last());
    }
    let ghost mid = elems@;
    elems.push(items[idx].deep_clone());
    proof {
        lemma_deeps_push(mid, elems@.last());
        assert(deeps(elems@) =~= deeps(op_elems@) + seq![
            deeps(elems@)[deeps(elems@).len() - 2],
            deeps(elems@)[deeps(elems@).len() - 1],
        ]);
        assert(deeps(items@).skip(idx as int)[0] == deeps(items@)[idx as int]);
    }
    let expr = LispVal::List(elems);
    match eval_with_depth(scope, &expr, fuel - 1) {
        Err(e) => Err(e),
        Ok((scope2, v)) => {
            proof {
                assert(deeps(items@).skip(idx as int).drop_first() =~= deeps(items@).skip(
                    idx + 1,
                ));
            }
            exec_fold(scope2, op_elems, v, items, idx + 1, fuel)
        },
    }
}

/// Elementwise application over the items from `idx` on (see
/// [`spec_map`]).
fn exec_map(scope: Scope, op_elems: Vec<LispVal>, items: Vec<LispVal>, idx: usize, fuel: u64)
    -> (r: Result<(Scope, Vec<LispVal>), EvalError>)
    requires
        idx <= items@.len(),
    ensures
        seq_outcome_view(r) == spec_map(
            scope@,
            deeps(op_elems@),
            deeps(items@).skip(idx as int),
            fuel as nat,
        ),
    decreases fuel as nat, 3int, items@.len() - idx,
{
    proof {
        lemma_deeps(items@);
    }
    if idx == items.len() {
        proof {
            assert(deeps(items@).skip(idx as int) =~= Seq::<SpecVal>::empty());
            assert(deeps(Seq::<LispVal>::empty()) =~= Seq::<SpecVal>::empty());
        }
        return Ok((scope, Vec::new()));
    }
    if fuel == 0 {
        return Err(EvalError::RecursionDepthExceeded);
    }
    let mut elems = clone_values(&op_elems);
    let ghost pre = elems@;
    elems.push(items[idx].deep_clone());
    proof {
        lemma_deeps_push(pre, elems@.last());
        assert(deeps(items@).skip(idx as int)[0] == deeps(items@)[idx as int]);
    }
    let expr = LispVal::List(elems);
    match eval_with_depth(scope, &expr, fuel - 1) {
        Err(e) => Err(e),
        Ok((scope2, v)) => {
            proof {
                assert(deeps(items@).skip(idx as int).drop_first() =~= deeps(items@).skip(
                    idx + 1,
                ));
            }
            match exec_map(scope2, op_elems, items, idx + 1, fuel) {
                Err(e) => Err(e),
                Ok((scope3, vs)) => {
                    let mut vs = vs;
                    let ghost post = vs@;
                    vs.insert(0, v);
                    proof {
                        lemma_deeps(vs@);
                        lemma_deeps(post);
                        assert(deeps(vs@) =~= seq![vs@[0].deep()] + deeps(post));
                    }
                    Ok((scope3, vs))
                },
            }
        },
    }
}

/// Binds each parameter, in order, to its argument inside the
/// call-time scope (see [`spec_bind_params`]).
fn bind_params(env: &Scope, parameters: &Vec<String>, args: &Vec<LispVal>) -> (r: Scope)
    ensures
        r@ == spec_bind_params(env@, parameters.deep_view(), deeps(args@)),
{
    proof {
        lemma_deeps(args@);
        assert(parameters.deep_view().skip(0) =~= parameters.deep_view());
        assert(deeps(args@).skip(0) =~= deeps(args@));
    }
    let mut current = env.deep_clone();
    let mut i: usize = 0;
    let n = if parameters.len() < args.len() {
        parameters.len()
    } else {
        args.len()
    };
    while i < n
        invariant
            i <= n,
            n == if parameters.deep_view().len() < args@.len() {
                parameters.deep_view().len()
            } else {
                args@.len()
            },
            deeps(args@).len() == args@.len(),
            forall|j: int| 0 <= j < args@.len() ==> deeps(args@)[j] == args@[j].deep(),
            spec_bind_params(env@, parameters.deep_view(), deeps(args@)) == spec_bind_params(
                current@,
                parameters.deep_view().skip(i as int),
                deeps(args@).skip(i as int),
            ),
        decreases n - i,
    {
        let ghost ps = parameters.deep_view().skip(i as int);
        let ghost vs = deeps(args@).skip(i as int);
        proof {
            assert(ps[0] == parameters.deep_view()[i as int]);
            assert(vs[0] == deeps(args@)[i as int]);
            assert(ps.drop_first() =~= parameters.deep_view().skip(i + 1));
            assert(vs.drop_first() =~= deeps(args@).skip(i + 1));
        }
        current = current.bind(parameters[i].clone(), args[i].deep_clone());
        i = i + 1;
    }
    proof {
        assert(parameters.deep_view().skip(n as int).len() == 0 || deeps(args@).skip(
            n as int,
        ).len() == 0);
    }
    current
}

/// The callable application protocol, shared by user closures and by
/// curried natives (see [`spec_apply`]).
pub fn apply(env: Scope, parameters: Vec<String>, body: LispVal, args: Vec<LispVal>, fuel: u64)
    -> (r: Result<(Scope, LispVal), EvalError>)
    ensures
        outcome_view(r) == spec_apply(
            env@,
            parameters.deep_view(),
            body@,
            deeps(args@),
            fuel as nat,
        ),
    decreases fuel as nat, 2int, 0int,
{
    proof {
        lemma_deeps(args@);
    }
    if args.len() < parameters.len() {
        return Ok((env, LispVal::Function { parameters, body: Box::new(body), applied: args }));
    }
    if args.len() > parameters.len() {
        return Err(EvalError::InvalidArgumentsCount {
            name: env.context.clone(),
            expected: parameters.len(),
            got: args.len(),
        });
    }
    if fuel == 0 {
        return Err(EvalError::RecursionDepthExceeded);
    }
    let inner = bind_params(&env, &parameters, &args);
    match eval_with_depth(inner, &body, fuel - 1) {
        Err(e) => Err(e),
        Ok((_, result)) => Ok((env, result)),
    }
}

/// Evaluates one expression under a scope with the default depth
/// budget: the library's main entry point.
pub fn eval(scope: Scope, expr: &LispVal) -> (r: Result<(Scope, LispVal), EvalError>)
    ensures
        outcome_view(r) == spec_eval(scope@, expr@, DEFAULT_DEPTH as nat),
{
    eval_with_depth(scope, expr, DEFAULT_DEPTH)
}

} // verus!
