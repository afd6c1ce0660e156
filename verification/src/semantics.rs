//! The mathematical semantics of evaluation.
//!
//! Every function here is a specification: the executable evaluator in
//! [`crate::evaluation`] is proved to return exactly what these
//! functions describe.  Evaluation takes a depth budget (`fuel`); one
//! unit is consumed by each nesting level, so unbounded recursion in
//! the interpreted program surfaces as a typed error rather than as
//! stack exhaustion.

use vstd::prelude::*;

use crate::errors::SpecErr;
use crate::natives::{spec_lookup_native, spec_to_function, NativeFunction, NativeOp};
use crate::scope::{spec_initial_scope, SpecScope};
use crate::strutil::spec_i64_str;
use crate::value::{spec_concat, LispType, SpecVal};

verus! {

/// Coerces a modeled value to a number, or the argument-slot error.
pub open spec fn arg_num(v: SpecVal, name: Seq<char>, position: nat) -> Result<i64, SpecErr> {
    match v {
        SpecVal::Number(n) => Ok(n),
        _ => Err(SpecErr::InvalidArgumentType {
            name,
            expected: LispType::Number,
            got: v.ty(),
            position,
        }),
    }
}

/// Coerces a modeled value to a boolean, or the argument-slot error.
pub open spec fn arg_bool(v: SpecVal, name: Seq<char>, position: nat) -> Result<bool, SpecErr> {
    match v {
        SpecVal::Boolean(b) => Ok(b),
        _ => Err(SpecErr::InvalidArgumentType {
            name,
            expected: LispType::Boolean,
            got: v.ty(),
            position,
        }),
    }
}

/// Coerces a modeled value to text, or the argument-slot error.
pub open spec fn arg_text(v: SpecVal, name: Seq<char>, position: nat) -> Result<
    Seq<char>,
    SpecErr,
> {
    match v {
        SpecVal::Text(s) => Ok(s),
        _ => Err(SpecErr::InvalidArgumentType {
            name,
            expected: LispType::Text,
            got: v.ty(),
            position,
        }),
    }
}

/// Coerces a modeled value to a sequence, or the argument-slot error.
pub open spec fn arg_list(v: SpecVal, name: Seq<char>, position: nat) -> Result<
    Seq<SpecVal>,
    SpecErr,
> {
    match v {
        SpecVal::List(vs) => Ok(vs),
        _ => Err(SpecErr::InvalidArgumentType {
            name,
            expected: LispType::List,
            got: v.ty(),
            position,
        }),
    }
}

/// Coerces a modeled value to a symbol name, or the argument-slot error.
pub open spec fn arg_symbol(v: SpecVal, name: Seq<char>, position: nat) -> Result<
    Seq<char>,
    SpecErr,
> {
    match v {
        SpecVal::Symbol(s) => Ok(s),
        _ => Err(SpecErr::InvalidArgumentType {
            name,
            expected: LispType::Symbol,
            got: v.ty(),
            position,
        }),
    }
}

/// The two-integer arithmetic primitives.  Division and modulo follow
/// the host's truncating semantics; division or modulo by zero and any
/// result outside the 64-bit signed range are typed faults.
pub open spec fn spec_math(op: NativeOp, name: Seq<char>, a: i64, b: i64) -> Result<i64, SpecErr> {
    match op {
        NativeOp::Add => if i64::MIN <= a + b <= i64::MAX {
            Ok((a + b) as i64)
        } else {
            Err(SpecErr::ArithmeticOverflow { name })
        },
        NativeOp::Sub => if i64::MIN <= a - b <= i64::MAX {
            Ok((a - b) as i64)
        } else {
            Err(SpecErr::ArithmeticOverflow { name })
        },
        NativeOp::Mul => if i64::MIN <= a * b <= i64::MAX {
            Ok((a * b) as i64)
        } else {
            Err(SpecErr::ArithmeticOverflow { name })
        },
        NativeOp::Div => if b == 0 {
            Err(SpecErr::DivisionByZero { name })
        } else {
            match a.checked_div(b) {
                Some(q) => Ok(q),
                None => Err(SpecErr::ArithmeticOverflow { name }),
            }
        },
        NativeOp::Rem => if b == 0 {
            Err(SpecErr::DivisionByZero { name })
        } else {
            match a.checked_rem(b) {
                Some(q) => Ok(q),
                None => Err(SpecErr::ArithmeticOverflow { name }),
            }
        },
        NativeOp::Max => Ok(if a >= b { a } else { b }),
        _ => Ok(if a <= b { a } else { b }),
    }
}

/// The two-integer comparison primitives.
pub open spec fn spec_cmp(op: NativeOp, a: i64, b: i64) -> bool {
    match op {
        NativeOp::Lt => a < b,
        NativeOp::Gt => a > b,
        NativeOp::Le => a <= b,
        NativeOp::Ge => a >= b,
        _ => a == b,
    }
}

/// The strict two-boolean logic primitives; no truthy coercion of
/// other kinds happens anywhere.
pub open spec fn spec_logic(op: NativeOp, a: bool, b: bool) -> bool {
    match op {
        NativeOp::And => a && b,
        _ => a || b,
    }
}

/// Extracts the names from a literal parameter list, left to right;
/// the first element that is not a symbol is the typed error.
pub open spec fn spec_symbol_names(vs: Seq<SpecVal>, name: Seq<char>) -> Result<
    Seq<Seq<char>>,
    SpecErr,
>
    decreases vs.len(),
{
    if vs.len() == 0 {
        Ok(Seq::empty())
    } else {
        match arg_symbol(vs[0], name, 1) {
            Err(e) => Err(e),
            Ok(s) => match spec_symbol_names(vs.drop_first(), name) {
                Err(e) => Err(e),
                Ok(rest) => Ok(seq![s] + rest),
            },
        }
    }
}

/// Builds a function value from a literal parameter list and a body;
/// the parameter list must be a literal sequence of symbols.
pub open spec fn spec_make_function(params: SpecVal, body: SpecVal, name: Seq<char>) -> Result<
    SpecVal,
    SpecErr,
>  {
    match arg_list(params, name, 0) {
        Err(e) => Err(e),
        Ok(vs) => match spec_symbol_names(vs, name) {
            Err(e) => Err(e),
            Ok(names) => Ok(SpecVal::Function {
                parameters: names,
                body: Box::new(body),
                applied: Seq::empty(),
            }),
        },
    }
}

/// Evaluates one expression under a scope with a given depth budget.
///
/// A symbol evaluates to its binding (or the unknown-identifier
/// error); a quoted value sheds exactly one layer of deferral with no
/// evaluation of its contents; a list dispatches below; every other
/// kind evaluates to itself with the scope unchanged.
pub open spec fn spec_eval(env: SpecScope, v: SpecVal, fuel: nat) -> Result<
    (SpecScope, SpecVal),
    SpecErr,
>
    decreases fuel, 9int, 0int,
{
    if fuel == 0 {
        Err(SpecErr::RecursionDepthExceeded)
    } else {
        match v {
            SpecVal::Symbol(name) => match env.lookup(name) {
                Some(value) => Ok((env, value)),
                None => Err(SpecErr::UnknownIdentifier(name)),
            },
            SpecVal::Unevaluated(b) => Ok((env, *b)),
            SpecVal::List(elems) => spec_eval_list(env, elems, fuel),
            _ => Ok((env, v)),
        }
    }
}

/// Evaluates a list form.
///
/// An empty list is an empty sequence.  A symbol head stamps the
/// scope's context with its name; a macro-named head (trailing `!`)
/// receives its arguments raw, any other symbol head has them
/// evaluated left to right with the scope threaded through.  A
/// function head is applied under the `anonymous` context.  Any other
/// head kind is an invalid call.
pub open spec fn spec_eval_list(env: SpecScope, elems: Seq<SpecVal>, fuel: nat) -> Result<
    (SpecScope, SpecVal),
    SpecErr,
>
    decreases fuel, 8int, 0int,
{
    if elems.len() == 0 {
        Ok((env, SpecVal::List(Seq::empty())))
    } else {
        let head = elems[0];
        let tail = elems.drop_first();
        match head {
            SpecVal::Symbol(name) => {
                let env1 = SpecScope { context: name, bindings: env.bindings };
                if head.is_macro_name() {
                    spec_dispatch(env1, elems, name, tail, fuel)
                } else {
                    match spec_eval_seq(env1, tail, fuel) {
                        Err(e) => Err(e),
                        Ok((env2, args)) => spec_dispatch(env2, elems, name, args, fuel),
                    }
                }
            },
            SpecVal::Function { parameters, body, applied } => {
                let env1 = SpecScope { context: "anonymous"@, bindings: env.bindings };
                match spec_eval_seq(env1, tail, fuel) {
                    Err(e) => Err(e),
                    Ok((env2, args)) => spec_apply(env2, parameters, *body, applied + args, fuel),
                }
            },
            _ => Err(SpecErr::InvalidFunctionCall { values: elems }),
        }
    }
}

/// Evaluates the elements of a sequence left to right, threading the
/// scope: the scope produced by one element is the input scope of the
/// next, so a binding made while evaluating one argument is visible to
/// the arguments after it.
pub open spec fn spec_eval_seq(env: SpecScope, elems: Seq<SpecVal>, fuel: nat) -> Result<
    (SpecScope, Seq<SpecVal>),
    SpecErr,
>
    decreases fuel, 7int, elems.len(),
{
    if elems.len() == 0 {
        Ok((env, Seq::empty()))
    } else if fuel == 0 {
        Err(SpecErr::RecursionDepthExceeded)
    } else {
        match spec_eval(env, elems[0], (fuel - 1) as nat) {
            Err(e) => Err(e),
            Ok((env1, v)) => match spec_eval_seq(env1, elems.drop_first(), fuel) {
                Err(e) => Err(e),
                Ok((env2, vs)) => Ok((env2, seq![v] + vs)),
            },
        }
    }
}

/// Dispatches a named head over its arguments: the `list` form
/// short-circuits to a sequence; then the native registry; then the
/// scope.  A bound non-function value in call position is an invalid
/// call; an unbound name is an unknown identifier.
pub open spec fn spec_dispatch(
    env: SpecScope,
    elems: Seq<SpecVal>,
    name: Seq<char>,
    args: Seq<SpecVal>,
    fuel: nat,
) -> Result<(SpecScope, SpecVal), SpecErr>
    decreases fuel, 6int, 0int,
{
    if name == "list"@ {
        Ok((env, SpecVal::List(args)))
    } else {
        match spec_lookup_native(name) {
            Some(nf) => spec_call_native(env, elems, nf, args, fuel),
            None => match env.lookup(name) {
                Some(SpecVal::Function { parameters, body, applied }) => spec_apply(
                    env,
                    parameters,
                    *body,
                    applied + args,
                    fuel,
                ),
                Some(_) => Err(SpecErr::InvalidFunctionCall { values: elems }),
                None => Err(SpecErr::UnknownIdentifier(name)),
            },
        }
    }
}

/// The uniform call protocol of a native: too few arguments yield the
/// synthetic curried function, too many are an arity error, and an
/// exact count runs the primitive.
pub open spec fn spec_call_native(
    env: SpecScope,
    elems: Seq<SpecVal>,
    nf: NativeFunction,
    args: Seq<SpecVal>,
    fuel: nat,
) -> Result<(SpecScope, SpecVal), SpecErr>
    decreases fuel, 5int, 0int,
{
    if args.len() < nf.required_arguments_count {
        Ok((env, spec_to_function(nf.required_arguments_count as nat, env.context, args)))
    } else if args.len() > nf.required_arguments_count {
        Err(SpecErr::InvalidArgumentsCount {
            name: env.context,
            expected: nf.required_arguments_count as nat,
            got: args.len(),
        })
    } else {
        spec_run_native(env, elems, nf.op, args, fuel)
    }
}

/// Runs one native primitive on exactly its required argument count.
pub open spec fn spec_run_native(
    env: SpecScope,
    elems: Seq<SpecVal>,
    op: NativeOp,
    args: Seq<SpecVal>,
    fuel: nat,
) -> Result<(SpecScope, SpecVal), SpecErr>
    decreases fuel, 4int, 0int,
{
    let name = env.context;
    match op {
        NativeOp::Eval => if fuel == 0 {
            Err(SpecErr::RecursionDepthExceeded)
        } else {
            spec_eval(env, args[0], (fuel - 1) as nat)
        },
        NativeOp::Print => match arg_text(args[0], name, 0) {
            Err(e) => Err(e),
            Ok(_) => Ok((env, SpecVal::Void)),
        },
        NativeOp::Debug => Ok((env, args[0])),
        NativeOp::ToString => match arg_num(args[0], name, 0) {
            Err(e) => Err(e),
            Ok(n) => Ok((env, SpecVal::Text(spec_i64_str(n)))),
        },
        NativeOp::Fold => match arg_list(args[0], name, 0) {
            Err(e) => Err(e),
            Ok(op_elems) => match arg_list(args[2], name, 1) {
                Err(e) => Err(e),
                Ok(items) => spec_fold(env, op_elems, args[1], items, fuel),
            },
        },
        NativeOp::MapEach => match arg_list(args[0], name, 0) {
            Err(e) => Err(e),
            Ok(op_elems) => match arg_list(args[1], name, 1) {
                Err(e) => Err(e),
                Ok(items) => match spec_map(env, op_elems, items, fuel) {
                    Err(e) => Err(e),
                    Ok((env2, vs)) => Ok((env2, SpecVal::List(vs))),
                },
            },
        },
        NativeOp::Concat => Ok((env, spec_concat(args[0], args[1]))),
        NativeOp::Push => match arg_list(args[0], name, 0) {
            Err(e) => Err(e),
            Ok(vs) => Ok((env, SpecVal::List(vs.push(args[1])))),
        },
        NativeOp::Let => match arg_symbol(args[0], name, 0) {
            Err(e) => Err(e),
            Ok(bound) => Ok((env.bind_spec(bound, args[1]), SpecVal::Void)),
        },
        NativeOp::Define => match arg_symbol(args[0], name, 0) {
            Err(e) => Err(e),
            Ok(bound) => if fuel == 0 {
                Err(SpecErr::RecursionDepthExceeded)
            } else {
                match spec_eval(env, args[1], (fuel - 1) as nat) {
                    Err(e) => Err(e),
                    Ok((env2, value)) => Ok((env2.bind_spec(bound, value), SpecVal::Void)),
                }
            },
        },
        NativeOp::DefineFunction => match arg_symbol(args[0], name, 0) {
            Err(e) => Err(e),
            Ok(bound) => match spec_make_function(args[1], args[2], name) {
                Err(e) => Err(e),
                Ok(f) => Ok((env.bind_spec(bound, f), SpecVal::Void)),
            },
        },
        NativeOp::MakeFunction => match spec_make_function(args[0], args[1], name) {
            Err(e) => Err(e),
            Ok(f) => Ok((env, f)),
        },
        NativeOp::If => if fuel == 0 {
            Err(SpecErr::RecursionDepthExceeded)
        } else {
            match spec_eval(env, args[0], (fuel - 1) as nat) {
                Err(e) => Err(e),
                Ok((env2, cond)) => match arg_bool(cond, name, 0) {
                    Err(e) => Err(e),
                    Ok(b) => if b {
                        spec_eval(env2, args[1], (fuel - 1) as nat)
                    } else {
                        spec_eval(env2, args[2], (fuel - 1) as nat)
                    },
                },
            }
        },
        NativeOp::PrintScope => Ok((env, SpecVal::Void)),
        NativeOp::ClearScope => Ok((spec_initial_scope(), SpecVal::Void)),
        NativeOp::Head => match arg_list(args[0], name, 0) {
            Err(e) => Err(e),
            Ok(vs) => if vs.len() == 0 {
                Err(SpecErr::ListOverflow { access: 0, count: 0 })
            } else {
                Ok((env, vs[0]))
            },
        },
        NativeOp::Tail => match arg_list(args[0], name, 0) {
            Err(e) => Err(e),
            Ok(vs) => if vs.len() == 0 {
                Err(SpecErr::ListOverflow { access: 1, count: 0 })
            } else {
                Ok((env, SpecVal::List(vs.drop_first())))
            },
        },
        NativeOp::Len => match arg_list(args[0], name, 0) {
            Err(e) => Err(e),
            Ok(vs) => if vs.len() <= i64::MAX {
                Ok((env, SpecVal::Number(vs.len() as i64)))
            } else {
                Err(SpecErr::ArithmeticOverflow { name })
            },
        },
        NativeOp::Add | NativeOp::Sub | NativeOp::Mul | NativeOp::Div | NativeOp::Rem
            | NativeOp::Max | NativeOp::Min => match arg_num(args[0], name, 0) {
            Err(e) => Err(e),
            Ok(a) => match arg_num(args[1], name, 1) {
                Err(e) => Err(e),
                Ok(b) => match spec_math(op, name, a, b) {
                    Err(e) => Err(e),
                    Ok(n) => Ok((env, SpecVal::Number(n))),
                },
            },
        },
        NativeOp::Lt | NativeOp::Gt | NativeOp::Le | NativeOp::Ge | NativeOp::EqNum => match
            arg_num(args[0], name, 0) {
            Err(e) => Err(e),
            Ok(a) => match arg_num(args[1], name, 1) {
                Err(e) => Err(e),
                Ok(b) => Ok((env, SpecVal::Boolean(spec_cmp(op, a, b)))),
            },
        },
        NativeOp::And | NativeOp::Or => match arg_bool(args[0], name, 0) {
            Err(e) => Err(e),
            Ok(a) => match arg_bool(args[1], name, 1) {
                Err(e) => Err(e),
                Ok(b) => Ok((env, SpecVal::Boolean(spec_logic(op, a, b)))),
            },
        },
        NativeOp::Not => match arg_bool(args[0], name, 0) {
            Err(e) => Err(e),
            Ok(a) => Ok((env, SpecVal::Boolean(!a))),
        },
    }
}

/// Left fold: threads both the accumulator and the scope across the
/// items; each step evaluates the operation list extended with the
/// accumulator and the current item.
pub open spec fn spec_fold(
    env: SpecScope,
    op_elems: Seq<SpecVal>,
    acc: SpecVal,
    items: Seq<SpecVal>,
    fuel: nat,
) -> Result<(SpecScope, SpecVal), SpecErr>
    decreases fuel, 3int, items.len(),
{
    if items.len() == 0 {
        Ok((env, acc))
    } else if fuel == 0 {
        Err(SpecErr::RecursionDepthExceeded)
    } else {
        match spec_eval(env, SpecVal::List(op_elems + seq![acc, items[0]]), (fuel - 1) as nat) {
            Err(e) => Err(e),
            Ok((env2, v)) => spec_fold(env2, op_elems, v, items.drop_first(), fuel),
        }
    }
}

/// Elementwise application: evaluates the operation list extended with
/// each item in turn, threading the scope, preserving order and
/// length.
pub open spec fn spec_map(
    env: SpecScope,
    op_elems: Seq<SpecVal>,
    items: Seq<SpecVal>,
    fuel: nat,
) -> Result<(SpecScope, Seq<SpecVal>), SpecErr>
    decreases fuel, 3int, items.len(),
{
    if items.len() == 0 {
        Ok((env, Seq::empty()))
    } else if fuel == 0 {
        Err(SpecErr::RecursionDepthExceeded)
    } else {
        match spec_eval(env, SpecVal::List(op_elems.push(items[0])), (fuel - 1) as nat) {
            Err(e) => Err(e),
            Ok((env2, v)) => match spec_map(env2, op_elems, items.drop_first(), fuel) {
                Err(e) => Err(e),
                Ok((env3, vs)) => Ok((env3, seq![v] + vs)),
            },
        }
    }
}

/// Binds each parameter, in order, to its argument; a later duplicate
/// parameter shadows an earlier one.
pub open spec fn spec_bind_params(
    env: SpecScope,
    parameters: Seq<Seq<char>>,
    args: Seq<SpecVal>,
) -> SpecScope
    decreases parameters.len(),
{
    if parameters.len() == 0 || args.len() == 0 {
        env
    } else {
        spec_bind_params(
            env.bind_spec(parameters[0], args[0]),
            parameters.drop_first(),
            args.drop_first(),
        )
    }
}

/// The callable application protocol, shared by user closures and by
/// curried natives.
///
/// Too few arguments yield a new function with the arguments folded
/// into `applied` and the scope untouched; too many are an arity
/// error.  Exact saturation binds the parameters inside the current
/// call-time scope, evaluates the body there, then discards that inner
/// scope entirely: the caller gets its own scope back, so bindings
/// made inside a body never leak out of a call.
pub open spec fn spec_apply(
    env: SpecScope,
    parameters: Seq<Seq<char>>,
    body: SpecVal,
    args: Seq<SpecVal>,
    fuel: nat,
) -> Result<(SpecScope, SpecVal), SpecErr>
    decreases fuel, 2int, 0int,
{
    if args.len() < parameters.len() {
        Ok((env, SpecVal::Function { parameters, body: Box::new(body), applied: args }))
    } else if args.len() > parameters.len() {
        Err(SpecErr::InvalidArgumentsCount {
            name: env.context,
            expected: parameters.len(),
            got: args.len(),
        })
    } else if fuel == 0 {
        Err(SpecErr::RecursionDepthExceeded)
    } else {
        match spec_eval(spec_bind_params(env, parameters, args), body, (fuel - 1) as nat) {
            Err(e) => Err(e),
            Ok((_, result)) => Ok((env, result)),
        }
    }
}

} // verus!
