//! The structural invariant evaluation preserves: every function
//! value that escapes a call is under-saturated.  A function that has
//! absorbed any argument always has strictly fewer applied arguments
//! than parameters — full saturation is resolved immediately into a
//! body evaluation and never persists as a value.  (A function built
//! from an empty literal parameter list starts, vacuously, with zero
//! of zero slots filled.)

use vstd::prelude::*;

use crate::evaluation::{lemma_registry_arity, spec_op_arity};
use crate::natives::{
    lemma_spec_param_names, spec_param_names, spec_reinvocation, spec_to_function, NativeFunction,
    NativeOp,
};
use crate::scope::{lookup_in, spec_initial_scope, SpecScope};
use crate::semantics::{
    spec_apply, spec_bind_params, spec_call_native, spec_dispatch, spec_eval, spec_eval_list,
    spec_eval_seq, spec_fold, spec_make_function, spec_map, spec_run_native,
};
use crate::value::{spec_concat, SpecVal};

verus! {

/// Well-formedness of a value: every function node anywhere in it has
/// either strictly fewer applied arguments than parameters or none
/// applied at all.
pub open spec fn wf_val(v: SpecVal) -> bool
    decreases v, 1int,
{
    match v {
        SpecVal::List(vs) => wf_vals(vs),
        SpecVal::Unevaluated(b) => wf_val(*b),
        SpecVal::Function { parameters, body, applied } => (applied.len() < parameters.len()
            || applied.len() == 0) && wf_val(*body) && wf_vals(applied),
        _ => true,
    }
}

/// Well-formedness of every value in a sequence.
pub open spec fn wf_vals(vs: Seq<SpecVal>) -> bool
    decreases vs, 0int,
{
    if vs.len() == 0 {
        true
    } else {
        wf_val(vs.first()) && wf_vals(vs.drop_first())
    }
}

/// Well-formedness of every value bound in a binding list.
pub open spec fn wf_binds(bs: Seq<(Seq<char>, SpecVal)>) -> bool
    decreases bs.len(),
{
    if bs.len() == 0 {
        true
    } else {
        wf_val(bs.last().1) && wf_binds(bs.drop_last())
    }
}

/// Well-formedness of every value a scope binds.
pub open spec fn wf_env(env: SpecScope) -> bool {
    wf_binds(env.bindings)
}

/// A well-formed sequence has well-formed elements.
pub proof fn lemma_wf_vals_index(vs: Seq<SpecVal>, i: int)
    requires
        wf_vals(vs),
        0 <= i < vs.len(),
    ensures
        wf_val(vs[i]),
    decreases i,
{
    if i > 0 {
        lemma_wf_vals_index(vs.drop_first(), i - 1);
    }
}

/// A sequence of well-formed elements is well-formed.
pub proof fn lemma_wf_vals_intro(vs: Seq<SpecVal>)
    requires
        forall|i: int| 0 <= i < vs.len() ==> wf_val(vs[i]),
    ensures
        wf_vals(vs),
    decreases vs.len(),
{
    if vs.len() > 0 {
        assert(forall|i: int| 0 <= i < vs.drop_first().len() ==> vs.drop_first()[i] == vs[i + 1]);
        lemma_wf_vals_intro(vs.drop_first());
    }
}

/// Elementwise form of sequence well-formedness.
pub proof fn lemma_wf_vals_elementwise(vs: Seq<SpecVal>)
    ensures
        wf_vals(vs) <==> (forall|i: int| 0 <= i < vs.len() ==> wf_val(vs[i])),
{
    if wf_vals(vs) {
        assert forall|i: int| 0 <= i < vs.len() implies wf_val(vs[i]) by {
            lemma_wf_vals_index(vs, i);
        }
    }
    if forall|i: int| 0 <= i < vs.len() ==> wf_val(vs[i]) {
        lemma_wf_vals_intro(vs);
    }
}

/// Concatenation preserves sequence well-formedness.
pub proof fn lemma_wf_vals_concat(a: Seq<SpecVal>, b: Seq<SpecVal>)
    requires
        wf_vals(a),
        wf_vals(b),
    ensures
        wf_vals(a + b),
{
    lemma_wf_vals_elementwise(a);
    lemma_wf_vals_elementwise(b);
    assert forall|i: int| 0 <= i < (a + b).len() implies wf_val((a + b)[i]) by {
        if i < a.len() {
            assert((a + b)[i] == a[i]);
        } else {
            assert((a + b)[i] == b[i - a.len()]);
        }
    }
    lemma_wf_vals_intro(a + b);
}

/// Dropping the first element keeps a sequence well-formed.
pub proof fn lemma_wf_vals_drop_first(vs: Seq<SpecVal>)
    requires
        wf_vals(vs),
        vs.len() > 0,
    ensures
        wf_vals(vs.drop_first()),
{
    lemma_wf_vals_elementwise(vs);
    assert forall|i: int| 0 <= i < vs.drop_first().len() implies wf_val(vs.drop_first()[i]) by {
        assert(vs.drop_first()[i] == vs[i + 1]);
    }
    lemma_wf_vals_intro(vs.drop_first());
}

/// A value looked up in a well-formed binding list is well-formed.
pub proof fn lemma_lookup_wf(bs: Seq<(Seq<char>, SpecVal)>, name: Seq<char>)
    requires
        wf_binds(bs),
    ensures
        lookup_in(bs, name) matches Some(v) ==> wf_val(v),
    decreases bs.len(),
{
    if bs.len() > 0 && bs.last().0 != name {
        lemma_lookup_wf(bs.drop_last(), name);
    }
}

/// Binding a well-formed value keeps the binding list well-formed.
pub proof fn lemma_wf_binds_push(bs: Seq<(Seq<char>, SpecVal)>, name: Seq<char>, v: SpecVal)
    requires
        wf_binds(bs),
        wf_val(v),
    ensures
        wf_binds(bs.push((name, v))),
{
    assert(bs.push((name, v)).drop_last() =~= bs);
}

/// The seeded initial scope is well-formed.
pub proof fn lemma_initial_scope_wf()
    ensures
        wf_env(spec_initial_scope()),
{
    let bs = spec_initial_scope().bindings;
    assert(bs.drop_last() =~= seq![bs[0]]);
    assert(bs.drop_last().drop_last() =~= Seq::<(Seq<char>, SpecVal)>::empty());
    reveal_with_fuel(wf_binds, 3);
}

/// Binding parameters to well-formed arguments keeps the scope
/// well-formed.
pub proof fn lemma_bind_params_wf(env: SpecScope, parameters: Seq<Seq<char>>, args: Seq<SpecVal>)
    requires
        wf_env(env),
        wf_vals(args),
    ensures
        wf_env(spec_bind_params(env, parameters, args)),
    decreases parameters.len(),
{
    if parameters.len() > 0 && args.len() > 0 {
        lemma_wf_vals_index(args, 0);
        lemma_wf_binds_push(env.bindings, parameters[0], args[0]);
        lemma_bind_params_wf(
            env.bind_spec(parameters[0], args[0]),
            parameters.drop_first(),
            args.drop_first(),
        );
    }
}

/// Polymorphic concatenation of well-formed values is well-formed.
pub proof fn lemma_concat_wf(a: SpecVal, b: SpecVal)
    requires
        wf_val(a),
        wf_val(b),
    ensures
        wf_val(spec_concat(a, b)),
{
    lemma_wf_vals_elementwise(seq![a]);
    lemma_wf_vals_elementwise(seq![b]);
    lemma_wf_vals_elementwise(seq![a, b]);
    match (a, b) {
        (SpecVal::List(l), SpecVal::List(r)) => {
            lemma_wf_vals_concat(l, r);
        },
        (SpecVal::List(l), v) => {
            lemma_wf_vals_concat(l, seq![v]);
            assert(l.push(v) =~= l + seq![v]);
        },
        (v, SpecVal::List(r)) => {
            lemma_wf_vals_concat(seq![v], r);
        },
        (_, _) => {
        },
    }
}

/// The synthetic curried form of an under-saturated native is
/// well-formed.
pub proof fn lemma_to_function_wf(count: nat, name: Seq<char>, applied: Seq<SpecVal>)
    requires
        wf_vals(applied),
        applied.len() < count || applied.len() == 0,
    ensures
        wf_val(spec_to_function(count, name, applied)),
{
    lemma_spec_param_names(count);
    let body = spec_reinvocation(name, spec_param_names(count));
    assert(forall|i: int| 0 <= i < body.len() ==> wf_val(body[i]));
    lemma_wf_vals_intro(body);
    assert(wf_val(SpecVal::List(body)));
    let f = spec_to_function(count, name, applied);
    assert(f == SpecVal::Function {
        parameters: spec_param_names(count),
        body: Box::new(SpecVal::List(body)),
        applied,
    });
    assert(*Box::new(SpecVal::List(body)) == SpecVal::List(body));
    assert(wf_val(f));
}

/// A function built by the literal `fn!` form is well-formed.
pub proof fn lemma_make_function_wf(params: SpecVal, body: SpecVal, name: Seq<char>)
    requires
        wf_val(body),
    ensures
        spec_make_function(params, body, name) matches Ok(f) ==> wf_val(f),
{
    match spec_make_function(params, body, name) {
        Ok(f) => {
            assert(wf_vals(Seq::<SpecVal>::empty()));
        },
        Err(_) => {
        },
    }
}

/// Evaluation preserves well-formedness: from a well-formed scope and
/// expression, both the returned scope and the returned value are
/// well-formed — so, in particular, every function value evaluation
/// ever hands back is under-saturated.
pub proof fn lemma_eval_wf(env: SpecScope, v: SpecVal, fuel: nat)
    requires
        wf_env(env),
        wf_val(v),
    ensures
        spec_eval(env, v, fuel) matches Ok((env2, r)) ==> wf_env(env2) && wf_val(r),
    decreases fuel, 9int, 0int,
{
    if fuel > 0 {
        match v {
            SpecVal::Symbol(name) => {
                lemma_lookup_wf(env.bindings, name);
            },
            SpecVal::List(elems) => {
                lemma_eval_list_wf(env, elems, fuel);
            },
            _ => {
            },
        }
    }
}

/// List-form evaluation preserves well-formedness.
pub proof fn lemma_eval_list_wf(env: SpecScope, elems: Seq<SpecVal>, fuel: nat)
    requires
        wf_env(env),
        wf_vals(elems),
    ensures
        spec_eval_list(env, elems, fuel) matches Ok((env2, r)) ==> wf_env(env2) && wf_val(r),
    decreases fuel, 8int, 0int,
{
    if elems.len() == 0 {
        assert(wf_vals(Seq::<SpecVal>::empty()));
        return ;
    }
    let head = elems[0];
    let tail = elems.drop_first();
    assert(wf_val(head) && wf_vals(tail));
    match head {
        SpecVal::Symbol(name) => {
            let env1 = SpecScope { context: name, bindings: env.bindings };
            if head.is_macro_name() {
                lemma_dispatch_wf(env1, elems, name, tail, fuel);
            } else {
                lemma_eval_seq_wf(env1, tail, fuel);
                match spec_eval_seq(env1, tail, fuel) {
                    Ok((env2, args)) => {
                        lemma_dispatch_wf(env2, elems, name, args, fuel);
                    },
                    Err(_) => {
                    },
                }
            }
        },
        SpecVal::Function { parameters, body, applied } => {
            let env1 = SpecScope { context: "anonymous"@, bindings: env.bindings };
            lemma_eval_seq_wf(env1, tail, fuel);
            match spec_eval_seq(env1, tail, fuel) {
                Ok((env2, args)) => {
                    lemma_wf_vals_concat(applied, args);
                    lemma_apply_wf(env2, parameters, *body, applied + args, fuel);
                },
                Err(_) => {
                },
            }
        },
        _ => {
        },
    }
}

/// Argument-list evaluation preserves well-formedness.
pub proof fn lemma_eval_seq_wf(env: SpecScope, elems: Seq<SpecVal>, fuel: nat)
    requires
        wf_env(env),
        wf_vals(elems),
    ensures
        spec_eval_seq(env, elems, fuel) matches Ok((env2, vs)) ==> wf_env(env2) && wf_vals(vs),
    decreases fuel, 7int, elems.len(),
{
    if elems.len() == 0 {
        assert(wf_vals(Seq::<SpecVal>::empty()));
    } else if fuel > 0 {
        lemma_eval_wf(env, elems[0], (fuel - 1) as nat);
        match spec_eval(env, elems[0], (fuel - 1) as nat) {
            Ok((env1, value)) => {
                lemma_eval_seq_wf(env1, elems.drop_first(), fuel);
                match spec_eval_seq(env1, elems.drop_first(), fuel) {
                    Ok((env2, vs)) => {
                        lemma_wf_vals_elementwise(seq![value]);
                        lemma_wf_vals_concat(seq![value], vs);
                    },
                    Err(_) => {
                    },
                }
            },
            Err(_) => {
            },
        }
    }
}

/// Named dispatch preserves well-formedness.
pub proof fn lemma_dispatch_wf(
    env: SpecScope,
    elems: Seq<SpecVal>,
    name: Seq<char>,
    args: Seq<SpecVal>,
    fuel: nat,
)
    requires
        wf_env(env),
        wf_vals(args),
    ensures
        spec_dispatch(env, elems, name, args, fuel) matches Ok((env2, r)) ==> wf_env(env2)
            && wf_val(r),
    decreases fuel, 6int, 0int,
{
    if name == "list"@ {
        return ;
    }
    match crate::natives::spec_lookup_native(name) {
        Some(nf) => {
            lemma_registry_arity(name);
            lemma_call_native_wf(env, elems, nf, args, fuel);
        },
        None => {
            lemma_lookup_wf(env.bindings, name);
            match env.lookup(name) {
                Some(SpecVal::Function { parameters, body, applied }) => {
                    lemma_wf_vals_concat(applied, args);
                    lemma_apply_wf(env, parameters, *body, applied + args, fuel);
                },
                _ => {
                },
            }
        },
    }
}

/// The native call protocol preserves well-formedness.
pub proof fn lemma_call_native_wf(
    env: SpecScope,
    elems: Seq<SpecVal>,
    nf: NativeFunction,
    args: Seq<SpecVal>,
    fuel: nat,
)
    requires
        wf_env(env),
        wf_vals(args),
        nf.required_arguments_count == spec_op_arity(nf.op),
    ensures
        spec_call_native(env, elems, nf, args, fuel) matches Ok((env2, r)) ==> wf_env(env2)
            && wf_val(r),
    decreases fuel, 5int, 0int,
{
    if args.len() < nf.required_arguments_count {
        lemma_to_function_wf(nf.required_arguments_count as nat, env.context, args);
    } else if args.len() == nf.required_arguments_count {
        lemma_run_native_wf(env, elems, nf.op, args, fuel);
    }
}

/// Every native primitive preserves well-formedness.
pub proof fn lemma_run_native_wf(
    env: SpecScope,
    elems: Seq<SpecVal>,
    op: NativeOp,
    args: Seq<SpecVal>,
    fuel: nat,
)
    requires
        wf_env(env),
        wf_vals(args),
        args.len() == spec_op_arity(op),
    ensures
        spec_run_native(env, elems, op, args, fuel) matches Ok((env2, r)) ==> wf_env(env2)
            && wf_val(r),
    decreases fuel, 4int, 0int,
{
    lemma_wf_vals_elementwise(args);
    if args.len() > 0 {
        lemma_wf_vals_index(args, 0);
    }
    if args.len() > 1 {
        lemma_wf_vals_index(args, 1);
    }
    if args.len() > 2 {
        lemma_wf_vals_index(args, 2);
    }
    let name = env.context;
    match op {
        NativeOp::Eval => {
            if fuel > 0 && args.len() > 0 {
                lemma_eval_wf(env, args[0], (fuel - 1) as nat);
            }
        },
        NativeOp::Fold => {
            if args.len() > 2 {
                match (args[0], args[2]) {
                    (SpecVal::List(op_elems), SpecVal::List(items)) => {
                        lemma_fold_wf(env, op_elems, args[1], items, fuel);
                    },
                    _ => {
                    },
                }
            }
        },
        NativeOp::MapEach => {
            if args.len() > 1 {
                match (args[0], args[1]) {
                    (SpecVal::List(op_elems), SpecVal::List(items)) => {
                        lemma_map_wf(env, op_elems, items, fuel);
                    },
                    _ => {
                    },
                }
            }
        },
        NativeOp::Concat => {
            if args.len() > 1 {
                lemma_concat_wf(args[0], args[1]);
            }
        },
        NativeOp::Push => {
            if args.len() > 1 {
                match args[0] {
                    SpecVal::List(vs) => {
                        lemma_wf_vals_elementwise(vs);
                        assert forall|i: int| 0 <= i < vs.push(args[1]).len() implies wf_val(
                            vs.push(args[1])[i],
                        ) by {
                            if i < vs.len() {
                                assert(vs.push(args[1])[i] == vs[i]);
                            } else {
                                assert(vs.push(args[1])[i] == args[1]);
                            }
                        }
                        lemma_wf_vals_intro(vs.push(args[1]));
                    },
                    _ => {
                    },
                }
            }
        },
        NativeOp::Let => {
            if args.len() > 1 {
                match args[0] {
                    SpecVal::Symbol(bound) => {
                        lemma_wf_binds_push(env.bindings, bound, args[1]);
                    },
                    _ => {
                    },
                }
            }
        },
        NativeOp::Define => {
            if fuel > 0 && args.len() > 1 {
                match args[0] {
                    SpecVal::Symbol(bound) => {
                        lemma_eval_wf(env, args[1], (fuel - 1) as nat);
                        match spec_eval(env, args[1], (fuel - 1) as nat) {
                            Ok((env2, value)) => {
                                lemma_wf_binds_push(env2.bindings, bound, value);
                            },
                            Err(_) => {
                            },
                        }
                    },
                    _ => {
                    },
                }
            }
        },
        NativeOp::DefineFunction => {
            if args.len() > 2 {
                match args[0] {
                    SpecVal::Symbol(bound) => {
                        lemma_make_function_wf(args[1], args[2], name);
                        match spec_make_function(args[1], args[2], name) {
                            Ok(f) => {
                                lemma_wf_binds_push(env.bindings, bound, f);
                            },
                            Err(_) => {
                            },
                        }
                    },
                    _ => {
                    },
                }
            }
        },
        NativeOp::MakeFunction => {
            if args.len() > 1 {
                lemma_make_function_wf(args[0], args[1], name);
            }
        },
        NativeOp::If => {
            if fuel > 0 && args.len() > 2 {
                lemma_eval_wf(env, args[0], (fuel - 1) as nat);
                match spec_eval(env, args[0], (fuel - 1) as nat) {
                    Ok((env2, cond)) => {
                        lemma_eval_wf(env2, args[1], (fuel - 1) as nat);
                        lemma_eval_wf(env2, args[2], (fuel - 1) as nat);
                    },
                    Err(_) => {
                    },
                }
            }
        },
        NativeOp::ClearScope => {
            lemma_initial_scope_wf();
        },
        NativeOp::Head => {
            if args.len() > 0 {
                match args[0] {
                    SpecVal::List(vs) => {
                        if vs.len() > 0 {
                            lemma_wf_vals_index(vs, 0);
                        }
                    },
                    _ => {
                    },
                }
            }
        },
        NativeOp::Tail => {
            if args.len() > 0 {
                match args[0] {
                    SpecVal::List(vs) => {
                        if vs.len() > 0 {
                            assert(wf_vals(vs));
                            lemma_wf_vals_drop_first(vs);
                        }
                    },
                    _ => {
                    },
                }
            }
        },
        _ => {
        },
    }
}

/// Left fold preserves well-formedness.
pub proof fn lemma_fold_wf(
    env: SpecScope,
    op_elems: Seq<SpecVal>,
    acc: SpecVal,
    items: Seq<SpecVal>,
    fuel: nat,
)
    requires
        wf_env(env),
        wf_vals(op_elems),
        wf_val(acc),
        wf_vals(items),
    ensures
        spec_fold(env, op_elems, acc, items, fuel) matches Ok((env2, r)) ==> wf_env(env2)
            && wf_val(r),
    decreases fuel, 3int, items.len(),
{
    if items.len() > 0 && fuel > 0 {
        lemma_wf_vals_index(items, 0);
        lemma_wf_vals_elementwise(seq![acc, items[0]]);
        lemma_wf_vals_concat(op_elems, seq![acc, items[0]]);
        lemma_eval_wf(env, SpecVal::List(op_elems + seq![acc, items[0]]), (fuel - 1) as nat);
        match spec_eval(env, SpecVal::List(op_elems + seq![acc, items[0]]), (fuel - 1) as nat) {
            Ok((env2, value)) => {
                lemma_fold_wf(env2, op_elems, value, items.drop_first(), fuel);
            },
            Err(_) => {
            },
        }
    }
}

/// Elementwise application preserves well-formedness.
pub proof fn lemma_map_wf(env: SpecScope, op_elems: Seq<SpecVal>, items: Seq<SpecVal>, fuel: nat)
    requires
        wf_env(env),
        wf_vals(op_elems),
        wf_vals(items),
    ensures
        spec_map(env, op_elems, items, fuel) matches Ok((env2, vs)) ==> wf_env(env2)
            && wf_vals(vs),
    decreases fuel, 3int, items.len(),
{
    if items.len() == 0 {
        assert(wf_vals(Seq::<SpecVal>::empty()));
    } else if fuel > 0 {
        lemma_wf_vals_index(items, 0);
        lemma_wf_vals_elementwise(op_elems);
        lemma_wf_vals_elementwise(op_elems.push(items[0]));
        lemma_eval_wf(env, SpecVal::List(op_elems.push(items[0])), (fuel - 1) as nat);
        match spec_eval(env, SpecVal::List(op_elems.push(items[0])), (fuel - 1) as nat) {
            Ok((env2, value)) => {
                lemma_map_wf(env2, op_elems, items.drop_first(), fuel);
                match spec_map(env2, op_elems, items.drop_first(), fuel) {
                    Ok((env3, vs)) => {
                        lemma_wf_vals_elementwise(seq![value]);
                        lemma_wf_vals_concat(seq![value], vs);
                    },
                    Err(_) => {
                    },
                }
            },
            Err(_) => {
            },
        }
    }
}

/// Callable application preserves well-formedness.
pub proof fn lemma_apply_wf(
    env: SpecScope,
    parameters: Seq<Seq<char>>,
    body: SpecVal,
    args: Seq<SpecVal>,
    fuel: nat,
)
    requires
        wf_env(env),
        wf_val(body),
        wf_vals(args),
    ensures
        spec_apply(env, parameters, body, args, fuel) matches Ok((env2, r)) ==> wf_env(env2)
            && wf_val(r),
    decreases fuel, 2int, 0int,
{
    if args.len() == parameters.len() && fuel > 0 {
        lemma_bind_params_wf(env, parameters, args);
        lemma_eval_wf(spec_bind_params(env, parameters, args), body, (fuel - 1) as nat);
    }
}

} // verus!
