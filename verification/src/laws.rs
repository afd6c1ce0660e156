//! Laws the evaluator obeys, stated and proved over the semantics in
//! [`crate::semantics`].  The executable evaluator's contracts say it
//! returns exactly those semantics, so each law carries over to it.

use vstd::prelude::*;

use crate::errors::SpecErr;
use crate::natives::{spec_to_function, NativeFunction};
use crate::scope::SpecScope;
use crate::semantics::{
    spec_apply, spec_call_native, spec_eval, spec_fold, spec_map,
};
use crate::value::{spec_concat, SpecVal};

verus! {

/// Determinism: evaluation is a function of the scope, the expression
/// and the depth budget alone, so two evaluations of identical inputs
/// yield identical results.
pub proof fn lemma_eval_deterministic(
    env: SpecScope,
    v: SpecVal,
    fuel: nat,
    r1: Result<(SpecScope, SpecVal), SpecErr>,
    r2: Result<(SpecScope, SpecVal), SpecErr>,
)
    requires
        r1 == spec_eval(env, v, fuel),
        r2 == spec_eval(env, v, fuel),
    ensures
        r1 == r2,
{
}

/// Quoting round-trip: evaluating a quoted value yields the wrapped
/// value with the scope unchanged, and no evaluation is performed on
/// the value's contents (any budget of at least one step suffices).
pub proof fn lemma_quote_roundtrip(env: SpecScope, v: SpecVal, fuel: nat)
    requires
        fuel > 0,
    ensures
        spec_eval(env, SpecVal::Unevaluated(Box::new(v)), fuel) == Ok::<
            (SpecScope, SpecVal),
            SpecErr,
        >((env, v)),
{
}

/// Binding isolation: whenever applying a callable succeeds, the
/// caller gets its own scope back unchanged — bindings made inside a
/// body, including the parameters themselves, never leak out of a
/// call.
pub proof fn lemma_apply_scope_isolation(
    env: SpecScope,
    parameters: Seq<Seq<char>>,
    body: SpecVal,
    args: Seq<SpecVal>,
    fuel: nat,
)
    ensures
        spec_apply(env, parameters, body, args, fuel) matches Ok((env2, _)) ==> env2 == env,
{
}

/// Currying of user-defined callables: supplying fewer arguments than
/// parameters evaluates no body at all; it yields a new function with
/// the arguments folded into `applied`, under the unchanged scope.
pub proof fn lemma_apply_curry(
    env: SpecScope,
    parameters: Seq<Seq<char>>,
    body: SpecVal,
    args: Seq<SpecVal>,
    fuel: nat,
)
    requires
        args.len() < parameters.len(),
    ensures
        spec_apply(env, parameters, body, args, fuel) == Ok::<(SpecScope, SpecVal), SpecErr>(
            (env, SpecVal::Function { parameters, body: Box::new(body), applied: args }),
        ),
{
}

/// Currying of natives follows the same protocol: an under-saturated
/// native yields the synthetic function that re-invokes the primitive
/// by name, with the supplied arguments already applied, under the
/// unchanged scope.
pub proof fn lemma_native_curry(
    env: SpecScope,
    elems: Seq<SpecVal>,
    nf: NativeFunction,
    args: Seq<SpecVal>,
    fuel: nat,
)
    requires
        args.len() < nf.required_arguments_count,
    ensures
        spec_call_native(env, elems, nf, args, fuel) == Ok::<(SpecScope, SpecVal), SpecErr>(
            (env, spec_to_function(nf.required_arguments_count as nat, env.context, args)),
        ),
{
}

/// Folding over an empty sequence yields the initial value unchanged,
/// with the scope untouched, whatever the operation.
pub proof fn lemma_fold_nil(
    env: SpecScope,
    op_elems: Seq<SpecVal>,
    init: SpecVal,
    fuel: nat,
)
    ensures
        spec_fold(env, op_elems, init, Seq::empty(), fuel) == Ok::<(SpecScope, SpecVal), SpecErr>(
            (env, init),
        ),
{
}

/// Folding over a one-element sequence is exactly one application of
/// the operation to the initial value and that element.
pub proof fn lemma_fold_one(
    env: SpecScope,
    op_elems: Seq<SpecVal>,
    init: SpecVal,
    a: SpecVal,
    fuel: nat,
)
    requires
        fuel > 0,
    ensures
        spec_fold(env, op_elems, init, seq![a], fuel) == spec_eval(
            env,
            SpecVal::List(op_elems + seq![init, a]),
            (fuel - 1) as nat,
        ),
{
    assert(seq![a].drop_first() =~= Seq::<SpecVal>::empty());
    match spec_eval(env, SpecVal::List(op_elems + seq![init, a]), (fuel - 1) as nat) {
        Ok((env2, v)) => {
            assert(spec_fold(env2, op_elems, v, seq![a].drop_first(), fuel) == Ok::<
                (SpecScope, SpecVal),
                SpecErr,
            >((env2, v)));
        },
        Err(_) => {},
    }
}

/// One fold step: a fold over a non-empty sequence applies the
/// operation to the accumulator and the first element, then folds the
/// rest under the threaded scope — so elements are consumed strictly
/// left to right.
pub proof fn lemma_fold_cons(
    env: SpecScope,
    op_elems: Seq<SpecVal>,
    init: SpecVal,
    items: Seq<SpecVal>,
    fuel: nat,
)
    requires
        fuel > 0,
        items.len() > 0,
    ensures
        spec_fold(env, op_elems, init, items, fuel) == match spec_eval(
            env,
            SpecVal::List(op_elems + seq![init, items[0]]),
            (fuel - 1) as nat,
        ) {
            Err(e) => Err(e),
            Ok((env2, v)) => spec_fold(env2, op_elems, v, items.drop_first(), fuel),
        },
{
}

/// Mapping over an empty sequence yields an empty sequence, with the
/// scope untouched, whatever the operation.
pub proof fn lemma_map_nil(env: SpecScope, op_elems: Seq<SpecVal>, fuel: nat)
    ensures
        spec_map(env, op_elems, Seq::empty(), fuel) == Ok::<(SpecScope, Seq<SpecVal>), SpecErr>(
            (env, Seq::empty()),
        ),
{
}

/// A successful map preserves the length of its input.
pub proof fn lemma_map_preserves_length(
    env: SpecScope,
    op_elems: Seq<SpecVal>,
    items: Seq<SpecVal>,
    fuel: nat,
)
    ensures
        spec_map(env, op_elems, items, fuel) matches Ok((_, vs)) ==> vs.len() == items.len(),
    decreases items.len(),
{
    if items.len() > 0 && fuel > 0 {
        match spec_eval(env, SpecVal::List(op_elems.push(items[0])), (fuel - 1) as nat) {
            Ok((env2, _)) => {
                lemma_map_preserves_length(env2, op_elems, items.drop_first(), fuel);
            },
            Err(_) => {},
        }
    }
}

/// Order preservation: a map over a non-empty sequence is the image of
/// the first element, followed by the map of the rest under the
/// threaded scope — so the result lists each element's image at that
/// element's position.
pub proof fn lemma_map_cons(
    env: SpecScope,
    op_elems: Seq<SpecVal>,
    items: Seq<SpecVal>,
    fuel: nat,
)
    requires
        fuel > 0,
        items.len() > 0,
    ensures
        spec_map(env, op_elems, items, fuel) == match spec_eval(
            env,
            SpecVal::List(op_elems.push(items[0])),
            (fuel - 1) as nat,
        ) {
            Err(e) => Err(e),
            Ok((env2, v)) => match spec_map(env2, op_elems, items.drop_first(), fuel) {
                Err(e) => Err(e),
                Ok((env3, vs)) => Ok((env3, seq![v] + vs)),
            },
        },
{
}

/// Concatenation polymorphism: sequence plus sequence concatenates,
/// sequence plus scalar appends, scalar plus sequence prepends, and
/// scalar plus scalar makes a fresh two-element sequence.
pub proof fn lemma_concat_polymorphism(a: SpecVal, b: SpecVal)
    ensures
        (a is List && b is List) ==> spec_concat(a, b) == SpecVal::List(a->List_0 + b->List_0),
        (a is List && !(b is List)) ==> spec_concat(a, b) == SpecVal::List(a->List_0.push(b)),
        (!(a is List) && b is List) ==> spec_concat(a, b) == SpecVal::List(seq![a] + b->List_0),
        (!(a is List) && !(b is List)) ==> spec_concat(a, b) == SpecVal::List(seq![a, b]),
{
}

} // verus!
