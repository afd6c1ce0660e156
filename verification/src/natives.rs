//! The native primitive registry: the table from names to required
//! arity and operation, and the synthetic curried form of a native.

use vstd::prelude::*;

use crate::strutil::{push_char, push_dec_digits, spec_dec_digits, str_eq};
use crate::value::{deeps, lemma_deeps_push, LispVal, SpecVal};

verus! {

/// The closed set of native primitive operations.
#[derive(Debug, Clone, Copy, PartialEq, Eq, Structural)]
pub enum NativeOp {
    /// Forces evaluation of an otherwise-deferred expression.
    Eval,
    /// Coerces its argument to text and returns unit; the host is in
    /// charge of actually displaying rendered values.
    Print,
    /// Returns its argument unchanged.
    Debug,
    /// The decimal text of a number.
    ToString,
    /// Left fold of an operation list over a sequence.
    Fold,
    /// Elementwise application of an operation list to a sequence.
    MapEach,
    /// Polymorphic concatenation.
    Concat,
    /// Appends a value to a sequence.
    Push,
    /// Binds an evaluated symbol argument to a value.
    Let,
    /// The `def!` form: binds a literal name to its evaluated value.
    Define,
    /// The `defn!` form: binds a literal name to a new function.
    DefineFunction,
    /// The `fn!` form: builds a function value.
    MakeFunction,
    /// The `if!` form: evaluates the condition, then exactly one branch.
    If,
    /// Returns unit; the host renders the scope.
    PrintScope,
    /// Resets to the seeded initial scope.
    ClearScope,
    /// First element of a sequence.
    Head,
    /// All but the first element of a sequence.
    Tail,
    /// Length of a sequence.
    Len,
    Add,
    Sub,
    Mul,
    Div,
    Rem,
    Max,
    Min,
    Lt,
    Gt,
    Le,
    Ge,
    EqNum,
    And,
    Or,
    Not,
}

/// One entry of the native registry: a required arity and the
/// operation itself.  Supplying fewer arguments curries (yields a
/// synthetic function); supplying more is an arity error.
#[derive(Debug, Clone, Copy, PartialEq, Eq, Structural)]
pub struct NativeFunction {
    pub required_arguments_count: usize,
    pub op: NativeOp,
}

impl NativeFunction {
    /// A registry entry from an arity and an operation.
    pub fn new(required_arguments_count: usize, op: NativeOp) -> (r: NativeFunction)
        ensures
            r == (NativeFunction { required_arguments_count, op }),
    {
        NativeFunction { required_arguments_count, op }
    }
}

/// The native registry.  Arithmetic and comparison primitives are
/// registered both under operator spellings and under word aliases.
pub open spec fn spec_lookup_native(name: Seq<char>) -> Option<NativeFunction> {
    if name == "eval"@ {
        Some(NativeFunction { required_arguments_count: 1, op: NativeOp::Eval })
    } else if name == "print"@ {
        Some(NativeFunction { required_arguments_count: 1, op: NativeOp::Print })
    } else if name == "debug"@ {
        Some(NativeFunction { required_arguments_count: 1, op: NativeOp::Debug })
    } else if name == "to_string"@ {
        Some(NativeFunction { required_arguments_count: 1, op: NativeOp::ToString })
    } else if name == "fold"@ {
        Some(NativeFunction { required_arguments_count: 3, op: NativeOp::Fold })
    } else if name == "map"@ {
        Some(NativeFunction { required_arguments_count: 2, op: NativeOp::MapEach })
    } else if name == "concat"@ {
        Some(NativeFunction { required_arguments_count: 2, op: NativeOp::Concat })
    } else if name == "push"@ {
        Some(NativeFunction { required_arguments_count: 2, op: NativeOp::Push })
    } else if name == "let"@ {
        Some(NativeFunction { required_arguments_count: 2, op: NativeOp::Let })
    } else if name == "def!"@ {
        Some(NativeFunction { required_arguments_count: 2, op: NativeOp::Define })
    } else if name == "defn!"@ {
        Some(NativeFunction { required_arguments_count: 3, op: NativeOp::DefineFunction })
    } else if name == "fn!"@ {
        Some(NativeFunction { required_arguments_count: 2, op: NativeOp::MakeFunction })
    } else if name == "if!"@ {
        Some(NativeFunction { required_arguments_count: 3, op: NativeOp::If })
    } else if name == "print_scope"@ {
        Some(NativeFunction { required_arguments_count: 0, op: NativeOp::PrintScope })
    } else if name == "clear_scope"@ {
        Some(NativeFunction { required_arguments_count: 0, op: NativeOp::ClearScope })
    } else if name == "head"@ {
        Some(NativeFunction { required_arguments_count: 1, op: NativeOp::Head })
    } else if name == "tail"@ {
        Some(NativeFunction { required_arguments_count: 1, op: NativeOp::Tail })
    } else if name == "len"@ {
        Some(NativeFunction { required_arguments_count: 1, op: NativeOp::Len })
    } else if name == "+"@ || name == "add"@ {
        Some(NativeFunction { required_arguments_count: 2, op: NativeOp::Add })
    } else if name == "-"@ || name == "sub"@ {
        Some(NativeFunction { required_arguments_count: 2, op: NativeOp::Sub })
    } else if name == "*"@ || name == "mul"@ {
        Some(NativeFunction { required_arguments_count: 2, op: NativeOp::Mul })
    } else if name == "/"@ || name == "div"@ {
        Some(NativeFunction { required_arguments_count: 2, op: NativeOp::Div })
    } else if name == "%"@ || name == "mod"@ {
        Some(NativeFunction { required_arguments_count: 2, op: NativeOp::Rem })
    } else if name == "max"@ {
        Some(NativeFunction { required_arguments_count: 2, op: NativeOp::Max })
    } else if name == "min"@ {
        Some(NativeFunction { required_arguments_count: 2, op: NativeOp::Min })
    } else if name == "<"@ || name == "lt"@ {
        Some(NativeFunction { required_arguments_count: 2, op: NativeOp::Lt })
    } else if name == ">"@ || name == "gt"@ {
        Some(NativeFunction { required_arguments_count: 2, op: NativeOp::Gt })
    } else if name == "<="@ || name == "ltq"@ {
        Some(NativeFunction { required_arguments_count: 2, op: NativeOp::Le })
    } else if name == ">="@ || name == "gtq"@ {
        Some(NativeFunction { required_arguments_count: 2, op: NativeOp::Ge })
    } else if name == "="@ || name == "eq"@ {
        Some(NativeFunction { required_arguments_count: 2, op: NativeOp::EqNum })
    } else if name == "and"@ {
        Some(NativeFunction { required_arguments_count: 2, op: NativeOp::And })
    } else if name == "or"@ {
        Some(NativeFunction { required_arguments_count: 2, op: NativeOp::Or })
    } else if name == "not"@ {
        Some(NativeFunction { required_arguments_count: 1, op: NativeOp::Not })
    } else {
        None
    }
}

/// Consults the native registry for a name.
pub fn lookup_native(name: &str) -> (r: Option<NativeFunction>)
    ensures
        r == spec_lookup_native(name@),
{
    if str_eq(name, "eval") {
        Some(NativeFunction::new(1, NativeOp::Eval))
    } else if str_eq(name, "print") {
        Some(NativeFunction::new(1, NativeOp::Print))
    } else if str_eq(name, "debug") {
        Some(NativeFunction::new(1, NativeOp::Debug))
    } else if str_eq(name, "to_string") {
        Some(NativeFunction::new(1, NativeOp::ToString))
    } else if str_eq(name, "fold") {
        Some(NativeFunction::new(3, NativeOp::Fold))
    } else if str_eq(name, "map") {
        Some(NativeFunction::new(2, NativeOp::MapEach))
    } else if str_eq(name, "concat") {
        Some(NativeFunction::new(2, NativeOp::Concat))
    } else if str_eq(name, "push") {
        Some(NativeFunction::new(2, NativeOp::Push))
    } else if str_eq(name, "let") {
        Some(NativeFunction::new(2, NativeOp::Let))
    } else if str_eq(name, "def!") {
        Some(NativeFunction::new(2, NativeOp::Define))
    } else if str_eq(name, "defn!") {
        Some(NativeFunction::new(3, NativeOp::DefineFunction))
    } else if str_eq(name, "fn!") {
        Some(NativeFunction::new(2, NativeOp::MakeFunction))
    } else if str_eq(name, "if!") {
        Some(NativeFunction::new(3, NativeOp::If))
    } else if str_eq(name, "print_scope") {
        Some(NativeFunction::new(0, NativeOp::PrintScope))
    } else if str_eq(name, "clear_scope") {
        Some(NativeFunction::new(0, NativeOp::ClearScope))
    } else if str_eq(name, "head") {
        Some(NativeFunction::new(1, NativeOp::Head))
    } else if str_eq(name, "tail") {
        Some(NativeFunction::new(1, NativeOp::Tail))
    } else if str_eq(name, "len") {
        Some(NativeFunction::new(1, NativeOp::Len))
    } else if str_eq(name, "+") || str_eq(name, "add") {
        Some(NativeFunction::new(2, NativeOp::Add))
    } else if str_eq(name, "-") || str_eq(name, "sub") {
        Some(NativeFunction::new(2, NativeOp::Sub))
    } else if str_eq(name, "*") || str_eq(name, "mul") {
        Some(NativeFunction::new(2, NativeOp::Mul))
    } else if str_eq(name, "/") || str_eq(name, "div") {
        Some(NativeFunction::new(2, NativeOp::Div))
    } else if str_eq(name, "%") || str_eq(name, "mod") {
        Some(NativeFunction::new(2, NativeOp::Rem))
    } else if str_eq(name, "max") {
        Some(NativeFunction::new(2, NativeOp::Max))
    } else if str_eq(name, "min") {
        Some(NativeFunction::new(2, NativeOp::Min))
    } else if str_eq(name, "<") || str_eq(name, "lt") {
        Some(NativeFunction::new(2, NativeOp::Lt))
    } else if str_eq(name, ">") || str_eq(name, "gt") {
        Some(NativeFunction::new(2, NativeOp::Gt))
    } else if str_eq(name, "<=") || str_eq(name, "ltq") {
        Some(NativeFunction::new(2, NativeOp::Le))
    } else if str_eq(name, ">=") || str_eq(name, "gtq") {
        Some(NativeFunction::new(2, NativeOp::Ge))
    } else if str_eq(name, "=") || str_eq(name, "eq") {
        Some(NativeFunction::new(2, NativeOp::EqNum))
    } else if str_eq(name, "and") {
        Some(NativeFunction::new(2, NativeOp::And))
    } else if str_eq(name, "or") {
        Some(NativeFunction::new(2, NativeOp::Or))
    } else if str_eq(name, "not") {
        Some(NativeFunction::new(1, NativeOp::Not))
    } else {
        None
    }
}

/// The synthetic parameter name for slot `i`: the letter `a` followed
/// by the slot's decimal index.
pub open spec fn spec_param_name(i: nat) -> Seq<char> {
    seq!['a'] + spec_dec_digits(i)
}

/// The synthetic parameter names for `n` slots, in order.
pub open spec fn spec_param_names(n: nat) -> Seq<Seq<char>>
    decreases n,
{
    if n == 0 {
        Seq::empty()
    } else {
        spec_param_names((n - 1) as nat).push(spec_param_name((n - 1) as nat))
    }
}

/// The synthetic parameter name list has one name per slot.
pub proof fn lemma_spec_param_names(n: nat)
    ensures
        spec_param_names(n).len() == n,
        forall|i: int| 0 <= i < n ==> spec_param_names(n)[i] == spec_param_name(i as nat),
    decreases n,
{
    if n > 0 {
        lemma_spec_param_names((n - 1) as nat);
    }
}

/// The body of a synthetic curried native: the native's name applied
/// to each synthetic parameter in order.
pub open spec fn spec_reinvocation(name: Seq<char>, params: Seq<Seq<char>>) -> Seq<SpecVal> {
    Seq::new(
        params.len() + 1,
        |i: int| if i == 0 {
            SpecVal::Symbol(name)
        } else {
            SpecVal::Symbol(params[i - 1])
        },
    )
}

/// The synthetic function value that stands for an under-saturated
/// native: freshly named parameters, a body that re-invokes the
/// primitive by name, and the already-supplied arguments.
pub open spec fn spec_to_function(count: nat, name: Seq<char>, applied: Seq<SpecVal>) -> SpecVal {
    SpecVal::Function {
        parameters: spec_param_names(count),
        body: Box::new(SpecVal::List(spec_reinvocation(name, spec_param_names(count)))),
        applied,
    }
}

impl NativeFunction {
    /// The synthetic curried form of this native under `name`, with
    /// `applied` arguments already bound.
    pub fn to_function(&self, name: String, applied: Vec<LispVal>) -> (r: LispVal)
        ensures
            r@ == spec_to_function(
                self.required_arguments_count as nat,
                name@,
                deeps(applied@),
            ),
    {
        let ghost name0 = name@;
        let n = self.required_arguments_count;
        let mut parameters: Vec<String> = Vec::new();
        let mut body_elems: Vec<LispVal> = Vec::new();
        body_elems.push(LispVal::Symbol(name));
        proof {
            assert(deeps(body_elems@) =~= spec_reinvocation(name0, spec_param_names(0))) by {
                assert(body_elems@ =~= seq![body_elems@[0]]);
                crate::value::lemma_deeps_one(body_elems@[0]);
                lemma_spec_param_names(0);
            }
        }
        let mut i: usize = 0;
        while i < n
            invariant
                i <= n,
                parameters.deep_view() == spec_param_names(i as nat),
                deeps(body_elems@) == spec_reinvocation(name0, spec_param_names(i as nat)),
            decreases n - i,
        {
            let mut p = String::new();
            push_char(&mut p, 'a');
            push_dec_digits(&mut p, i as u64);
            proof {
                assert(p@ =~= spec_param_name(i as nat));
            }
            let ghost params_pre = parameters.deep_view();
            let ghost body_pre = deeps(body_elems@);
            let ghost body_vals = body_elems@;
            parameters.push(p.clone());
            body_elems.push(LispVal::Symbol(p));
            proof {
                assert(parameters.deep_view() =~= params_pre.push(spec_param_name(i as nat)));
                lemma_deeps_push(body_vals, body_elems@.last());
                lemma_spec_param_names(i as nat);
                lemma_spec_param_names((i + 1) as nat);
                assert(deeps(body_elems@) =~= spec_reinvocation(
                    name0,
                    spec_param_names((i + 1) as nat),
                ));
            }
            i = i + 1;
        }
        let body = Box::new(LispVal::List(body_elems));
        proof {
            assert(parameters.deep_view() == spec_param_names(n as nat));
            assert((*body).deep() == SpecVal::List(spec_reinvocation(
                name0,
                spec_param_names(n as nat),
            )));
        }
        LispVal::Function { parameters, body, applied }
    }
}

} // verus!
