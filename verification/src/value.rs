//! The value representation shared by the parser and the evaluator,
//! together with its mathematical model.

use vstd::prelude::*;

use crate::errors::LispValUnwrapError;

verus! {

/// Tagged variant type serving as both AST node and runtime value.
#[derive(Debug, PartialEq)]
pub enum LispVal {
    /// An identifier; evaluates to its bound value via environment lookup.
    Symbol(String),
    /// A self-evaluating text scalar.
    Text(String),
    /// An ordered list of values; evaluates by dispatching on its head.
    List(Vec<LispVal>),
    /// A self-evaluating 64-bit signed integer.
    Number(i64),
    /// A self-evaluating boolean.
    Boolean(bool),
    /// One layer of deferral: evaluating yields the wrapped value unchanged.
    Unevaluated(Box<LispVal>),
    /// A closure or a curried native-primitive wrapper.  A `Function`
    /// that escapes a call always has `applied.len() < parameters.len()`.
    Function { parameters: Vec<String>, body: Box<LispVal>, applied: Vec<LispVal> },
    /// Absence of a value, returned by binding and side-effecting forms.
    Void(),
}

/// The kind tag of a value, used by the coercion layer and by error
/// diagnostics.
#[derive(Debug, Clone, Copy, PartialEq, Eq, Structural)]
pub enum LispType {
    Any,
    Symbol,
    Text,
    List,
    Number,
    Boolean,
    Function,
    Void,
}

/// The mathematical model of a [`LispVal`]: the same tree over
/// `Seq<char>`, `Seq` and `i64` instead of `String` and `Vec`.
pub ghost enum SpecVal {
    Symbol(Seq<char>),
    Text(Seq<char>),
    List(Seq<SpecVal>),
    Number(i64),
    Boolean(bool),
    Unevaluated(Box<SpecVal>),
    Function { parameters: Seq<Seq<char>>, body: Box<SpecVal>, applied: Seq<SpecVal> },
    Void,
}

impl LispVal {
    /// The model of this value.
    pub open spec fn deep(self) -> SpecVal
        decreases self, 1int,
    {
        match self {
            LispVal::Symbol(s) => SpecVal::Symbol(s@),
            LispVal::Text(s) => SpecVal::Text(s@),
            LispVal::List(vs) => SpecVal::List(deeps(vs@)),
            LispVal::Number(n) => SpecVal::Number(n),
            LispVal::Boolean(b) => SpecVal::Boolean(b),
            LispVal::Unevaluated(b) => SpecVal::Unevaluated(Box::new((*b).deep())),
            LispVal::Function { parameters, body, applied } => SpecVal::Function {
                parameters: parameters.deep_view(),
                body: Box::new((*body).deep()),
                applied: deeps(applied@),
            },
            LispVal::Void() => SpecVal::Void,
        }
    }
}

impl View for LispVal {
    type V = SpecVal;

    open spec fn view(&self) -> SpecVal {
        self.deep()
    }
}

/// The model of a sequence of values, element by element.
pub open spec fn deeps(vs: Seq<LispVal>) -> Seq<SpecVal>
    decreases vs, 0int,
{
    if vs.len() == 0 {
        Seq::empty()
    } else {
        deeps(vs.drop_last()).push(vs.last().deep())
    }
}

/// `deeps` maps the model over the sequence element by element.
pub proof fn lemma_deeps(vs: Seq<LispVal>)
    ensures
        deeps(vs).len() == vs.len(),
        forall|i: int| 0 <= i < vs.len() ==> deeps(vs)[i] == vs[i].deep(),
    decreases vs.len(),
{
    if vs.len() > 0 {
        lemma_deeps(vs.drop_last());
    }
}

/// `deeps` distributes over concatenation.
pub proof fn lemma_deeps_concat(a: Seq<LispVal>, b: Seq<LispVal>)
    ensures
        deeps(a + b) == deeps(a) + deeps(b),
{
    lemma_deeps(a);
    lemma_deeps(b);
    lemma_deeps(a + b);
    assert(deeps(a + b) =~= deeps(a) + deeps(b));
}

impl SpecVal {
    /// The kind tag of a modeled value.  A quoted value reports the
    /// kind of the value it wraps.
    pub open spec fn ty(self) -> LispType
        decreases self,
    {
        match self {
            SpecVal::Symbol(_) => LispType::Symbol,
            SpecVal::Text(_) => LispType::Text,
            SpecVal::List(_) => LispType::List,
            SpecVal::Number(_) => LispType::Number,
            SpecVal::Boolean(_) => LispType::Boolean,
            SpecVal::Unevaluated(b) => (*b).ty(),
            SpecVal::Function { .. } => LispType::Function,
            SpecVal::Void => LispType::Void,
        }
    }

    /// Whether this value is a symbol whose name follows the macro
    /// naming convention (ends with `!`).
    pub open spec fn is_macro_name(self) -> bool {
        match self {
            SpecVal::Symbol(s) => s.len() > 0 && s.last() == '!',
            _ => false,
        }
    }
}

/// The polymorphic concatenation rule: sequence + sequence is
/// concatenation, sequence + scalar appends, scalar + sequence
/// prepends, and scalar + scalar makes a fresh two-element sequence.
pub open spec fn spec_concat(a: SpecVal, b: SpecVal) -> SpecVal {
    match (a, b) {
        (SpecVal::List(l), SpecVal::List(r)) => SpecVal::List(l + r),
        (SpecVal::List(l), v) => SpecVal::List(l.push(v)),
        (v, SpecVal::List(r)) => SpecVal::List(seq![v] + r),
        (l, r) => SpecVal::List(seq![l, r]),
    }
}

impl LispVal {
    /// A structure-preserving copy of this value.
    pub fn deep_clone(&self) -> (r: LispVal)
        ensures
            r@ == self@,
        decreases self, 1int,
    {
        match self {
            LispVal::Symbol(s) => LispVal::Symbol(s.clone()),
            LispVal::Text(s) => LispVal::Text(s.clone()),
            LispVal::List(vs) => LispVal::List(clone_values(vs)),
            LispVal::Number(n) => LispVal::Number(*n),
            LispVal::Boolean(b) => LispVal::Boolean(*b),
            LispVal::Unevaluated(b) => LispVal::Unevaluated(Box::new((**b).deep_clone())),
            LispVal::Function { parameters, body, applied } => LispVal::Function {
                parameters: clone_names(parameters),
                body: Box::new((**body).deep_clone()),
                applied: clone_values(applied),
            },
            LispVal::Void() => LispVal::Void(),
        }
    }

    /// The kind tag of this value, queried without consuming it.
    pub fn to_type(&self) -> (r: LispType)
        ensures
            r == self@.ty(),
        decreases self,
    {
        match self {
            LispVal::Symbol(_) => LispType::Symbol,
            LispVal::Text(_) => LispType::Text,
            LispVal::List(_) => LispType::List,
            LispVal::Number(_) => LispType::Number,
            LispVal::Boolean(_) => LispType::Boolean,
            LispVal::Unevaluated(b) => (**b).to_type(),
            LispVal::Function { .. } => LispType::Function,
            LispVal::Void() => LispType::Void,
        }
    }

    /// The symbol name carried by this value, or a typed mismatch error.
    pub fn as_symbol(&self) -> (r: Result<&str, LispValUnwrapError>)
        ensures
            match r {
                Ok(s) => self@ matches SpecVal::Symbol(n) && n == s@,
                Err(e) => !(self@ is Symbol) && e == (LispValUnwrapError {
                    expected: LispType::Symbol,
                    got: self@.ty(),
                }),
            },
    {
        match self {
            LispVal::Symbol(s) => Ok(s.as_str()),
            _ => Err(LispValUnwrapError { expected: LispType::Symbol, got: self.to_type() }),
        }
    }

    /// The number carried by this value, or a typed mismatch error.
    pub fn as_number(&self) -> (r: Result<i64, LispValUnwrapError>)
        ensures
            match r {
                Ok(n) => self@ == SpecVal::Number(n),
                Err(e) => !(self@ is Number) && e == (LispValUnwrapError {
                    expected: LispType::Number,
                    got: self@.ty(),
                }),
            },
    {
        match self {
            LispVal::Number(n) => Ok(*n),
            _ => Err(LispValUnwrapError { expected: LispType::Number, got: self.to_type() }),
        }
    }

    /// The boolean carried by this value, or a typed mismatch error.
    pub fn as_boolean(&self) -> (r: Result<bool, LispValUnwrapError>)
        ensures
            match r {
                Ok(b) => self@ == SpecVal::Boolean(b),
                Err(e) => !(self@ is Boolean) && e == (LispValUnwrapError {
                    expected: LispType::Boolean,
                    got: self@.ty(),
                }),
            },
    {
        match self {
            LispVal::Boolean(b) => Ok(*b),
            _ => Err(LispValUnwrapError { expected: LispType::Boolean, got: self.to_type() }),
        }
    }

    /// The text carried by this value, or a typed mismatch error.
    pub fn as_text(&self) -> (r: Result<String, LispValUnwrapError>)
        ensures
            match r {
                Ok(s) => self@ == SpecVal::Text(s@),
                Err(e) => !(self@ is Text) && e == (LispValUnwrapError {
                    expected: LispType::Text,
                    got: self@.ty(),
                }),
            },
    {
        match self {
            LispVal::Text(s) => Ok(s.clone()),
            _ => Err(LispValUnwrapError { expected: LispType::Text, got: self.to_type() }),
        }
    }

    /// The elements of this sequence value, or a typed mismatch error.
    pub fn as_list(&self) -> (r: Result<Vec<LispVal>, LispValUnwrapError>)
        ensures
            match r {
                Ok(vs) => self@ == SpecVal::List(deeps(vs@)),
                Err(e) => !(self@ is List) && e == (LispValUnwrapError {
                    expected: LispType::List,
                    got: self@.ty(),
                }),
            },
    {
        match self {
            LispVal::List(vs) => Ok(clone_values(vs)),
            _ => Err(LispValUnwrapError { expected: LispType::List, got: self.to_type() }),
        }
    }

    /// Succeeds exactly on the unit value.
    pub fn as_unit(&self) -> (r: Result<(), LispValUnwrapError>)
        ensures
            match r {
                Ok(_) => self@ == SpecVal::Void,
                Err(e) => !(self@ is Void) && e == (LispValUnwrapError {
                    expected: LispType::Void,
                    got: self@.ty(),
                }),
            },
    {
        match self {
            LispVal::Void() => Ok(()),
            _ => Err(LispValUnwrapError { expected: LispType::Void, got: self.to_type() }),
        }
    }

    /// This value wrapped in one layer of deferral.
    pub fn to_unevaluated(&self) -> (r: LispVal)
        ensures
            r@ == SpecVal::Unevaluated(Box::new(self@)),
    {
        LispVal::Unevaluated(Box::new(self.deep_clone()))
    }

    /// Whether this value is the unit value.
    pub fn is_void(&self) -> (r: bool)
        ensures
            r == (self@ is Void),
    {
        matches!(self, LispVal::Void())
    }

    /// Whether this value is a symbol named by the macro convention
    /// (a trailing `!`).
    pub fn is_macro(&self) -> (r: bool)
        ensures
            r == self@.is_macro_name(),
    {
        match self {
            LispVal::Symbol(s) => {
                let n = s.as_str().unicode_len();
                if n == 0 {
                    false
                } else {
                    s.as_str().get_char(n - 1) == '!'
                }
            },
            _ => false,
        }
    }

    /// Polymorphic concatenation of two values (see [`spec_concat`]).
    pub fn concat(&self, other: &LispVal) -> (r: LispVal)
        ensures
            r@ == spec_concat(self@, other@),
    {
        match (self, other) {
            (LispVal::List(left), LispVal::List(right)) => {
                let mut result = clone_values(left);
                let ghost head = result@;
                let mut rest = clone_values(right);
                let ghost tail = rest@;
                result.append(&mut rest);
                proof {
                    lemma_deeps_concat(head, tail);
                }
                LispVal::List(result)
            },
            (LispVal::List(left), v) => {
                let mut result = clone_values(left);
                let ghost head = result@;
                result.push(v.deep_clone());
                proof {
                    lemma_deeps_push(head, result@.last());
                }
                LispVal::List(result)
            },
            (v, LispVal::List(right)) => {
                let mut result: Vec<LispVal> = Vec::new();
                result.push(v.deep_clone());
                let ghost head = result@;
                let mut rest = clone_values(right);
                let ghost tail = rest@;
                result.append(&mut rest);
                proof {
                    lemma_deeps_concat(head, tail);
                    assert(head =~= seq![head[0]]);
                    lemma_deeps_one(head[0]);
                    assert(deeps(head) =~= seq![v@]);
                }
                LispVal::List(result)
            },
            (l, r) => {
                let mut result: Vec<LispVal> = Vec::new();
                result.push(l.deep_clone());
                result.push(r.deep_clone());
                proof {
                    let all = result@;
                    assert(all.drop_last() =~= seq![all[0]]);
                    lemma_deeps_one(all[0]);
                    assert(deeps(all) =~= seq![l@, r@]);
                }
                LispVal::List(result)
            },
        }
    }

    /// Appends one value to a sequence value; fails with a typed
    /// mismatch error if `self` is not a sequence.
    pub fn try_push(&self, other: &LispVal) -> (r: Result<LispVal, LispValUnwrapError>)
        ensures
            match r {
                Ok(v) => self@ matches SpecVal::List(vs) && v@ == SpecVal::List(vs.push(other@)),
                Err(e) => !(self@ is List) && e == (LispValUnwrapError {
                    expected: LispType::List,
                    got: self@.ty(),
                }),
            },
    {
        let mut list = self.as_list()?;
        let ghost pre = list@;
        list.push(other.deep_clone());
        proof {
            lemma_deeps_push(pre, list@.last());
        }
        Ok(LispVal::List(list))
    }

    /// Appends many values to a sequence value; fails with a typed
    /// mismatch error if `self` is not a sequence.
    pub fn try_append(&self, other: &Vec<LispVal>) -> (r: Result<LispVal, LispValUnwrapError>)
        ensures
            match r {
                Ok(v) => self@ matches SpecVal::List(vs) && v@ == SpecVal::List(vs + deeps(other@)),
                Err(e) => !(self@ is List) && e == (LispValUnwrapError {
                    expected: LispType::List,
                    got: self@.ty(),
                }),
            },
    {
        let mut list = self.as_list()?;
        let ghost pre = list@;
        let mut rest = clone_values(other);
        let ghost tail = rest@;
        list.append(&mut rest);
        proof {
            lemma_deeps_concat(pre, tail);
        }
        Ok(LispVal::List(list))
    }
}

/// `deeps` of a one-element sequence.
pub proof fn lemma_deeps_one(v: LispVal)
    ensures
        deeps(seq![v]) == seq![v.deep()],
{
    reveal_with_fuel(deeps, 2);
    assert(seq![v].drop_last() =~= Seq::<LispVal>::empty());
    assert(deeps(seq![v]) =~= seq![v.deep()]);
}

/// `deeps` commutes with pushing one element.
pub proof fn lemma_deeps_push(vs: Seq<LispVal>, x: LispVal)
    ensures
        deeps(vs.push(x)) == deeps(vs).push(x.deep()),
{
    assert(vs.push(x).drop_last() =~= vs);
    assert(vs.push(x).last() == x);
}

/// A structure-preserving copy of a vector of values.
pub fn clone_values(vs: &Vec<LispVal>) -> (r: Vec<LispVal>)
    ensures
        deeps(r@) == deeps(vs@),
        r@.len() == vs@.len(),
        forall|i: int| 0 <= i < vs@.len() ==> r@[i].deep() == vs@[i].deep(),
    decreases vs, 0int,
{
    let mut r: Vec<LispVal> = Vec::new();
    let n = vs.len();
    for i in 0..n
        invariant
            n == vs@.len(),
            r@.len() == i,
            forall|j: int| 0 <= j < i ==> r@[j].deep() == vs@[j].deep(),
        decreases n - i,
    {
        r.push(vs[i].deep_clone());
    }
    proof {
        lemma_deeps_pointwise(r@, vs@);
    }
    r
}

/// Two value sequences with pointwise equal models have equal models.
pub proof fn lemma_deeps_pointwise(a: Seq<LispVal>, b: Seq<LispVal>)
    requires
        a.len() == b.len(),
        forall|i: int| 0 <= i < a.len() ==> a[i].deep() == b[i].deep(),
    ensures
        deeps(a) == deeps(b),
    decreases a.len(),
{
    if a.len() > 0 {
        lemma_deeps_pointwise(a.drop_last(), b.drop_last());
    }
    assert(deeps(a) =~= deeps(b));
}

/// A copy of a vector of names.
pub fn clone_names(names: &Vec<String>) -> (r: Vec<String>)
    ensures
        r.deep_view() == names.deep_view(),
        r@.len() == names@.len(),
{
    let mut r: Vec<String> = Vec::new();
    let n = names.len();
    for i in 0..n
        invariant
            n == names@.len(),
            r@.len() == i,
            forall|j: int| 0 <= j < i ==> r@[j]@ == names@[j]@,
        decreases n - i,
    {
        r.push(names[i].clone());
    }
    proof {
        assert(r.deep_view() =~= names.deep_view());
    }
    r
}

impl From<Vec<LispVal>> for LispVal {
    /// A vector of values as a sequence value.
    fn from(vs: Vec<LispVal>) -> (r: LispVal) {
        LispVal::List(vs)
    }
}

impl vstd::std_specs::convert::FromSpecImpl<Vec<LispVal>> for LispVal {
    open spec fn obeys_from_spec() -> bool {
        true
    }

    open spec fn from_spec(vs: Vec<LispVal>) -> LispVal {
        LispVal::List(vs)
    }
}

} // verus!
