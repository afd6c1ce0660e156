//! The persistent environment: a name-to-value mapping carrying a
//! diagnostic context label.  A bind never mutates the receiver; it
//! produces a new scope, so older scopes stay valid and unaffected.

use vstd::prelude::*;

use crate::strutil::str_eq;
use crate::value::{LispVal, SpecVal};

verus! {

/// A persistent name-to-value mapping with a diagnostic context label.
/// The label is used only for error messages, never for control flow.
#[derive(Debug)]
pub struct Scope {
    pub context: String,
    pub bindings: Vec<(String, LispVal)>,
}

/// The mathematical model of a [`Scope`]: the context label and the
/// accumulated bindings, oldest first.
pub ghost struct SpecScope {
    pub context: Seq<char>,
    pub bindings: Seq<(Seq<char>, SpecVal)>,
}

/// The model of a binding list, element by element.
pub open spec fn bindings_view(bs: Seq<(String, LispVal)>) -> Seq<(Seq<char>, SpecVal)> {
    Seq::new(bs.len(), |i: int| (bs[i].0@, bs[i].1.deep()))
}

/// Scans a binding list for a name; the most recent bind wins.
pub open spec fn lookup_in(bs: Seq<(Seq<char>, SpecVal)>, name: Seq<char>) -> Option<SpecVal>
    decreases bs.len(),
{
    if bs.len() == 0 {
        None
    } else if bs.last().0 == name {
        Some(bs.last().1)
    } else {
        lookup_in(bs.drop_last(), name)
    }
}

impl SpecScope {
    /// The value bound to `name`, if any; the most recent bind wins.
    pub open spec fn lookup(self, name: Seq<char>) -> Option<SpecVal> {
        lookup_in(self.bindings, name)
    }

    /// The model of a bind: the new pair is appended, shadowing any
    /// earlier bind of the same name.
    pub open spec fn bind_spec(self, name: Seq<char>, value: SpecVal) -> SpecScope {
        SpecScope { context: self.context, bindings: self.bindings.push((name, value)) }
    }
}

/// A bind changes exactly the binding it names.
pub proof fn lemma_lookup_bind(s: SpecScope, name: Seq<char>, value: SpecVal, other: Seq<char>)
    ensures
        s.bind_spec(name, value).lookup(name) == Some(value),
        other != name ==> s.bind_spec(name, value).lookup(other) == s.lookup(other),
{
    assert(s.bindings.push((name, value)).drop_last() =~= s.bindings);
}

/// The model of the seeded initial scope: the `main` context with the
/// two integer-range constants.
pub open spec fn spec_initial_scope() -> SpecScope {
    SpecScope {
        context: "main"@,
        bindings: seq![
            ("MIN_INT"@, SpecVal::Number(i64::MIN)),
            ("MAX_INT"@, SpecVal::Number(i64::MAX)),
        ],
    }
}

impl View for Scope {
    type V = SpecScope;

    open spec fn view(&self) -> SpecScope {
        SpecScope { context: self.context@, bindings: bindings_view(self.bindings@) }
    }
}

/// A copy of a binding list.
fn clone_bindings(bs: &Vec<(String, LispVal)>) -> (r: Vec<(String, LispVal)>)
    ensures
        bindings_view(r@) == bindings_view(bs@),
{
    let mut r: Vec<(String, LispVal)> = Vec::new();
    let n = bs.len();
    for i in 0..n
        invariant
            n == bs@.len(),
            r@.len() == i,
            forall|j: int| 0 <= j < i ==> r@[j].0@ == bs@[j].0@ && r@[j].1.deep() == bs@[j].1.deep(),
        decreases n - i,
    {
        let pair = &bs[i];
        r.push((pair.0.clone(), pair.1.deep_clone()));
    }
    proof {
        assert(bindings_view(r@) =~= bindings_view(bs@));
    }
    r
}

impl Scope {
    /// A scope with no bindings and the given context label.
    pub fn empty(context: String) -> (r: Scope)
        ensures
            r@ == (SpecScope { context: context@, bindings: Seq::empty() }),
    {
        proof {
            assert(bindings_view(Seq::empty()) =~= Seq::<(Seq<char>, SpecVal)>::empty());
        }
        Scope { context, bindings: Vec::new() }
    }

    /// A scope with no bindings and the given context label.
    pub fn new(context: String) -> (r: Scope)
        ensures
            r@ == (SpecScope { context: context@, bindings: Seq::empty() }),
    {
        Scope::empty(context)
    }

    /// The seeded initial scope: context `main`, with `MIN_INT` and
    /// `MAX_INT` bound to the 64-bit signed integer range.
    pub fn default() -> (r: Scope)
        ensures
            r@ == spec_initial_scope(),
    {
        let s = Scope::empty("main".to_owned());
        let s = s.bind("MIN_INT".to_owned(), LispVal::Number(i64::MIN));
        let s = s.bind("MAX_INT".to_owned(), LispVal::Number(i64::MAX));
        proof {
            assert(s@.bindings =~= spec_initial_scope().bindings);
        }
        s
    }

    /// The same bindings under a replaced context label.
    pub fn with_context(&self, context: String) -> (r: Scope)
        ensures
            r@ == (SpecScope { context: context@, bindings: self@.bindings }),
    {
        Scope { context, bindings: clone_bindings(&self.bindings) }
    }

    /// A new scope extended with one binding; the receiver is not
    /// changed.  The new bind shadows earlier binds of the same name.
    pub fn bind(&self, name: String, value: LispVal) -> (r: Scope)
        ensures
            r@ == self@.bind_spec(name@, value@),
    {
        let mut bindings = clone_bindings(&self.bindings);
        let ghost pre = bindings@;
        bindings.push((name, value));
        proof {
            let p = bindings@.last();
            assert(bindings_view(bindings@) =~= bindings_view(pre).push((p.0@, p.1.deep())));
        }
        Scope { context: self.context.clone(), bindings }
    }

    /// The union of two scopes with the same context; where both bind
    /// a name, the receiver's binding wins.
    pub fn merge(&self, other: &Scope) -> (r: Scope)
        requires
            self@.context == other@.context,
        ensures
            r@ == (SpecScope {
                context: self@.context,
                bindings: other@.bindings + self@.bindings,
            }),
    {
        let mut bindings = clone_bindings(&other.bindings);
        let ghost head = bindings@;
        let mut mine = clone_bindings(&self.bindings);
        let ghost tail = mine@;
        bindings.append(&mut mine);
        proof {
            assert(bindings_view(head + tail) =~= bindings_view(head) + bindings_view(tail));
        }
        Scope { context: self.context.clone(), bindings }
    }

    /// The value bound to `name`, if any; the most recent bind wins.
    pub fn get(&self, name: &str) -> (r: Option<&LispVal>)
        ensures
            match r {
                Some(v) => self@.lookup(name@) == Some(v.deep()),
                None => self@.lookup(name@) is None,
            },
    {
        let n = self.bindings.len();
        let mut i: usize = n;
        proof {
            assert(bindings_view(self.bindings@).take(n as int) =~= bindings_view(self.bindings@));
        }
        while i > 0
            invariant
                n == self.bindings@.len(),
                i <= n,
                lookup_in(bindings_view(self.bindings@).take(i as int), name@)
                    == self@.lookup(name@),
            decreases i,
        {
            let pair = &self.bindings[i - 1];
            proof {
                assert(bindings_view(self.bindings@).take(i as int).last()
                    == (self.bindings@[i - 1].0@, self.bindings@[i - 1].1.deep()));
                assert(bindings_view(self.bindings@).take(i as int).drop_last()
                    =~= bindings_view(self.bindings@).take(i - 1));
            }
            if str_eq(pair.0.as_str(), name) {
                return Some(&pair.1);
            }
            i = i - 1;
        }
        proof {
            assert(bindings_view(self.bindings@).take(0) =~= Seq::<(Seq<char>, SpecVal)>::empty());
        }
        None
    }

    /// Whether this scope holds no bindings at all.
    pub fn is_empty(&self) -> (r: bool)
        ensures
            r == (self@.bindings.len() == 0),
    {
        self.bindings.len() == 0
    }

    /// A full copy of this scope.
    pub fn deep_clone(&self) -> (r: Scope)
        ensures
            r@ == self@,
    {
        Scope { context: self.context.clone(), bindings: clone_bindings(&self.bindings) }
    }
}

} // verus!
