//! Rendering of values, scopes and errors back to text.
//!
//! The render grammar: unit renders as `void`; numbers in decimal;
//! booleans as `true`/`false`; text double-quoted; symbols bare; a
//! quoted value as `'` before its contents; a function as
//! `(fn! <body> [<param>=<applied>, ...])`; a sequence as its
//! space-joined elements in parentheses.  Rendered output parses back
//! through the grammar wherever the value's own text permits it.

use vstd::prelude::*;

use crate::errors::{EvalError, LispValUnwrapError, SpecErr};
use crate::scope::{bindings_view, Scope, SpecScope};
use crate::strutil::{push_char, push_i64, spec_dec_digits, spec_i64_str};
use crate::value::{deeps, lemma_deeps, LispType, LispVal, SpecVal};

verus! {

/// The rendered text of a modeled value.
pub open spec fn spec_render(v: SpecVal) -> Seq<char>
    decreases v,
{
    match v {
        SpecVal::Void => seq!['v', 'o', 'i', 'd'],
        SpecVal::Symbol(s) => s,
        SpecVal::Number(n) => spec_i64_str(n),
        SpecVal::Text(s) => seq!['"'] + s + seq!['"'],
        SpecVal::Boolean(b) => if b {
            seq!['t', 'r', 'u', 'e']
        } else {
            seq!['f', 'a', 'l', 's', 'e']
        },
        SpecVal::Unevaluated(b) => seq!['\''] + spec_render(*b),
        SpecVal::Function { parameters, body, applied } => seq!['(', 'f', 'n', '!', ' ']
            + spec_render(*body) + seq![' ', '['] + spec_render_bindings(parameters, applied)
            + seq![']', ')'],
        SpecVal::List(vs) => seq!['('] + spec_render_join(vs) + seq![')'],
    }
}

/// The space-joined renders of a sequence of values.
pub open spec fn spec_render_join(vs: Seq<SpecVal>) -> Seq<char>
    decreases vs,
{
    if vs.len() == 0 {
        Seq::empty()
    } else if vs.len() == 1 {
        spec_render(vs[0])
    } else {
        spec_render(vs[0]) + seq![' '] + spec_render_join(vs.drop_first())
    }
}

/// The `name=value` pairs of a function's filled parameter slots,
/// joined by commas.
pub open spec fn spec_render_bindings(params: Seq<Seq<char>>, applied: Seq<SpecVal>) -> Seq<char>
    decreases applied,
{
    if params.len() == 0 || applied.len() == 0 {
        Seq::empty()
    } else if params.len() == 1 || applied.len() == 1 {
        params[0] + seq!['='] + spec_render(applied[0])
    } else {
        params[0] + seq!['='] + spec_render(applied[0]) + seq![',', ' ']
            + spec_render_bindings(params.drop_first(), applied.drop_first())
    }
}

/// The rendered name of a kind tag.
pub open spec fn spec_render_type(t: LispType) -> Seq<char> {
    match t {
        LispType::Any => "any"@,
        LispType::Symbol => "symbol"@,
        LispType::Text => "text"@,
        LispType::List => "list"@,
        LispType::Number => "number"@,
        LispType::Boolean => "boolean"@,
        LispType::Function => "function"@,
        LispType::Void => "void"@,
    }
}

impl LispVal {
    /// Renders this value (see [`spec_render`]).
    pub fn render(&self) -> (r: String)
        ensures
            r@ == spec_render(self@),
        decreases self, 1int,
    {
        match self {
            LispVal::Void() => {
                let mut s = String::new();
                s.append("void");
                proof {
                    reveal_strlit("void");
                    assert(s@ =~= spec_render(self@));
                }
                s
            },
            LispVal::Symbol(name) => name.clone(),
            LispVal::Number(n) => crate::strutil::i64_to_string(*n),
            LispVal::Text(t) => {
                let mut s = String::new();
                push_char(&mut s, '"');
                s.append(t.as_str());
                push_char(&mut s, '"');
                proof {
                    assert(s@ =~= seq!['"'] + t@ + seq!['"']);
                }
                s
            },
            LispVal::Boolean(b) => {
                let mut s = String::new();
                if *b {
                    s.append("true");
                } else {
                    s.append("false");
                }
                proof {
                    reveal_strlit("true");
                    reveal_strlit("false");
                    assert(s@ =~= spec_render(self@));
                }
                s
            },
            LispVal::Unevaluated(inner) => {
                let mut s = String::new();
                push_char(&mut s, '\'');
                let body = (**inner).render();
                s.append(body.as_str());
                proof {
                    assert(s@ =~= seq!['\''] + spec_render((*inner)@));
                }
                s
            },
            LispVal::Function { parameters, body, applied } => {
                let mut s = String::new();
                push_char(&mut s, '(');
                push_char(&mut s, 'f');
                push_char(&mut s, 'n');
                push_char(&mut s, '!');
                push_char(&mut s, ' ');
                let ghost prefix = s@;
                proof {
                    assert(prefix =~= seq!['(', 'f', 'n', '!', ' ']);
                }
                let rendered_body = (**body).render();
                s.append(rendered_body.as_str());
                push_char(&mut s, ' ');
                push_char(&mut s, '[');
                let slots = render_bindings_from(parameters, applied, 0);
                s.append(slots.as_str());
                push_char(&mut s, ']');
                push_char(&mut s, ')');
                proof {
                    assert(parameters.deep_view().skip(0) =~= parameters.deep_view());
                    assert(deeps(applied@).skip(0) =~= deeps(applied@));
                    assert(s@ =~= spec_render(self@));
                }
                s
            },
            LispVal::List(vs) => {
                let mut s = String::new();
                push_char(&mut s, '(');
                let inner = render_join_from(vs, 0);
                s.append(inner.as_str());
                push_char(&mut s, ')');
                proof {
                    assert(deeps(vs@).skip(0) =~= deeps(vs@));
                    assert(s@ =~= seq!['('] + spec_render_join(deeps(vs@)) + seq![')']);
                }
                s
            },
        }
    }
}

/// The space-joined renders of the values from `idx` on.
fn render_join_from(vs: &Vec<LispVal>, idx: usize) -> (r: String)
    requires
        idx <= vs@.len(),
    ensures
        r@ == spec_render_join(deeps(vs@).skip(idx as int)),
    decreases vs, 0int, vs@.len() - idx,
{
    proof {
        lemma_deeps(vs@);
    }
    let n = vs.len();
    if idx == n {
        proof {
            assert(deeps(vs@).skip(idx as int) =~= Seq::<SpecVal>::empty());
        }
        String::new()
    } else if idx == n - 1 {
        proof {
            assert(deeps(vs@).skip(idx as int) =~= seq![deeps(vs@)[idx as int]]);
        }
        vs[idx].render()
    } else {
        let mut s = vs[idx].render();
        push_char(&mut s, ' ');
        let rest = render_join_from(vs, idx + 1);
        s.append(rest.as_str());
        proof {
            let tail = deeps(vs@).skip(idx as int);
            assert(tail[0] == deeps(vs@)[idx as int]);
            assert(tail.drop_first() =~= deeps(vs@).skip(idx + 1));
            assert(s@ =~= spec_render(tail[0]) + seq![' '] + spec_render_join(tail.drop_first()));
        }
        s
    }
}

/// The comma-joined `name=value` slots from `idx` on.
fn render_bindings_from(params: &Vec<String>, applied: &Vec<LispVal>, idx: usize) -> (r: String)
    requires
        idx <= params@.len(),
        idx <= applied@.len(),
    ensures
        r@ == spec_render_bindings(
            params.deep_view().skip(idx as int),
            deeps(applied@).skip(idx as int),
        ),
    decreases applied, 0int, applied@.len() - idx,
{
    proof {
        lemma_deeps(applied@);
    }
    let np = params.len();
    let na = applied.len();
    let ghost ps = params.deep_view().skip(idx as int);
    let ghost vs = deeps(applied@).skip(idx as int);
    if idx == np || idx == na {
        proof {
            assert(ps.len() == 0 || vs.len() == 0);
        }
        String::new()
    } else if idx == np - 1 || idx == na - 1 {
        let mut s = params[idx].clone();
        push_char(&mut s, '=');
        let v = applied[idx].render();
        s.append(v.as_str());
        proof {
            assert(ps[0] == params.deep_view()[idx as int]);
            assert(vs[0] == deeps(applied@)[idx as int]);
            assert(s@ =~= ps[0] + seq!['='] + spec_render(vs[0]));
        }
        s
    } else {
        let mut s = params[idx].clone();
        push_char(&mut s, '=');
        let v = applied[idx].render();
        s.append(v.as_str());
        push_char(&mut s, ',');
        push_char(&mut s, ' ');
        let rest = render_bindings_from(params, applied, idx + 1);
        s.append(rest.as_str());
        proof {
            assert(ps[0] == params.deep_view()[idx as int]);
            assert(vs[0] == deeps(applied@)[idx as int]);
            assert(ps.drop_first() =~= params.deep_view().skip(idx + 1));
            assert(vs.drop_first() =~= deeps(applied@).skip(idx + 1));
            assert(s@ =~= ps[0] + seq!['='] + spec_render(vs[0]) + seq![',', ' ']
                + spec_render_bindings(ps.drop_first(), vs.drop_first()));
        }
        s
    }
}

/// Renders a kind tag (see [`spec_render_type`]).
pub fn render_type(t: LispType) -> (r: String)
    ensures
        r@ == spec_render_type(t),
{
    let mut s = String::new();
    match t {
        LispType::Any => s.append("any"),
        LispType::Symbol => s.append("symbol"),
        LispType::Text => s.append("text"),
        LispType::List => s.append("list"),
        LispType::Number => s.append("number"),
        LispType::Boolean => s.append("boolean"),
        LispType::Function => s.append("function"),
        LispType::Void => s.append("void"),
    }
    proof {
        assert(s@ =~= spec_render_type(t));
    }
    s
}

/// The rendered text of a coercion error.
pub open spec fn spec_render_unwrap_error(e: LispValUnwrapError) -> Seq<char> {
    "Expected "@ + spec_render_type(e.expected) + ", got "@ + spec_render_type(e.got)
}

impl LispValUnwrapError {
    /// Renders this coercion error (see [`spec_render_unwrap_error`]).
    pub fn render(&self) -> (r: String)
        ensures
            r@ == spec_render_unwrap_error(*self),
    {
        let mut s = String::new();
        s.append("Expected ");
        let t1 = render_type(self.expected);
        s.append(t1.as_str());
        s.append(", got ");
        let t2 = render_type(self.got);
        s.append(t2.as_str());
        proof {
            assert(s@ =~= spec_render_unwrap_error(*self));
        }
        s
    }
}

/// The rendered text of an evaluation error.  An invalid call's
/// diagnostic carries a corrected, quoted form of the offending
/// expression, so the caller can tell whether a literal sequence was
/// intended.
pub open spec fn spec_render_error(e: SpecErr) -> Seq<char> {
    match e {
        SpecErr::InvalidArgumentsCount { name, expected, got } => if got < expected {
            "Too few arguments for `"@ + name + "`, expected `"@ + spec_dec_digits(expected)
                + "`, got `"@ + spec_dec_digits(got) + "`"@
        } else {
            "Too many arguments for `"@ + name + "`, expected `"@ + spec_dec_digits(expected)
                + "`, got `"@ + spec_dec_digits(got) + "`"@
        },
        SpecErr::InvalidArgumentType { name, expected, got, position } =>
            "Invalid argument type for `"@ + name + "` at position `"@ + spec_dec_digits(position)
                + "`, expected `"@ + spec_render_type(expected) + "`, got `"@
                + spec_render_type(got) + "`"@,
        SpecErr::InvalidConcatenation { left, right } =>
            "Invalid argument types, cannot concat `"@ + spec_render_type(left) + "` and `"@
                + spec_render_type(right) + "`"@,
        SpecErr::InvalidFunctionCall { values } => if values.len() == 0 {
            "Invalid function call"@
        } else {
            "Invalid function call, got `"@ + spec_render(values[0]) + "` of type `"@
                + spec_render_type(values[0].ty()) + "`. \nIs this supposed to be a list? If so, use `"@
                + spec_render(SpecVal::Unevaluated(Box::new(SpecVal::List(values)))) + "`"@
        },
        SpecErr::UnknownIdentifier(name) => "Unknown identifier `"@ + name + "`."@,
        SpecErr::ListOverflow { access, count } => "List overflow, tried to access `"@
            + spec_dec_digits(access) + "` in list of length `"@ + spec_dec_digits(count) + "`"@,
        SpecErr::DivisionByZero { name } => "Division by zero in `"@ + name + "`"@,
        SpecErr::ArithmeticOverflow { name } => "Arithmetic overflow in `"@ + name + "`"@,
        SpecErr::RecursionDepthExceeded => "Recursion depth exceeded"@,
    }
}

/// Appends the decimal digits of a length or position.
fn push_usize(s: &mut String, n: usize)
    ensures
        final(s)@ == old(s)@ + spec_dec_digits(n as nat),
{
    crate::strutil::push_dec_digits(s, n as u64);
}

impl EvalError {
    /// Renders this evaluation error (see [`spec_render_error`]).
    pub fn render(&self) -> (r: String)
        ensures
            r@ == spec_render_error(self@),
    {
        match self {
            EvalError::InvalidArgumentsCount { name, expected, got } => {
                let mut s = String::new();
                if got < expected {
                    s.append("Too few arguments for `");
                } else {
                    s.append("Too many arguments for `");
                }
                s.append(name.as_str());
                s.append("`, expected `");
                push_usize(&mut s, *expected);
                s.append("`, got `");
                push_usize(&mut s, *got);
                s.append("`");
                proof {
                    assert(s@ =~= spec_render_error(self@));
                }
                s
            },
            EvalError::InvalidArgumentType { name, expected, got, position } => {
                let mut s = String::new();
                s.append("Invalid argument type for `");
                s.append(name.as_str());
                s.append("` at position `");
                push_usize(&mut s, *position);
                s.append("`, expected `");
                let t1 = render_type(*expected);
                s.append(t1.as_str());
                s.append("`, got `");
                let t2 = render_type(*got);
                s.append(t2.as_str());
                s.append("`");
                proof {
                    assert(s@ =~= spec_render_error(self@));
                }
                s
            },
            EvalError::InvalidConcatenation { left, right } => {
                let mut s = String::new();
                s.append("Invalid argument types, cannot concat `");
                let t1 = render_type(*left);
                s.append(t1.as_str());
                s.append("` and `");
                let t2 = render_type(*right);
                s.append(t2.as_str());
                s.append("`");
                proof {
                    assert(s@ =~= spec_render_error(self@));
                }
                s
            },
            EvalError::InvalidFunctionCall { values } => {
                let mut s = String::new();
                if values.len() == 0 {
                    s.append("Invalid function call");
                    proof {
                        assert(deeps(values@) =~= Seq::<SpecVal>::empty());
                        assert(s@ =~= spec_render_error(self@));
                    }
                    s
                } else {
                    proof {
                        lemma_deeps(values@);
                    }
                    s.append("Invalid function call, got `");
                    let head = values[0].render();
                    s.append(head.as_str());
                    s.append("` of type `");
                    let t = render_type(values[0].to_type());
                    s.append(t.as_str());
                    s.append("`. \nIs this supposed to be a list? If so, use `");
                    let corrected = LispVal::List(crate::value::clone_values(values))
                        .to_unevaluated();
                    let ghost correctedv = corrected@;
                    let ct = corrected.render();
                    s.append(ct.as_str());
                    s.append("`");
                    proof {
                        assert(correctedv == SpecVal::Unevaluated(
                            Box::new(SpecVal::List(deeps(values@))),
                        ));
                        assert(s@ =~= spec_render_error(self@));
                    }
                    s
                }
            },
            EvalError::UnknownIdentifier(name) => {
                let mut s = String::new();
                s.append("Unknown identifier `");
                s.append(name.as_str());
                s.append("`.");
                proof {
                    assert(s@ =~= spec_render_error(self@));
                }
                s
            },
            EvalError::ListOverflow { access, count } => {
                let mut s = String::new();
                s.append("List overflow, tried to access `");
                push_usize(&mut s, *access);
                s.append("` in list of length `");
                push_usize(&mut s, *count);
                s.append("`");
                proof {
                    assert(s@ =~= spec_render_error(self@));
                }
                s
            },
            EvalError::DivisionByZero { name } => {
                let mut s = String::new();
                s.append("Division by zero in `");
                s.append(name.as_str());
                s.append("`");
                proof {
                    assert(s@ =~= spec_render_error(self@));
                }
                s
            },
            EvalError::ArithmeticOverflow { name } => {
                let mut s = String::new();
                s.append("Arithmetic overflow in `");
                s.append(name.as_str());
                s.append("`");
                proof {
                    assert(s@ =~= spec_render_error(self@));
                }
                s
            },
            EvalError::RecursionDepthExceeded => {
                let mut s = String::new();
                s.append("Recursion depth exceeded");
                proof {
                    assert(s@ =~= spec_render_error(self@));
                }
                s
            },
        }
    }
}

/// The rendered bindings of a scope, oldest first.
pub open spec fn spec_render_scope_bindings(bs: Seq<(Seq<char>, SpecVal)>) -> Seq<char>
    decreases bs.len(),
{
    if bs.len() == 0 {
        Seq::empty()
    } else if bs.len() == 1 {
        bs[0].0 + ": "@ + spec_render(bs[0].1)
    } else {
        bs[0].0 + ": "@ + spec_render(bs[0].1) + ", "@ + spec_render_scope_bindings(
            bs.drop_first(),
        )
    }
}

/// The rendered text of a scope: its bindings inside braces.
pub open spec fn spec_render_scope(s: SpecScope) -> Seq<char> {
    "{ "@ + spec_render_scope_bindings(s.bindings) + " }"@
}

impl Scope {
    /// Renders this scope (see [`spec_render_scope`]).
    pub fn render(&self) -> (r: String)
        ensures
            r@ == spec_render_scope(self@),
    {
        let mut s = String::new();
        s.append("{ ");
        let inner = render_scope_bindings_from(&self.bindings, 0);
        s.append(inner.as_str());
        s.append(" }");
        proof {
            assert(bindings_view(self.bindings@).skip(0) =~= bindings_view(self.bindings@));
            assert(s@ =~= spec_render_scope(self@));
        }
        s
    }
}

/// The rendered bindings from `idx` on.
fn render_scope_bindings_from(bs: &Vec<(String, LispVal)>, idx: usize) -> (r: String)
    requires
        idx <= bs@.len(),
    ensures
        r@ == spec_render_scope_bindings(bindings_view(bs@).skip(idx as int)),
    decreases bs@.len() - idx,
{
    let n = bs.len();
    let ghost view = bindings_view(bs@).skip(idx as int);
    if idx == n {
        proof {
            assert(view =~= Seq::<(Seq<char>, SpecVal)>::empty());
        }
        String::new()
    } else if idx == n - 1 {
        let mut s = bs[idx].0.clone();
        s.append(": ");
        let v = bs[idx].1.render();
        s.append(v.as_str());
        proof {
            assert(view[0] == (bs@[idx as int].0@, bs@[idx as int].1.deep()));
            assert(s@ =~= view[0].0 + ": "@ + spec_render(view[0].1));
        }
        s
    } else {
        let mut s = bs[idx].0.clone();
        s.append(": ");
        let v = bs[idx].1.render();
        s.append(v.as_str());
        s.append(", ");
        let rest = render_scope_bindings_from(bs, idx + 1);
        s.append(rest.as_str());
        proof {
            assert(view[0] == (bs@[idx as int].0@, bs@[idx as int].1.deep()));
            assert(view.drop_first() =~= bindings_view(bs@).skip(idx + 1));
            assert(s@ =~= view[0].0 + ": "@ + spec_render(view[0].1) + ", "@
                + spec_render_scope_bindings(view.drop_first()));
        }
        s
    }
}

} // verus!
