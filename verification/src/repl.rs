//! The read-evaluate pipeline the interactive host drives: parsing a
//! line of text, checking that nothing trails it, evaluating it, and
//! resetting the scope's context label for the next round.  Reading
//! lines and displaying results stay with the host.

use vstd::prelude::*;

use crate::display::spec_render_error;
use crate::evaluation::{eval, DEFAULT_DEPTH};
use crate::parsing::{parse, spec_parse};
use crate::scope::{Scope, SpecScope};
use crate::semantics::spec_eval;
use crate::value::{LispVal, SpecVal};

verus! {

/// Everything the read-evaluate round can report instead of a value.
#[derive(Debug, PartialEq)]
pub enum REPLError {
    /// Reading input failed or ended; produced by the host.
    ReadlineError(String),
    /// The input did not parse, or trailing text followed the
    /// expression.
    ParseError(String),
    /// Evaluation failed; carries the rendered evaluation error.
    EvaluationError(String),
}

/// The mathematical model of a [`REPLError`].
pub ghost enum SpecReplErr {
    ReadlineError(Seq<char>),
    ParseError(Seq<char>),
    EvaluationError(Seq<char>),
}

impl View for REPLError {
    type V = SpecReplErr;

    open spec fn view(&self) -> SpecReplErr {
        match self {
            REPLError::ReadlineError(s) => SpecReplErr::ReadlineError(s@),
            REPLError::ParseError(s) => SpecReplErr::ParseError(s@),
            REPLError::EvaluationError(s) => SpecReplErr::EvaluationError(s@),
        }
    }
}

/// The message reported when the input does not match the grammar.
pub open spec fn spec_no_parse_message() -> Seq<char> {
    "Unable to parse the input"@
}

/// The message reported when parseable input is followed by more text.
pub open spec fn spec_trailing_message(rest: Seq<char>) -> Seq<char> {
    "Unexpected input: "@ + rest
}

/// What one read-evaluate round returns for a given scope and line of
/// input.
pub open spec fn spec_evaluate(env: SpecScope, s: Seq<char>) -> Result<
    (SpecScope, SpecVal),
    SpecReplErr,
> {
    match spec_parse(s) {
        None => Err(SpecReplErr::ParseError(spec_no_parse_message())),
        Some((v, p)) => if s.skip(p).len() != 0 {
            Err(SpecReplErr::ParseError(spec_trailing_message(s.skip(p))))
        } else {
            match spec_eval(env, v, DEFAULT_DEPTH as nat) {
                Err(e) => Err(SpecReplErr::EvaluationError(spec_render_error(e))),
                Ok((env2, value)) => Ok(
                    (SpecScope { context: "main"@, bindings: env2.bindings }, value),
                ),
            }
        },
    }
}

/// Accepts a parse result only if nothing trails the expression.
pub fn unwrap_expression(parse_result: (LispVal, String)) -> (r: Result<LispVal, REPLError>)
    ensures
        match r {
            Ok(v) => v@ == parse_result.0@ && parse_result.1@.len() == 0,
            Err(e) => parse_result.1@.len() != 0 && e@ == SpecReplErr::ParseError(
                spec_trailing_message(parse_result.1@),
            ),
        },
{
    let (expr, rest) = parse_result;
    if rest.as_str().unicode_len() == 0 {
        Ok(expr)
    } else {
        let mut message = String::new();
        message.append("Unexpected input: ");
        message.append(rest.as_str());
        proof {
            assert(message@ =~= spec_trailing_message(rest@));
        }
        Err(REPLError::ParseError(message))
    }
}

/// One read-evaluate round: parses `input`, rejects trailing text,
/// evaluates the expression under `scope`, and stamps the returned
/// scope's context back to `main` (see [`spec_evaluate`]).
pub fn evaluate(scope: Scope, input: &str) -> (r: Result<(Scope, LispVal), REPLError>)
    ensures
        match (r, spec_evaluate(scope@, input@)) {
            (Ok((s2, v)), Ok((ss, sv))) => s2@ == ss && v@ == sv,
            (Err(e), Err(se)) => e@ == se,
            _ => false,
        },
{
    let parsed = match parse(input) {
        Err(_) => {
            let mut message = String::new();
            message.append("Unable to parse the input");
            proof {
                assert(message@ =~= spec_no_parse_message());
            }
            return Err(REPLError::ParseError(message));
        },
        Ok(p) => p,
    };
    let expr = match unwrap_expression(parsed) {
        Err(e) => {
            return Err(e);
        },
        Ok(v) => v,
    };
    match eval(scope, &expr) {
        Err(e) => {
            let message = e.render();
            Err(REPLError::EvaluationError(message))
        },
        Ok((scope2, value)) => {
            let scope3 = scope2.with_context("main".to_owned());
            Ok((scope3, value))
        },
    }
}

} // verus!
