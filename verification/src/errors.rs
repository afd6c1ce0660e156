//! The typed error values surfaced by coercions and by evaluation.

use vstd::prelude::*;

use crate::value::{deeps, LispType, LispVal, SpecVal};

verus! {

/// A coercion from a value to a native type failed: the value's kind
/// did not match the kind the caller asked for.
#[derive(Debug, PartialEq, Eq, Structural, Clone, Copy)]
pub struct LispValUnwrapError {
    pub expected: LispType,
    pub got: LispType,
}

/// Everything that can go wrong during evaluation, as tagged values
/// rather than control-flow exceptions.
#[derive(Debug, PartialEq)]
pub enum EvalError {
    /// A callable was given more arguments than its parameter count.
    InvalidArgumentsCount { name: String, expected: usize, got: usize },
    /// A coercion failed at a specific argument slot.
    InvalidArgumentType { name: String, expected: LispType, got: LispType, position: usize },
    /// `concat` was given a kind pair it does not support.
    InvalidConcatenation { left: LispType, right: LispType },
    /// The call position of a list held a value that is neither a
    /// symbol, a bound callable, nor a function; carries the full
    /// offending form so a corrected suggestion can be rendered.
    InvalidFunctionCall { values: Vec<LispVal> },
    /// A symbol lookup or registry lookup missed.
    UnknownIdentifier(String),
    /// A sequence was accessed past its length (`head` or `tail` of an
    /// empty sequence).
    ListOverflow { access: usize, count: usize },
    /// Division or modulo by zero.
    DivisionByZero { name: String },
    /// An arithmetic primitive left the 64-bit signed range.
    ArithmeticOverflow { name: String },
    /// The evaluation budget ran out; deep or unbounded recursion is
    /// reported as this recoverable error instead of exhausting the
    /// interpreter's stack.
    RecursionDepthExceeded,
}

/// The mathematical model of an [`EvalError`].
pub ghost enum SpecErr {
    InvalidArgumentsCount { name: Seq<char>, expected: nat, got: nat },
    InvalidArgumentType { name: Seq<char>, expected: LispType, got: LispType, position: nat },
    InvalidConcatenation { left: LispType, right: LispType },
    InvalidFunctionCall { values: Seq<SpecVal> },
    UnknownIdentifier(Seq<char>),
    ListOverflow { access: nat, count: nat },
    DivisionByZero { name: Seq<char> },
    ArithmeticOverflow { name: Seq<char> },
    RecursionDepthExceeded,
}

impl View for EvalError {
    type V = SpecErr;

    open spec fn view(&self) -> SpecErr {
        match *self {
            EvalError::InvalidArgumentsCount { ref name, expected, got } =>
                SpecErr::InvalidArgumentsCount {
                    name: name@,
                    expected: expected as nat,
                    got: got as nat,
                },
            EvalError::InvalidArgumentType { ref name, expected, got, position } =>
                SpecErr::InvalidArgumentType {
                    name: name@,
                    expected,
                    got,
                    position: position as nat,
                },
            EvalError::InvalidConcatenation { left, right } =>
                SpecErr::InvalidConcatenation { left, right },
            EvalError::InvalidFunctionCall { ref values } =>
                SpecErr::InvalidFunctionCall { values: deeps(values@) },
            EvalError::UnknownIdentifier(ref name) => SpecErr::UnknownIdentifier(name@),
            EvalError::ListOverflow { access, count } => SpecErr::ListOverflow {
                access: access as nat,
                count: count as nat,
            },
            EvalError::DivisionByZero { ref name } => SpecErr::DivisionByZero { name: name@ },
            EvalError::ArithmeticOverflow { ref name } =>
                SpecErr::ArithmeticOverflow { name: name@ },
            EvalError::RecursionDepthExceeded => SpecErr::RecursionDepthExceeded,
        }
    }
}

impl EvalError {
    /// The argument-slot error for a failed coercion at `position`
    /// inside the call named by `name`.
    pub fn from_arg(position: usize, name: &str, e: LispValUnwrapError) -> (r: EvalError)
        ensures
            r@ == (SpecErr::InvalidArgumentType {
                name: name@,
                expected: e.expected,
                got: e.got,
                position: position as nat,
            }),
    {
        EvalError::InvalidArgumentType {
            name: name.to_owned(),
            expected: e.expected,
            got: e.got,
            position,
        }
    }

    /// The invalid-call error for a head named `name` applied to
    /// `args`, carrying the whole reconstructed form.
    pub fn from_invoke(args: &Vec<LispVal>, name: &str) -> (r: EvalError)
        ensures
            r@ == (SpecErr::InvalidFunctionCall {
                values: seq![SpecVal::Symbol(name@)] + deeps(args@),
            }),
    {
        let mut values: Vec<LispVal> = Vec::new();
        values.push(LispVal::Symbol(name.to_owned()));
        let ghost head = values@;
        let mut rest = crate::value::clone_values(args);
        let ghost tail = rest@;
        values.append(&mut rest);
        proof {
            crate::value::lemma_deeps_concat(head, tail);
            assert(head =~= seq![head[0]]);
            crate::value::lemma_deeps_one(head[0]);
            assert(deeps(head) =~= seq![SpecVal::Symbol(name@)]);
        }
        EvalError::InvalidFunctionCall { values }
    }
}

} // verus!
