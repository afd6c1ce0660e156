//! Evaluation core of a small homoiconic Lisp-family language.
//!
//! The library interprets already-parsed expression trees, manages
//! persistent lexical environments, and implements a uniform mix of
//! native primitives and user-defined closures supporting currying.
//!
//! The language's meaning lives in [`semantics`], as specification
//! functions over the models in [`value`], [`scope`] and [`errors`];
//! the executable evaluator in [`evaluation`] is proved to return
//! exactly those semantics.  [`parsing`] turns text into expression
//! trees and [`display`] renders values, scopes and errors back to
//! text, each against its own specification.  [`laws`] states and
//! proves the properties the evaluator obeys, and [`invariants`]
//! proves that every function value escaping a call stays
//! under-saturated.  [`repl`] is the pure read-evaluate round an
//! interactive host drives.

pub mod display;
pub mod errors;
pub mod evaluation;
pub mod invariants;
pub mod laws;
pub mod natives;
pub mod parsing;
pub mod repl;
pub mod scope;
pub mod semantics;
pub mod strutil;
pub mod value;
