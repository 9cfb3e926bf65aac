//! The expression tree produced by the parser and consumed by the code
//! generator.

use vstd::prelude::*;

verus! {

/// One source-level expression: either an invocation of a named function with
/// ordered arguments, or a string literal.
#[derive(Debug, PartialEq)]
pub enum Expression {
    Invocation(String, Vec<Expression>),
    StringLiteral(String),
}

/// The keywords of the language.
#[derive(Debug, PartialEq)]
pub enum Keyword {
    Func,
}

} // verus!
