//! The errors that reading and evaluating can end in.

use vstd::prelude::*;

verus! {

/// What went wrong. Every fallible operation of the library returns one of
/// these as an ordinary value.
#[derive(Debug, Clone, Copy, PartialEq, Eq, Structural)]
pub enum Error {
    /// A cons cell was expected and something else was found.
    NotCons,
    /// An integer was expected and something else was found.
    NotInteger,
    /// A symbol was expected and something else was found.
    NotSymbol,
    /// The input holds a byte sequence that is not well-formed UTF-8.
    InputError,
    /// An integer literal is malformed or does not fit 32 bits.
    ParseError,
    /// A symbol was looked up that no frame binds.
    UnboundSymbol,
    /// `DEF` was asked to bind a symbol that is already bound.
    AlreadyDefined,
    /// Something that is neither an operator nor a lambda was applied.
    NotCallable,
    /// A closing parenthesis stands where an expression must begin.
    UnexpectedCloseList,
    /// The input ended inside a list.
    UnexpectedEndOfInput,
    /// A token that the reader reserves and does not yet handle.
    UnimplementedToken,
    /// An arithmetic result does not fit a signed 32-bit integer.
    Overflow,
    /// An integer was divided by zero.
    DivisionByZero,
    /// Evaluation nested deeper than the limit handed to the evaluator.
    DepthExceeded,
}

} // verus!
