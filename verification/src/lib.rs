//! The core of a small Lisp interpreter: a tokenizer over UTF-8 bytes, a reader
//! that turns tokens into a graph of shared values, and an evaluator with a
//! scoped environment, special forms, lambdas and built-in operators.
//!
//! Every executable function is verified against a mathematical model: values
//! are described by [`object::Value`], environments by a sequence of frames, and
//! the evaluator by [`evaluator::semantics::eval_spec`].

pub mod environment;
pub mod errors;
pub mod evaluator;
pub mod object;
pub mod reader;
pub mod text;
