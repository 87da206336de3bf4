//! What evaluation means: the mathematical function that gives, for an
//! expression and the frames of an environment, the result and the frames
//! afterwards.

use crate::environment::{bind_root, lookup, Frame, Frames};
use crate::errors::Error;
use crate::evaluator::operators::{first_of, first_two, primitive_spec};
use crate::object::Value;
use vstd::prelude::*;

verus! {

/// What an evaluation ends in: its result, and the frames that it leaves.
pub type Outcome = (Result<Value, Error>, Frames);

/// Whether the value is the symbol with the given name.
pub open spec fn is_symbol(value: Value, name: Seq<char>) -> bool {
    value == Value::Symbol(name)
}

/// The first three elements of a list; `NotCons` where it has fewer.
pub open spec fn first_three(list: Value) -> Result<(Value, Value, Value), Error> {
    match list {
        Value::Cons(first, rest) => match first_two(*rest) {
            Ok((second, third)) => Ok((*first, second, third)),
            Err(e) => Err(e),
        },
        _ => Err(Error::NotCons),
    }
}

/// The lambda that the form `(LAMBDA params body)` makes, given what follows
/// the word `LAMBDA`.
pub open spec fn lambda_spec(rest: Value) -> Result<Value, Error> {
    match first_two(rest) {
        Ok((params, body)) => Ok(Value::Lambda(Box::new(params), Box::new(body))),
        Err(e) => Err(e),
    }
}

/// The frame of an activation: the parameters bound to the arguments, one by
/// one, until either list ends. It starts from `scope`.
pub open spec fn bind_parameters(params: Value, args: Value, scope: Frame) -> Result<Frame, Error>
    decreases params,
{
    if args is Nil || params is Nil {
        Ok(scope)
    } else {
        match (args, params) {
            (Value::Cons(value, more_args), Value::Cons(param, more_params)) => match *param {
                Value::Symbol(name) => bind_parameters(
                    *more_params,
                    *more_args,
                    scope.insert(name, *value),
                ),
                _ => Err(Error::NotSymbol),
            },
            (_, _) => Err(Error::NotCons),
        }
    }
}

/// What the expression evaluates to in the given frames, with nesting of
/// evaluation limited to `depth`.
///
/// Nil evaluates to Nil, a symbol to what it is bound to, every other value
/// that is no list to itself. A list is a special form where its head is one
/// of the symbols `QUOTE`, `LAMBDA`, `IF` and `DEF`, and an application
/// otherwise. `QUOTE` and `LAMBDA` evaluate nothing. Every other list needs a
/// `depth` above zero, and evaluates its parts with one less.
pub open spec fn eval_spec(expr: Value, frames: Frames, depth: nat) -> Outcome
    decreases depth, 0nat, 0nat,
{
    match expr {
        Value::Nil => (Ok(Value::Nil), frames),
        Value::Symbol(name) => (
            match lookup(frames, name) {
                Some(value) => Ok(value),
                None => Err(Error::UnboundSymbol),
            },
            frames,
        ),
        Value::Cons(head, rest) => if is_symbol(*head, "QUOTE"@) {
            (first_of(*rest), frames)
        } else if is_symbol(*head, "LAMBDA"@) {
            (lambda_spec(*rest), frames)
        } else if depth == 0 {
            (Err(Error::DepthExceeded), frames)
        } else if is_symbol(*head, "IF"@) {
            if_spec(*rest, frames, (depth - 1) as nat)
        } else if is_symbol(*head, "DEF"@) {
            def_spec(*rest, frames, (depth - 1) as nat)
        } else {
            call_spec(*head, *rest, frames, (depth - 1) as nat)
        },
        _ => (Ok(expr), frames),
    }
}

/// `(IF test consequent alternative)`: the test is evaluated, and after it one
/// of the two branches and never the other.
pub open spec fn if_spec(rest: Value, frames: Frames, depth: nat) -> Outcome
    decreases depth, 3nat, 0nat,
{
    match first_three(rest) {
        Err(e) => (Err(e), frames),
        Ok((test, consequent, alternative)) => {
            let (tested, after) = eval_spec(test, frames, depth);
            match tested {
                Err(e) => (Err(e), after),
                Ok(value) => if value is Nil {
                    eval_spec(alternative, after, depth)
                } else {
                    eval_spec(consequent, after, depth)
                },
            }
        },
    }
}

/// `(DEF name value)`: both are evaluated; the first must give a symbol that
/// nothing binds yet, and the root then binds it to the second.
pub open spec fn def_spec(rest: Value, frames: Frames, depth: nat) -> Outcome
    decreases depth, 3nat, 0nat,
{
    match first_two(rest) {
        Err(e) => (Err(e), frames),
        Ok((name_expr, value_expr)) => {
            let (named, after_name) = eval_spec(name_expr, frames, depth);
            match named {
                Err(e) => (Err(e), after_name),
                Ok(Value::Symbol(name)) => {
                    let (valued, after) = eval_spec(value_expr, after_name, depth);
                    match valued {
                        Err(e) => (Err(e), after),
                        Ok(value) => if lookup(after, name) is Some {
                            (Err(Error::AlreadyDefined), after)
                        } else {
                            (Ok(value), bind_root(after, name, value))
                        },
                    }
                },
                Ok(_) => (Err(Error::NotSymbol), after_name),
            }
        },
    }
}

/// An application: the head is evaluated, then the arguments from left to
/// right, then the one is applied to the others.
pub open spec fn call_spec(head: Value, rest: Value, frames: Frames, depth: nat) -> Outcome
    decreases depth, 3nat, 0nat,
{
    let (callee, after_head) = eval_spec(head, frames, depth);
    match callee {
        Err(e) => (Err(e), after_head),
        Ok(callable) => {
            let (evaluated, after) = eval_list_spec(rest, after_head, depth);
            match evaluated {
                Err(e) => (Err(e), after),
                Ok(args) => apply_spec(callable, args, after, depth),
            }
        },
    }
}

/// The number of cons cells along the tail of a value.
pub open spec fn spine(list: Value) -> nat
    decreases list,
{
    match list {
        Value::Cons(_, tail) => 1 + spine(*tail),
        _ => 0,
    }
}

/// The list of what the elements of a list evaluate to, from left to right.
pub open spec fn eval_list_spec(list: Value, frames: Frames, depth: nat) -> Outcome
    decreases depth, 1nat, spine(list),
{
    match list {
        Value::Nil => (Ok(Value::Nil), frames),
        Value::Cons(head, tail) => {
            let (first, after_first) = eval_spec(*head, frames, depth);
            match first {
                Err(e) => (Err(e), after_first),
                Ok(value) => {
                    let (others, after) = eval_list_spec(*tail, after_first, depth);
                    match others {
                        Err(e) => (Err(e), after),
                        Ok(values) => (Ok(Value::Cons(Box::new(value), Box::new(values))), after),
                    }
                },
            }
        },
        _ => (Err(Error::NotCons), frames),
    }
}

/// What applying `callable` to the evaluated arguments gives. An operator
/// computes on the arguments alone. A lambda has its body evaluated in a new
/// innermost frame that binds its parameters, and that frame is discarded
/// afterwards. Nothing else can be applied.
pub open spec fn apply_spec(callable: Value, args: Value, frames: Frames, depth: nat) -> Outcome
    decreases depth, 2nat, 0nat,
{
    match callable {
        Value::Operator(_, function) => (primitive_spec(function, args), frames),
        Value::Lambda(params, body) => match bind_parameters(*params, args, Map::empty()) {
            Err(e) => (Err(e), frames),
            Ok(scope) => {
                let (result, after) = eval_spec(*body, frames.push(scope), depth);
                (result, after.drop_last())
            },
        },
        _ => (Err(Error::NotCallable), frames),
    }
}

/// The form `(IF test consequent alternative)`.
pub open spec fn if_form(test: Value, consequent: Value, alternative: Value) -> Value {
    Value::Cons(
        Box::new(Value::Symbol("IF"@)),
        Box::new(
            Value::Cons(
                Box::new(test),
                Box::new(
                    Value::Cons(
                        Box::new(consequent),
                        Box::new(Value::Cons(Box::new(alternative), Box::new(Value::Nil))),
                    ),
                ),
            ),
        ),
    )
}

} // verus!
