//! What holds of every evaluation.

use crate::environment::{initial_frames, Frames};
use crate::errors::Error;
use crate::evaluator::operators::{
    first_two, lemma_operators_are_bound, operator_named, primitive_spec, with_operators,
};
use crate::evaluator::semantics::{
    apply_spec, bind_parameters, call_spec, def_spec, eval_list_spec, eval_spec, first_three,
    if_form, if_spec, is_symbol, spine, Outcome,
};
use crate::object::{Primitive, Value};
use crate::reader::quoted;
use vstd::prelude::*;

verus! {

/// An integer or a string evaluates to itself, in any frames and at any depth,
/// and leaves the frames as they were.
pub proof fn lemma_self_evaluating(value: Value, frames: Frames, depth: nat)
    requires
        value is Integer || value is Text,
    ensures
        eval_spec(value, frames, depth) == (Ok::<Value, Error>(value), frames),
{
}

/// Nil evaluates to Nil, in any frames and at any depth.
pub proof fn lemma_nil_evaluates_to_nil(frames: Frames, depth: nat)
    ensures
        eval_spec(Value::Nil, frames, depth) == (Ok::<Value, Error>(Value::Nil), frames),
{
}

/// In a new environment, with or without the operators, the symbol `NIL`
/// evaluates to Nil.
pub proof fn lemma_nil_symbol_is_bound(depth: nat)
    ensures
        eval_spec(Value::Symbol("NIL"@), initial_frames(), depth) == (
            Ok::<Value, Error>(Value::Nil),
            initial_frames(),
        ),
        eval_spec(Value::Symbol("NIL"@), with_operators(initial_frames()), depth) == (
            Ok::<Value, Error>(Value::Nil),
            with_operators(initial_frames()),
        ),
{
    let frames = initial_frames();
    assert(frames.last().contains_key("NIL"@));
    lemma_operators_are_bound(frames, "NIL"@);
    reveal_strlit("NIL");
    reveal_strlit("QUOTE");
    reveal_strlit("AND");
    reveal_strlit("OR");
    reveal_strlit("NOT");
    reveal_strlit("CAR");
    reveal_strlit("CDR");
    reveal_strlit("+");
    reveal_strlit("-");
    reveal_strlit("*");
    reveal_strlit("/");
    reveal_strlit("=");
    reveal_strlit("<");
    reveal_strlit(">");
    assert("NIL"@[0] == 'N' && "NIL"@[1] == 'I' && "NIL"@.len() == 3);
    assert("AND"@[0] == 'A' && "NOT"@[1] == 'O' && "CAR"@[0] == 'C' && "CDR"@[0] == 'C');
    assert(operator_named("NIL"@) is None);
}

/// Once the operators are bound in the innermost frame, the name of each
/// evaluates to it.
pub proof fn lemma_operator_names_are_bound(frames: Frames, name: Seq<char>, depth: nat)
    requires
        frames.len() > 0,
        operator_named(name) is Some,
    ensures
        eval_spec(Value::Symbol(name), with_operators(frames), depth) == (
            Ok::<Value, Error>(Value::Operator(name, operator_named(name)->Some_0)),
            with_operators(frames),
        ),
{
    lemma_operators_are_bound(frames, name);
}

/// The form `(QUOTE e)` evaluates to `e` as it stands, whatever `e` is, in any
/// frames and at any depth.
pub proof fn lemma_quote_returns_its_argument(e: Value, frames: Frames, depth: nat)
    ensures
        eval_spec(quoted(e), frames, depth) == (Ok::<Value, Error>(e), frames),
{
}

/// An `IF` form evaluates its test and then exactly one of its branches: what
/// it gives is what the chosen branch gives in the frames that the test left,
/// whatever the other branch is.
pub proof fn lemma_if_evaluates_one_branch(
    test: Value,
    consequent: Value,
    alternative: Value,
    frames: Frames,
    depth: nat,
)
    ensures
        ({
            let (tested, after) = eval_spec(test, frames, depth);
            eval_spec(if_form(test, consequent, alternative), frames, depth + 1) == match tested {
                Err(e) => (Err::<Value, Error>(e), after),
                Ok(value) => if value is Nil {
                    eval_spec(alternative, after, depth)
                } else {
                    eval_spec(consequent, after, depth)
                },
            }
        }),
{
    reveal_strlit("IF");
    reveal_strlit("QUOTE");
    reveal_strlit("LAMBDA");
    let rest = Value::Cons(
        Box::new(test),
        Box::new(
            Value::Cons(
                Box::new(consequent),
                Box::new(Value::Cons(Box::new(alternative), Box::new(Value::Nil))),
            ),
        ),
    );
    assert("IF"@.len() == 2 && "QUOTE"@.len() == 5 && "LAMBDA"@.len() == 6);
    assert(first_three(rest) == Ok::<(Value, Value, Value), Error>(
        (test, consequent, alternative),
    ));
    assert(eval_spec(if_form(test, consequent, alternative), frames, depth + 1) == if_spec(
        rest,
        frames,
        depth,
    ));
}

/// Where the test of an `IF` form gives a value other than Nil, the form gives
/// what its first branch gives, and its second branch does not matter: any two
/// forms that differ only there give the same.
pub proof fn lemma_if_ignores_the_other_branch(
    test: Value,
    consequent: Value,
    alternative: Value,
    another: Value,
    frames: Frames,
    depth: nat,
)
    requires
        eval_spec(test, frames, depth).0 is Ok,
        !(eval_spec(test, frames, depth).0->Ok_0 is Nil),
    ensures
        eval_spec(if_form(test, consequent, alternative), frames, depth + 1) == eval_spec(
            if_form(test, consequent, another),
            frames,
            depth + 1,
        ),
{
    lemma_if_evaluates_one_branch(test, consequent, alternative, frames, depth);
    lemma_if_evaluates_one_branch(test, consequent, another, frames, depth);
}

/// An operator is a function of its arguments alone: applied to the same
/// arguments in any two environments, at any two depths, it gives the same,
/// and it leaves the frames as they were.
pub proof fn lemma_operators_are_pure(
    name: Seq<char>,
    function: Primitive,
    args: Value,
    frames: Frames,
    depth: nat,
    other_frames: Frames,
    other_depth: nat,
)
    ensures
        apply_spec(Value::Operator(name, function), args, frames, depth) == (
            primitive_spec(function, args),
            frames,
        ),
        apply_spec(Value::Operator(name, function), args, frames, depth).0 == apply_spec(
            Value::Operator(name, function),
            args,
            other_frames,
            other_depth,
        ).0,
{
}

/// Whether the evaluation ended for want of depth.
pub open spec fn out_of_depth(outcome: Outcome) -> bool {
    outcome.0 == Err::<Value, Error>(Error::DepthExceeded)
}

/// The depth only limits: where an evaluation did not end for want of depth,
/// a greater depth gives the same result and the same frames.
pub proof fn lemma_depth_suffices(expr: Value, frames: Frames, depth: nat)
    requires
        !out_of_depth(eval_spec(expr, frames, depth)),
    ensures
        eval_spec(expr, frames, depth + 1) == eval_spec(expr, frames, depth),
    decreases depth, 0nat, 0nat,
{
    match expr {
        Value::Cons(head, rest) => {
            if depth > 0 {
                let d = (depth - 1) as nat;
                if is_symbol(*head, "QUOTE"@) || is_symbol(*head, "LAMBDA"@) {
                } else if is_symbol(*head, "IF"@) {
                    lemma_depth_suffices_if(*rest, frames, d);
                } else if is_symbol(*head, "DEF"@) {
                    lemma_depth_suffices_def(*rest, frames, d);
                } else {
                    lemma_depth_suffices_call(*head, *rest, frames, d);
                }
            }
        },
        _ => {},
    }
}

/// Where an evaluation did not end for want of depth, every greater depth
/// gives the same result and the same frames.
pub proof fn lemma_any_greater_depth_gives_the_same(
    expr: Value,
    frames: Frames,
    depth: nat,
    greater: nat,
)
    requires
        !out_of_depth(eval_spec(expr, frames, depth)),
        depth <= greater,
    ensures
        eval_spec(expr, frames, greater) == eval_spec(expr, frames, depth),
    decreases greater - depth,
{
    if depth < greater {
        lemma_depth_suffices(expr, frames, depth);
        lemma_any_greater_depth_gives_the_same(expr, frames, depth + 1, greater);
    }
}

/// A greater depth gives the same for an `IF` form that did not end for want
/// of depth.
pub proof fn lemma_depth_suffices_if(rest: Value, frames: Frames, depth: nat)
    requires
        !out_of_depth(if_spec(rest, frames, depth)),
    ensures
        if_spec(rest, frames, depth + 1) == if_spec(rest, frames, depth),
    decreases depth, 3nat, 0nat,
{
    match first_three(rest) {
        Ok((test, consequent, alternative)) => {
            lemma_depth_suffices(test, frames, depth);
            let (tested, after) = eval_spec(test, frames, depth);
            match tested {
                Ok(value) => {
                    if value is Nil {
                        lemma_depth_suffices(alternative, after, depth);
                    } else {
                        lemma_depth_suffices(consequent, after, depth);
                    }
                },
                Err(_) => {},
            }
        },
        Err(_) => {},
    }
}

/// A greater depth gives the same for a `DEF` form that did not end for want
/// of depth.
pub proof fn lemma_depth_suffices_def(rest: Value, frames: Frames, depth: nat)
    requires
        !out_of_depth(def_spec(rest, frames, depth)),
    ensures
        def_spec(rest, frames, depth + 1) == def_spec(rest, frames, depth),
    decreases depth, 3nat, 0nat,
{
    match first_two(rest) {
        Ok((name_expr, value_expr)) => {
            lemma_depth_suffices(name_expr, frames, depth);
            let (named, after_name) = eval_spec(name_expr, frames, depth);
            match named {
                Ok(Value::Symbol(_)) => {
                    lemma_depth_suffices(value_expr, after_name, depth);
                },
                _ => {},
            }
        },
        Err(_) => {},
    }
}

/// A greater depth gives the same for an application that did not end for
/// want of depth.
pub proof fn lemma_depth_suffices_call(head: Value, rest: Value, frames: Frames, depth: nat)
    requires
        !out_of_depth(call_spec(head, rest, frames, depth)),
    ensures
        call_spec(head, rest, frames, depth + 1) == call_spec(head, rest, frames, depth),
    decreases depth, 3nat, 0nat,
{
    lemma_depth_suffices(head, frames, depth);
    let (callee, after_head) = eval_spec(head, frames, depth);
    match callee {
        Ok(callable) => {
            lemma_depth_suffices_list(rest, after_head, depth);
            let (evaluated, after) = eval_list_spec(rest, after_head, depth);
            match evaluated {
                Ok(args) => {
                    lemma_depth_suffices_apply(callable, args, after, depth);
                },
                Err(_) => {},
            }
        },
        Err(_) => {},
    }
}

/// A greater depth gives the same for the elements of a list whose evaluation
/// did not end for want of depth.
pub proof fn lemma_depth_suffices_list(list: Value, frames: Frames, depth: nat)
    requires
        !out_of_depth(eval_list_spec(list, frames, depth)),
    ensures
        eval_list_spec(list, frames, depth + 1) == eval_list_spec(list, frames, depth),
    decreases depth, 1nat, spine(list),
{
    match list {
        Value::Cons(head, tail) => {
            lemma_depth_suffices(*head, frames, depth);
            let (first, after_first) = eval_spec(*head, frames, depth);
            match first {
                Ok(_) => {
                    lemma_depth_suffices_list(*tail, after_first, depth);
                },
                Err(_) => {},
            }
        },
        _ => {},
    }
}

/// A greater depth gives the same for a call that did not end for want of
/// depth.
pub proof fn lemma_depth_suffices_apply(callable: Value, args: Value, frames: Frames, depth: nat)
    requires
        !out_of_depth(apply_spec(callable, args, frames, depth)),
    ensures
        apply_spec(callable, args, frames, depth + 1) == apply_spec(callable, args, frames, depth),
    decreases depth, 2nat, 0nat,
{
    match callable {
        Value::Lambda(params, body) => {
            match bind_parameters(*params, args, Map::empty()) {
                Ok(scope) => {
                    lemma_depth_suffices(*body, frames.push(scope), depth);
                },
                Err(_) => {},
            }
        },
        _ => {},
    }
}

/// Evaluation never opens or discards a frame for good: it leaves as many
/// frames as it found.
pub proof fn lemma_eval_keeps_frames(expr: Value, frames: Frames, depth: nat)
    requires
        frames.len() > 0,
    ensures
        eval_spec(expr, frames, depth).1.len() == frames.len(),
    decreases depth, 0nat, 0nat,
{
    match expr {
        Value::Cons(head, rest) => {
            if depth > 0 {
                let d = (depth - 1) as nat;
                match first_three(*rest) {
                    Ok((test, consequent, alternative)) => {
                        lemma_eval_keeps_frames(test, frames, d);
                        let after = eval_spec(test, frames, d).1;
                        lemma_eval_keeps_frames(consequent, after, d);
                        lemma_eval_keeps_frames(alternative, after, d);
                    },
                    Err(_) => {},
                }
                assert(if_spec(*rest, frames, d).1.len() == frames.len());
                match first_two(*rest) {
                    Ok((name_expr, value_expr)) => {
                        lemma_eval_keeps_frames(name_expr, frames, d);
                        let after_name = eval_spec(name_expr, frames, d).1;
                        lemma_eval_keeps_frames(value_expr, after_name, d);
                    },
                    Err(_) => {},
                }
                assert(def_spec(*rest, frames, d).1.len() == frames.len());
                lemma_eval_keeps_frames(*head, frames, d);
                let (callee, after_head) = eval_spec(*head, frames, d);
                lemma_eval_list_keeps_frames(*rest, after_head, d);
                let (evaluated, after) = eval_list_spec(*rest, after_head, d);
                if callee is Ok && evaluated is Ok {
                    lemma_apply_keeps_frames(callee->Ok_0, evaluated->Ok_0, after, d);
                }
                assert(call_spec(*head, *rest, frames, d).1.len() == frames.len());
            }
        },
        _ => {},
    }
}

/// Evaluating the elements of a list leaves as many frames as it found.
pub proof fn lemma_eval_list_keeps_frames(list: Value, frames: Frames, depth: nat)
    requires
        frames.len() > 0,
    ensures
        eval_list_spec(list, frames, depth).1.len() == frames.len(),
    decreases depth, 1nat, spine(list),
{
    match list {
        Value::Cons(head, tail) => {
            lemma_eval_keeps_frames(*head, frames, depth);
            let after_first = eval_spec(*head, frames, depth).1;
            lemma_eval_list_keeps_frames(*tail, after_first, depth);
        },
        _ => {},
    }
}

/// An application leaves as many frames as it found: the frame that it opens
/// for a lambda is discarded again.
pub proof fn lemma_apply_keeps_frames(callable: Value, args: Value, frames: Frames, depth: nat)
    requires
        frames.len() > 0,
    ensures
        apply_spec(callable, args, frames, depth).1.len() == frames.len(),
    decreases depth, 2nat, 0nat,
{
    match callable {
        Value::Lambda(params, body) => {
            match bind_parameters(*params, args, Map::empty()) {
                Ok(scope) => {
                    lemma_eval_keeps_frames(*body, frames.push(scope), depth);
                },
                Err(_) => {},
            }
        },
        _ => {},
    }
}

} // verus!
