//! The evaluator: special forms, and the application of operators and
//! lambdas.

pub mod lemmas;
pub mod operators;
pub mod semantics;

use crate::environment::RefEnvironment;
use crate::errors::Error;
use crate::evaluator::semantics::{
    apply_spec, bind_parameters, call_spec, def_spec, eval_list_spec, eval_spec, if_spec,
    is_symbol, lambda_spec, spine,
};
use crate::object::{
    destructure_list, not_nil, outcome_of, result_nil, symbol_value, value_of, Object, RefObject,
    ResultRefObject, Value,
};
use std::sync::Arc;
use vstd::prelude::*;
use vstd::string::StringExecFns;

verus! {

/// Whether the handle holds the symbol with the given name.
fn is_form(head: &RefObject, name: &str) -> (b: bool)
    ensures
        b == is_symbol(value_of(*head), name@),
{
    match &**head {
        Some(Object::Symbol(s)) => *s == String::from_str(name),
        _ => false,
    }
}

/// Evaluates an expression in the environment. `depth` limits how deep
/// evaluation may nest: a list other than a `QUOTE` or `LAMBDA` form needs a
/// depth above zero and evaluates its parts with one less, and fails with
/// `DepthExceeded` at zero. The environment keeps its frames; `DEF` adds
/// bindings to its root.
pub fn eval(obj: &RefObject, environment: &mut RefEnvironment, depth: usize) -> (result:
    ResultRefObject)
    ensures
        (outcome_of(result), final(environment)@) == eval_spec(
            value_of(*obj),
            old(environment)@,
            depth as nat,
        ),
        final(environment)@.len() == old(environment)@.len(),
    decreases depth, 0nat, 0nat,
{
    match &**obj {
        None => result_nil(),
        Some(Object::Cons(car, cdr)) => {
            if is_form(car, "QUOTE") {
                match destructure_list(cdr) {
                    Ok((quoted, _)) => Ok(Arc::clone(quoted)),
                    Err(e) => Err(e),
                }
            } else if is_form(car, "LAMBDA") {
                lambda(cdr)
            } else if depth == 0 {
                Err(Error::DepthExceeded)
            } else if is_form(car, "IF") {
                eval_if(cdr, environment, depth - 1)
            } else if is_form(car, "DEF") {
                eval_def(cdr, environment, depth - 1)
            } else {
                eval_call(car, cdr, environment, depth - 1)
            }
        },
        Some(Object::Symbol(s)) => match environment.0.find_symbol(s) {
            Some(value) => Ok(value),
            None => Err(Error::UnboundSymbol),
        },
        _ => Ok(Arc::clone(obj)),
    }
}

/// Evaluates what follows the word `IF`: the test, then one branch.
fn eval_if(rest: &RefObject, environment: &mut RefEnvironment, depth: usize) -> (result:
    ResultRefObject)
    ensures
        (outcome_of(result), final(environment)@) == if_spec(
            value_of(*rest),
            old(environment)@,
            depth as nat,
        ),
        final(environment)@.len() == old(environment)@.len(),
    decreases depth, 3nat, 0nat,
{
    let (test, rest) = match destructure_list(rest) {
        Ok(pair) => pair,
        Err(e) => {
            return Err(e);
        },
    };
    let (consequent, rest) = match destructure_list(rest) {
        Ok(pair) => pair,
        Err(e) => {
            return Err(e);
        },
    };
    let (alternative, _) = match destructure_list(rest) {
        Ok(pair) => pair,
        Err(e) => {
            return Err(e);
        },
    };
    match eval(test, environment, depth) {
        Err(e) => Err(e),
        Ok(value) => if not_nil(&value) {
            eval(consequent, environment, depth)
        } else {
            eval(alternative, environment, depth)
        },
    }
}

/// Evaluates what follows the word `DEF`, and binds the symbol in the root.
fn eval_def(rest: &RefObject, environment: &mut RefEnvironment, depth: usize) -> (result:
    ResultRefObject)
    ensures
        (outcome_of(result), final(environment)@) == def_spec(
            value_of(*rest),
            old(environment)@,
            depth as nat,
        ),
        final(environment)@.len() == old(environment)@.len(),
    decreases depth, 3nat, 0nat,
{
    let (name_expr, rest) = match destructure_list(rest) {
        Ok(pair) => pair,
        Err(e) => {
            return Err(e);
        },
    };
    let (value_expr, _) = match destructure_list(rest) {
        Ok(pair) => pair,
        Err(e) => {
            return Err(e);
        },
    };
    let named = match eval(name_expr, environment, depth) {
        Ok(named) => named,
        Err(e) => {
            return Err(e);
        },
    };
    let name = match symbol_value(&named) {
        Ok(name) => name,
        Err(e) => {
            return Err(e);
        },
    };
    let value = match eval(value_expr, environment, depth) {
        Ok(value) => value,
        Err(e) => {
            return Err(e);
        },
    };
    if environment.0.find_symbol(&name).is_some() {
        Err(Error::AlreadyDefined)
    } else {
        proof {
            environment.0.lemma_has_root();
        }
        Ok(environment.0.intern_root(name, value))
    }
}

/// Evaluates an application: the head, the arguments, then the call.
fn eval_call(
    head: &RefObject,
    rest: &RefObject,
    environment: &mut RefEnvironment,
    depth: usize,
) -> (result: ResultRefObject)
    ensures
        (outcome_of(result), final(environment)@) == call_spec(
            value_of(*head),
            value_of(*rest),
            old(environment)@,
            depth as nat,
        ),
        final(environment)@.len() == old(environment)@.len(),
    decreases depth, 3nat, 0nat,
{
    let callable = match eval(head, environment, depth) {
        Ok(callable) => callable,
        Err(e) => {
            return Err(e);
        },
    };
    let args = match eval_list(rest, environment, depth) {
        Ok(args) => args,
        Err(e) => {
            return Err(e);
        },
    };
    apply(callable, args, environment, depth)
}

/// Evaluates the elements of a list from left to right, and returns the list
/// of the results.
pub fn eval_list(obj: &RefObject, environment: &mut RefEnvironment, depth: usize) -> (result:
    ResultRefObject)
    ensures
        (outcome_of(result), final(environment)@) == eval_list_spec(
            value_of(*obj),
            old(environment)@,
            depth as nat,
        ),
        final(environment)@.len() == old(environment)@.len(),
    decreases depth, 1nat, spine(value_of(*obj)),
{
    if not_nil(obj) {
        let (car, cdr) = match destructure_list(obj) {
            Ok(pair) => pair,
            Err(e) => {
                return Err(e);
            },
        };
        let first = match eval(car, environment, depth) {
            Ok(first) => first,
            Err(e) => {
                return Err(e);
            },
        };
        match eval_list(cdr, environment, depth) {
            Ok(others) => Ok(Object::cons(first, others)),
            Err(e) => Err(e),
        }
    } else {
        result_nil()
    }
}

/// Makes the lambda of a `LAMBDA` form from what follows the word: the
/// parameter list and the body, neither evaluated.
pub fn lambda(obj: &RefObject) -> (result: ResultRefObject)
    ensures
        outcome_of(result) == lambda_spec(value_of(*obj)),
{
    let (params, cdr) = match destructure_list(obj) {
        Ok(pair) => pair,
        Err(e) => {
            return Err(e);
        },
    };
    let (expression, _) = match destructure_list(cdr) {
        Ok(pair) => pair,
        Err(e) => {
            return Err(e);
        },
    };
    Ok(Object::lambda(Arc::clone(params), Arc::clone(expression)))
}

/// Applies an operator or a lambda to arguments that are already evaluated.
pub fn apply(
    function: RefObject,
    cdr: RefObject,
    environment: &mut RefEnvironment,
    depth: usize,
) -> (result: ResultRefObject)
    ensures
        (outcome_of(result), final(environment)@) == apply_spec(
            value_of(function),
            value_of(cdr),
            old(environment)@,
            depth as nat,
        ),
        final(environment)@.len() == old(environment)@.len(),
    decreases depth, 2nat, 0nat,
{
    match &*function {
        Some(Object::Lambda(parameters, expression)) => {
            proof {
                environment.0.lemma_has_root();
            }
            environment.0.new_layer();
            let mut next_value = &cdr;
            let mut next_param = parameters;
            while not_nil(next_value) && not_nil(next_param)
                invariant
                    old(environment)@.len() > 0,
                    value_of(function) == Value::Lambda(
                        Box::new(value_of(*parameters)),
                        Box::new(value_of(*expression)),
                    ),
                    environment@.len() == old(environment)@.len() + 1,
                    environment@.drop_last() == old(environment)@,
                    bind_parameters(value_of(*parameters), value_of(cdr), Map::empty())
                        == bind_parameters(
                        value_of(*next_param),
                        value_of(*next_value),
                        environment@.last(),
                    ),
                decreases value_of(*next_param),
            {
                let (value, cdr_value) = match destructure_list(next_value) {
                    Ok(pair) => pair,
                    Err(e) => {
                        environment.0.drop_layer();
                        return Err(e);
                    },
                };
                let (param, cdr_param) = match destructure_list(next_param) {
                    Ok(pair) => pair,
                    Err(e) => {
                        environment.0.drop_layer();
                        return Err(e);
                    },
                };
                let name = match symbol_value(param) {
                    Ok(name) => name,
                    Err(e) => {
                        environment.0.drop_layer();
                        return Err(e);
                    },
                };
                let ghost before = environment@;
                environment.0.intern(name, Arc::clone(value));
                assert(environment@.drop_last() == before.drop_last());
                next_value = cdr_value;
                next_param = cdr_param;
            }
            assert(environment@ == old(environment)@.push(environment@.last()));
            let result = eval(expression, environment, depth);
            environment.0.drop_layer();
            result
        },
        Some(Object::Operator(_, f)) => f.call(cdr),
        _ => Err(Error::NotCallable),
    }
}

} // verus!
