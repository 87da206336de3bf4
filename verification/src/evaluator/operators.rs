//! The built-in operators. Each takes the list of its arguments, already
//! evaluated, and is a function of that list alone.

use crate::environment::{bind, lookup, Frames, RefEnvironment};
use crate::errors::Error;
use crate::object::{
    destructure_list, integer_value, nil, not_nil, outcome_of, result_nil, value_of, Object,
    Primitive, RefObject, ResultRefObject, Value,
};
use std::sync::Arc;
use vstd::prelude::*;
use vstd::string::StringExecFns;

verus! {

/// The four arithmetic operations.
pub enum Arithmetic {
    Add,
    Subtract,
    Multiply,
    Divide,
}

/// Whether the integer fits 32 bits with a sign.
pub open spec fn fits(i: int) -> bool {
    i32::MIN <= i <= i32::MAX
}

/// The quotient of two integers, rounded towards zero.
pub open spec fn quotient(a: int, b: int) -> int
    recommends
        b != 0,
{
    if a >= 0 && b > 0 {
        a / b
    } else if a < 0 && b < 0 {
        (-a) / (-b)
    } else if a < 0 {
        -((-a) / b)
    } else {
        -(a / (-b))
    }
}

/// One arithmetic operation on two 32-bit integers: the exact result, or
/// `Overflow` where it does not fit, or `DivisionByZero`.
pub open spec fn arithmetic(op: Arithmetic, a: int, b: int) -> Result<int, Error> {
    let exact = match op {
        Arithmetic::Add => a + b,
        Arithmetic::Subtract => a - b,
        Arithmetic::Multiply => a * b,
        Arithmetic::Divide => quotient(a, b),
    };
    if op is Divide && b == 0 {
        Err(Error::DivisionByZero)
    } else if fits(exact) {
        Ok(exact)
    } else {
        Err(Error::Overflow)
    }
}

/// The operation applied from left to right: `total`, then each element of the
/// list in turn. The first element that is no integer gives `NotInteger`, and a
/// tail that is no list gives `NotCons`.
pub open spec fn fold(op: Arithmetic, list: Value, total: int) -> Result<int, Error>
    decreases list,
{
    match list {
        Value::Nil => Ok(total),
        Value::Cons(car, cdr) => match *car {
            Value::Integer(i) => match arithmetic(op, total, i) {
                Ok(next) => fold(op, *cdr, next),
                Err(e) => Err(e),
            },
            _ => Err(Error::NotInteger),
        },
        _ => Err(Error::NotCons),
    }
}

/// An integer result as a value.
pub open spec fn integer_result(result: Result<int, Error>) -> Result<Value, Error> {
    match result {
        Ok(i) => Ok(Value::Integer(i)),
        Err(e) => Err(e),
    }
}

/// `+`: the sum of the arguments; Nil where there are none.
pub open spec fn sum_spec(args: Value) -> Result<Value, Error> {
    if args is Nil {
        Ok(Value::Nil)
    } else {
        integer_result(fold(Arithmetic::Add, args, 0))
    }
}

/// `*`: the product of the arguments; Nil where there are none.
pub open spec fn mult_spec(args: Value) -> Result<Value, Error> {
    if args is Nil {
        Ok(Value::Nil)
    } else {
        integer_result(fold(Arithmetic::Multiply, args, 1))
    }
}

/// The first argument, then the operation with each of the others in turn.
pub open spec fn from_first(op: Arithmetic, args: Value) -> Result<Value, Error> {
    match args {
        Value::Nil => Ok(Value::Nil),
        Value::Cons(car, cdr) => match *car {
            Value::Integer(first) => integer_result(fold(op, *cdr, first)),
            _ => Err(Error::NotInteger),
        },
        _ => Err(Error::NotCons),
    }
}

/// `-`: the first argument minus each of the others; Nil where there are none.
pub open spec fn sub_spec(args: Value) -> Result<Value, Error> {
    from_first(Arithmetic::Subtract, args)
}

/// `/`: the first argument divided by each of the others in turn, each
/// quotient rounded towards zero; Nil where there are none.
pub open spec fn div_spec(args: Value) -> Result<Value, Error> {
    from_first(Arithmetic::Divide, args)
}

/// Truth as a value: the integer 1 for true, Nil for false.
pub open spec fn truth(b: bool) -> Value {
    if b {
        Value::Integer(1)
    } else {
        Value::Nil
    }
}

/// The first two elements of a list; `NotCons` where it has fewer.
pub open spec fn first_two(args: Value) -> Result<(Value, Value), Error> {
    match args {
        Value::Cons(first, rest) => match *rest {
            Value::Cons(second, _) => Ok((*first, *second)),
            _ => Err(Error::NotCons),
        },
        _ => Err(Error::NotCons),
    }
}

/// The first element of a list; `NotCons` where it has none.
pub open spec fn first_of(args: Value) -> Result<Value, Error> {
    match args {
        Value::Cons(first, _) => Ok(*first),
        _ => Err(Error::NotCons),
    }
}

/// `AND`: true where neither of the two arguments is Nil.
pub open spec fn and_spec(args: Value) -> Result<Value, Error> {
    match first_two(args) {
        Ok((a, b)) => Ok(truth(!(a is Nil) && !(b is Nil))),
        Err(e) => Err(e),
    }
}

/// `OR`: true where one of the two arguments is not Nil.
pub open spec fn or_spec(args: Value) -> Result<Value, Error> {
    match first_two(args) {
        Ok((a, b)) => Ok(truth(!(a is Nil) || !(b is Nil))),
        Err(e) => Err(e),
    }
}

/// `NOT`: true where the argument is Nil.
pub open spec fn not_spec(args: Value) -> Result<Value, Error> {
    match first_of(args) {
        Ok(a) => Ok(truth(a is Nil)),
        Err(e) => Err(e),
    }
}

/// `CAR`: the first element of the list that is the argument; Nil where there
/// is no argument.
pub open spec fn car_spec(args: Value) -> Result<Value, Error> {
    match args {
        Value::Nil => Ok(Value::Nil),
        Value::Cons(list, _) => match *list {
            Value::Cons(first, _) => Ok(*first),
            _ => Err(Error::NotCons),
        },
        _ => Err(Error::NotCons),
    }
}

/// `CDR`: the list that is the argument without its first element; Nil where
/// there is no argument.
pub open spec fn cdr_spec(args: Value) -> Result<Value, Error> {
    match args {
        Value::Nil => Ok(Value::Nil),
        Value::Cons(list, _) => match *list {
            Value::Cons(_, rest) => Ok(*rest),
            _ => Err(Error::NotCons),
        },
        _ => Err(Error::NotCons),
    }
}

/// The three comparisons of integers.
pub enum Comparison {
    Greater,
    Less,
    Equal,
}

/// A comparison of the two arguments, which must be integers.
pub open spec fn compare_spec(how: Comparison, args: Value) -> Result<Value, Error> {
    match first_two(args) {
        Ok((a, b)) => match (a, b) {
            (Value::Integer(x), Value::Integer(y)) => Ok(
                truth(
                    match how {
                        Comparison::Greater => x > y,
                        Comparison::Less => x < y,
                        Comparison::Equal => x == y,
                    },
                ),
            ),
            (_, _) => Err(Error::NotInteger),
        },
        Err(e) => Err(e),
    }
}

/// `QUOTE`: the argument as it stands.
pub open spec fn quote_spec(args: Value) -> Result<Value, Error> {
    first_of(args)
}

/// What an operator returns for a list of arguments.
pub open spec fn primitive_spec(function: Primitive, args: Value) -> Result<Value, Error> {
    match function {
        Primitive::Quote => quote_spec(args),
        Primitive::And => and_spec(args),
        Primitive::Or => or_spec(args),
        Primitive::Not => not_spec(args),
        Primitive::Car => car_spec(args),
        Primitive::Cdr => cdr_spec(args),
        Primitive::Sum => sum_spec(args),
        Primitive::Sub => sub_spec(args),
        Primitive::Mult => mult_spec(args),
        Primitive::Div => div_spec(args),
        Primitive::EqualTo => compare_spec(Comparison::Equal, args),
        Primitive::LessThan => compare_spec(Comparison::Less, args),
        Primitive::GreaterThan => compare_spec(Comparison::Greater, args),
    }
}

/// One arithmetic operation on two integers.
fn compute(op: &Arithmetic, a: i32, b: i32) -> (result: Result<i32, Error>)
    ensures
        match arithmetic(*op, a as int, b as int) {
            Ok(exact) => result == Ok::<i32, Error>(exact as i32) && result->Ok_0 == exact,
            Err(e) => result == Err::<i32, Error>(e),
        },
{
    let exact = match op {
        Arithmetic::Add => a.checked_add(b),
        Arithmetic::Subtract => a.checked_sub(b),
        Arithmetic::Multiply => a.checked_mul(b),
        Arithmetic::Divide => {
            if b == 0 {
                return Err(Error::DivisionByZero);
            }
            a.checked_div(b)
        },
    };
    match exact {
        Some(value) => Ok(value),
        None => Err(Error::Overflow),
    }
}

/// Applies the operation from left to right to `total` and the elements of
/// the list.
fn accumulate(op: &Arithmetic, list: &RefObject, total: i32) -> (result: Result<i32, Error>)
    ensures
        match fold(*op, value_of(*list), total as int) {
            Ok(exact) => result == Ok::<i32, Error>(exact as i32) && result->Ok_0 == exact,
            Err(e) => result == Err::<i32, Error>(e),
        },
{
    let mut running = total;
    let mut next = list;
    while not_nil(next)
        invariant
            fold(*op, value_of(*list), total as int) == fold(
                *op,
                value_of(*next),
                running as int,
            ),
        decreases value_of(*next),
    {
        let (car, cdr) = match destructure_list(next) {
            Ok(pair) => pair,
            Err(e) => {
                return Err(e);
            },
        };
        let value = match integer_value(car) {
            Ok(value) => value,
            Err(e) => {
                return Err(e);
            },
        };
        running = match compute(op, running, value) {
            Ok(exact) => exact,
            Err(e) => {
                return Err(e);
            },
        };
        next = cdr;
    }
    Ok(running)
}

/// Truth as a handle: the integer 1 for true, Nil for false.
fn truth_value(b: bool) -> (handle: RefObject)
    ensures
        value_of(handle) == truth(b),
{
    if b {
        Object::integer(1)
    } else {
        nil()
    }
}

/// The first two elements of a list.
fn two_arguments<'a>(obj: &'a RefObject) -> (result: Result<(&'a RefObject, &'a RefObject), Error>)
    ensures
        match first_two(value_of(*obj)) {
            Ok((a, b)) => result is Ok && value_of(*result->Ok_0.0) == a && value_of(
                *result->Ok_0.1,
            ) == b,
            Err(e) => result == Err::<(&'a RefObject, &'a RefObject), Error>(e),
        },
{
    let (car1, cdr) = match destructure_list(obj) {
        Ok(pair) => pair,
        Err(e) => {
            return Err(e);
        },
    };
    let (car2, _) = match destructure_list(cdr) {
        Ok(pair) => pair,
        Err(e) => {
            return Err(e);
        },
    };
    Ok((car1, car2))
}

/// A comparison of the two arguments.
fn compare(how: Comparison, obj: RefObject) -> (result: ResultRefObject)
    ensures
        outcome_of(result) == compare_spec(how, value_of(obj)),
{
    let (car1, car2) = match two_arguments(&obj) {
        Ok(pair) => pair,
        Err(e) => {
            return Err(e);
        },
    };
    let a = match integer_value(car1) {
        Ok(value) => value,
        Err(e) => {
            return Err(e);
        },
    };
    let b = match integer_value(car2) {
        Ok(value) => value,
        Err(e) => {
            return Err(e);
        },
    };
    let holds = match how {
        Comparison::Greater => a > b,
        Comparison::Less => a < b,
        Comparison::Equal => a == b,
    };
    Ok(truth_value(holds))
}

/// The first argument, then the operation with each of the others in turn.
fn accumulate_from_first(op: Arithmetic, obj: RefObject) -> (result: ResultRefObject)
    ensures
        outcome_of(result) == from_first(op, value_of(obj)),
{
    if not_nil(&obj) {
        let (car, cdr) = match destructure_list(&obj) {
            Ok(pair) => pair,
            Err(e) => {
                return Err(e);
            },
        };
        let first = match integer_value(car) {
            Ok(value) => value,
            Err(e) => {
                return Err(e);
            },
        };
        match accumulate(&op, cdr, first) {
            Ok(total) => Ok(Object::integer(total)),
            Err(e) => Err(e),
        }
    } else {
        result_nil()
    }
}

/// `+`: the sum of the arguments.
pub fn sum(obj: RefObject) -> (result: ResultRefObject)
    ensures
        outcome_of(result) == sum_spec(value_of(obj)),
{
    if not_nil(&obj) {
        match accumulate(&Arithmetic::Add, &obj, 0) {
            Ok(total) => Ok(Object::integer(total)),
            Err(e) => Err(e),
        }
    } else {
        result_nil()
    }
}

/// `*`: the product of the arguments.
pub fn mult(obj: RefObject) -> (result: ResultRefObject)
    ensures
        outcome_of(result) == mult_spec(value_of(obj)),
{
    if not_nil(&obj) {
        match accumulate(&Arithmetic::Multiply, &obj, 1) {
            Ok(total) => Ok(Object::integer(total)),
            Err(e) => Err(e),
        }
    } else {
        result_nil()
    }
}

/// `/`: the first argument divided by each of the others in turn.
pub fn div(obj: RefObject) -> (result: ResultRefObject)
    ensures
        outcome_of(result) == div_spec(value_of(obj)),
{
    accumulate_from_first(Arithmetic::Divide, obj)
}

/// `-`: the first argument minus each of the others.
pub fn sub(obj: RefObject) -> (result: ResultRefObject)
    ensures
        outcome_of(result) == sub_spec(value_of(obj)),
{
    accumulate_from_first(Arithmetic::Subtract, obj)
}

/// `AND` of two arguments.
pub fn and(obj: RefObject) -> (result: ResultRefObject)
    ensures
        outcome_of(result) == and_spec(value_of(obj)),
{
    let (car1, car2) = match two_arguments(&obj) {
        Ok(pair) => pair,
        Err(e) => {
            return Err(e);
        },
    };
    Ok(truth_value(not_nil(car1) && not_nil(car2)))
}

/// `OR` of two arguments.
pub fn or(obj: RefObject) -> (result: ResultRefObject)
    ensures
        outcome_of(result) == or_spec(value_of(obj)),
{
    let (car1, car2) = match two_arguments(&obj) {
        Ok(pair) => pair,
        Err(e) => {
            return Err(e);
        },
    };
    Ok(truth_value(not_nil(car1) || not_nil(car2)))
}

/// `NOT` of one argument.
pub fn not(obj: RefObject) -> (result: ResultRefObject)
    ensures
        outcome_of(result) == not_spec(value_of(obj)),
{
    let (car1, _) = match destructure_list(&obj) {
        Ok(pair) => pair,
        Err(e) => {
            return Err(e);
        },
    };
    Ok(truth_value(!not_nil(car1)))
}

/// `CAR`: the first element of the list that is the argument.
pub fn car(obj: RefObject) -> (result: ResultRefObject)
    ensures
        outcome_of(result) == car_spec(value_of(obj)),
{
    if not_nil(&obj) {
        let (list, _) = match destructure_list(&obj) {
            Ok(pair) => pair,
            Err(e) => {
                return Err(e);
            },
        };
        match destructure_list(list) {
            Ok((first, _)) => Ok(Arc::clone(first)),
            Err(e) => Err(e),
        }
    } else {
        result_nil()
    }
}

/// `CDR`: the list that is the argument without its first element.
pub fn cdr(obj: RefObject) -> (result: ResultRefObject)
    ensures
        outcome_of(result) == cdr_spec(value_of(obj)),
{
    if not_nil(&obj) {
        let (list, _) = match destructure_list(&obj) {
            Ok(pair) => pair,
            Err(e) => {
                return Err(e);
            },
        };
        match destructure_list(list) {
            Ok((_, rest)) => Ok(Arc::clone(rest)),
            Err(e) => Err(e),
        }
    } else {
        result_nil()
    }
}

/// `>` of two integers.
pub fn greater_than(obj: RefObject) -> (result: ResultRefObject)
    ensures
        outcome_of(result) == compare_spec(Comparison::Greater, value_of(obj)),
{
    compare(Comparison::Greater, obj)
}

/// `<` of two integers.
pub fn less_than(obj: RefObject) -> (result: ResultRefObject)
    ensures
        outcome_of(result) == compare_spec(Comparison::Less, value_of(obj)),
{
    compare(Comparison::Less, obj)
}

/// `=` of two integers.
pub fn equal_to(obj: RefObject) -> (result: ResultRefObject)
    ensures
        outcome_of(result) == compare_spec(Comparison::Equal, value_of(obj)),
{
    compare(Comparison::Equal, obj)
}

/// `QUOTE`: the argument as it stands.
pub fn quote(obj: RefObject) -> (result: ResultRefObject)
    ensures
        outcome_of(result) == quote_spec(value_of(obj)),
{
    match destructure_list(&obj) {
        Ok((first, _)) => Ok(Arc::clone(first)),
        Err(e) => Err(e),
    }
}

impl Primitive {
    /// Applies the operator to a list of arguments.
    pub fn call(self, args: RefObject) -> (result: ResultRefObject)
        ensures
            outcome_of(result) == primitive_spec(self, value_of(args)),
    {
        match self {
            Primitive::Quote => quote(args),
            Primitive::And => and(args),
            Primitive::Or => or(args),
            Primitive::Not => not(args),
            Primitive::Car => car(args),
            Primitive::Cdr => cdr(args),
            Primitive::Sum => sum(args),
            Primitive::Sub => self::sub(args),
            Primitive::Mult => mult(args),
            Primitive::Div => div(args),
            Primitive::EqualTo => equal_to(args),
            Primitive::LessThan => less_than(args),
            Primitive::GreaterThan => greater_than(args),
        }
    }
}

/// The frames with the operator `function` bound, in the innermost frame, to
/// `name`, under which it is also shown.
pub open spec fn with_operator(frames: Frames, name: Seq<char>, function: Primitive) -> Frames {
    bind(frames, name, Value::Operator(name, function))
}

/// The frames with every built-in operator bound in the innermost frame.
pub open spec fn with_operators(frames: Frames) -> Frames {
    let frames = with_operator(frames, "QUOTE"@, Primitive::Quote);
    let frames = with_operator(frames, "AND"@, Primitive::And);
    let frames = with_operator(frames, "OR"@, Primitive::Or);
    let frames = with_operator(frames, "NOT"@, Primitive::Not);
    let frames = with_operator(frames, "CAR"@, Primitive::Car);
    let frames = with_operator(frames, "CDR"@, Primitive::Cdr);
    let frames = with_operator(frames, "+"@, Primitive::Sum);
    let frames = with_operator(frames, "-"@, Primitive::Sub);
    let frames = with_operator(frames, "*"@, Primitive::Mult);
    let frames = with_operator(frames, "/"@, Primitive::Div);
    let frames = with_operator(frames, "="@, Primitive::EqualTo);
    let frames = with_operator(frames, "<"@, Primitive::LessThan);
    with_operator(frames, ">"@, Primitive::GreaterThan)
}

/// The operator that the name stands for, where it is the name of a built-in
/// operator.
pub open spec fn operator_named(name: Seq<char>) -> Option<Primitive> {
    if name == "QUOTE"@ {
        Some(Primitive::Quote)
    } else if name == "AND"@ {
        Some(Primitive::And)
    } else if name == "OR"@ {
        Some(Primitive::Or)
    } else if name == "NOT"@ {
        Some(Primitive::Not)
    } else if name == "CAR"@ {
        Some(Primitive::Car)
    } else if name == "CDR"@ {
        Some(Primitive::Cdr)
    } else if name == "+"@ {
        Some(Primitive::Sum)
    } else if name == "-"@ {
        Some(Primitive::Sub)
    } else if name == "*"@ {
        Some(Primitive::Mult)
    } else if name == "/"@ {
        Some(Primitive::Div)
    } else if name == "="@ {
        Some(Primitive::EqualTo)
    } else if name == "<"@ {
        Some(Primitive::LessThan)
    } else if name == ">"@ {
        Some(Primitive::GreaterThan)
    } else {
        None
    }
}

/// With the operators bound, each of their thirteen names is looked up as its
/// operator, and every other name as before.
pub proof fn lemma_operators_are_bound(frames: Frames, name: Seq<char>)
    requires
        frames.len() > 0,
    ensures
        with_operators(frames).len() == frames.len(),
        lookup(with_operators(frames), name) == match operator_named(name) {
            Some(function) => Some(Value::Operator(name, function)),
            None => lookup(frames, name),
        },
{
    reveal_strlit("QUOTE");
    reveal_strlit("AND");
    reveal_strlit("OR");
    reveal_strlit("NOT");
    reveal_strlit("CAR");
    reveal_strlit("CDR");
    reveal_strlit("+");
    reveal_strlit("-");
    reveal_strlit("*");
    reveal_strlit("/");
    reveal_strlit("=");
    reveal_strlit("<");
    reveal_strlit(">");
    let bound = with_operators(frames);
    let top = frames.last();
    let names = seq![
        "QUOTE"@,
        "AND"@,
        "OR"@,
        "NOT"@,
        "CAR"@,
        "CDR"@,
        "+"@,
        "-"@,
        "*"@,
        "/"@,
        "="@,
        "<"@,
        ">"@,
    ];
    assert forall|i: int, j: int| 0 <= i < j < 13 implies names[i] != names[j] by {
        if names[i].len() == names[j].len() {
            assert(names[i][0] != names[j][0] || names[i][1] != names[j][1]);
        }
    }
    assert(names[0] == "QUOTE"@ && names[1] == "AND"@ && names[2] == "OR"@ && names[3] == "NOT"@
        && names[4] == "CAR"@ && names[5] == "CDR"@ && names[6] == "+"@ && names[7] == "-"@
        && names[8] == "*"@ && names[9] == "/"@ && names[10] == "="@ && names[11] == "<"@
        && names[12] == ">"@);
    assert(bound.len() == frames.len());
    assert(bound.drop_last() == frames.drop_last());
    assert(bound.last().contains_key(name) == (operator_named(name) is Some || top.contains_key(
        name,
    )));
    if operator_named(name) is None {
        assert(top.contains_key(name) ==> bound.last()[name] == top[name]);
    }
}

/// Binds one operator under its name.
fn register(environment: &mut RefEnvironment, name: &str, function: Primitive)
    ensures
        final(environment)@ == with_operator(old(environment)@, name@, function),
{
    let handle = Object::operator(String::from_str(name), function);
    environment.0.intern(String::from_str(name), handle);
}

/// Binds the built-in operators in the innermost frame of the environment.
pub fn initialize_operators(environment: &mut RefEnvironment)
    ensures
        final(environment)@ == with_operators(old(environment)@),
{
    register(environment, "QUOTE", Primitive::Quote);
    register(environment, "AND", Primitive::And);
    register(environment, "OR", Primitive::Or);
    register(environment, "NOT", Primitive::Not);
    register(environment, "CAR", Primitive::Car);
    register(environment, "CDR", Primitive::Cdr);
    register(environment, "+", Primitive::Sum);
    register(environment, "-", Primitive::Sub);
    register(environment, "*", Primitive::Mult);
    register(environment, "/", Primitive::Div);
    register(environment, "=", Primitive::EqualTo);
    register(environment, "<", Primitive::LessThan);
    register(environment, ">", Primitive::GreaterThan);
}

} // verus!
