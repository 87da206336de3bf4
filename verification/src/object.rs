//! The value universe: a tagged union handled through shared handles.

use crate::errors::Error;
use crate::text::{decimal_of, push_integer};
use std::sync::Arc;
use vstd::prelude::*;
use vstd::string::StringExecFns;

verus! {

/// A shared handle to a value. The handle that holds nothing is Nil.
pub type RefObject = Arc<Option<Object>>;

/// A handle, or the error that kept it from being made.
pub type ResultRefObject = Result<RefObject, Error>;

/// The two halves of a cons cell, borrowed from it.
pub type DestrucuturedCons<'a> = (&'a RefObject, &'a RefObject);

/// The halves of a cons cell, or `NotCons`.
pub type ResultDestrucuturedCons<'a> = Result<DestrucuturedCons<'a>, Error>;

/// The built-in operators. An operator value carries one of these as the
/// function that it stands for.
#[derive(Debug, Clone, Copy, PartialEq, Eq, Structural)]
pub enum Primitive {
    /// `QUOTE`: the argument as it stands.
    Quote,
    /// `AND` of two values.
    And,
    /// `OR` of two values.
    Or,
    /// `NOT` of a value.
    Not,
    /// `CAR`: the first element of a list.
    Car,
    /// `CDR`: a list without its first element.
    Cdr,
    /// `+`: the sum of integers.
    Sum,
    /// `-`: the first integer minus the others.
    Sub,
    /// `*`: the product of integers.
    Mult,
    /// `/`: the first integer divided by the others.
    Div,
    /// `=` of two integers.
    EqualTo,
    /// `<` of two integers.
    LessThan,
    /// `>` of two integers.
    GreaterThan,
}

/// A value that is not Nil.
#[derive(Debug)]
pub enum Object {
    /// A signed 32-bit integer.
    Integer(i32),
    /// A string.
    IString(String),
    /// A pair: the first element of a list, and the rest of it.
    Cons(RefObject, RefObject),
    /// A function: its parameter list and its body.
    Lambda(RefObject, RefObject),
    /// A built-in operator: the name that it is shown by, and its function.
    Operator(String, Primitive),
    /// A symbol, by its name.
    Symbol(String),
}

/// The mathematical value that a handle stands for.
pub enum Value {
    /// The empty value: the end of every list, and the only false value.
    Nil,
    /// An integer.
    Integer(int),
    /// A string.
    Text(Seq<char>),
    /// A symbol, by its name.
    Symbol(Seq<char>),
    /// A pair: the first element of a list, and the rest of it.
    Cons(Box<Value>, Box<Value>),
    /// A function: its parameter list and its body.
    Lambda(Box<Value>, Box<Value>),
    /// A built-in operator: the name that it is shown by, and its function.
    Operator(Seq<char>, Primitive),
}

impl View for Object {
    type V = Value;

    open spec fn view(&self) -> Value
        decreases self,
    {
        match self {
            Object::Integer(i) => Value::Integer(*i as int),
            Object::IString(s) => Value::Text(s@),
            Object::Symbol(s) => Value::Symbol(s@),
            Object::Cons(car, cdr) => Value::Cons(
                Box::new(value_of(*car)),
                Box::new(value_of(*cdr)),
            ),
            Object::Lambda(params, body) => Value::Lambda(
                Box::new(value_of(*params)),
                Box::new(value_of(*body)),
            ),
            Object::Operator(name, f) => Value::Operator(name@, *f),
        }
    }
}

/// The value behind a handle: Nil where the handle is empty.
pub open spec fn value_of(handle: RefObject) -> Value
    decreases handle,
{
    match *handle {
        None => Value::Nil,
        Some(object) => object@,
    }
}

/// What a fallible operation returned, with the handle replaced by its value.
pub open spec fn outcome_of(result: ResultRefObject) -> Result<Value, Error> {
    match result {
        Ok(handle) => Ok(value_of(handle)),
        Err(e) => Err(e),
    }
}

impl Object {
    /// A handle to the integer `value`.
    pub fn integer(value: i32) -> (handle: RefObject)
        ensures
            value_of(handle) == Value::Integer(value as int),
    {
        Arc::new(Some(Object::Integer(value)))
    }

    /// A handle to the string `text`.
    pub fn string(text: String) -> (handle: RefObject)
        ensures
            value_of(handle) == Value::Text(text@),
    {
        Arc::new(Some(Object::IString(text)))
    }

    /// A handle to the symbol called `name`.
    pub fn symbol(name: String) -> (handle: RefObject)
        ensures
            value_of(handle) == Value::Symbol(name@),
    {
        Arc::new(Some(Object::Symbol(name)))
    }

    /// A handle to the pair of `car` and `cdr`.
    pub fn cons(car: RefObject, cdr: RefObject) -> (handle: RefObject)
        ensures
            value_of(handle) == Value::Cons(Box::new(value_of(car)), Box::new(value_of(cdr))),
    {
        Arc::new(Some(Object::Cons(car, cdr)))
    }

    /// A handle to the lambda with the given parameter list and body.
    pub fn lambda(params: RefObject, body: RefObject) -> (handle: RefObject)
        ensures
            value_of(handle) == Value::Lambda(
                Box::new(value_of(params)),
                Box::new(value_of(body)),
            ),
    {
        Arc::new(Some(Object::Lambda(params, body)))
    }

    /// A handle to the operator that is shown as `name` and computes
    /// `function`.
    pub fn operator(name: String, function: Primitive) -> (handle: RefObject)
        ensures
            value_of(handle) == Value::Operator(name@, function),
    {
        Arc::new(Some(Object::Operator(name, function)))
    }
}

/// Whether every chain of cons cells in the value ends in Nil: the value holds
/// no dotted pair.
pub open spec fn well_formed(value: Value) -> bool
    decreases value,
{
    match value {
        Value::Cons(car, cdr) => well_formed(*car) && well_formed(*cdr) && (*cdr is Nil
            || *cdr is Cons),
        Value::Lambda(params, body) => well_formed(*params) && well_formed(*body),
        _ => true,
    }
}

/// The text of a value: a list, the empty one too, between parentheses, and
/// every other value as `rendering_inner` gives it.
pub open spec fn rendering(value: Value) -> Seq<char>
    decreases value, 1nat,
{
    match value {
        Value::Cons(_, _) | Value::Nil => "("@ + rendering_inner(value) + " )"@,
        _ => rendering_inner(value),
    }
}

/// The text of a value, a list without its parentheses: each element after a
/// space. An integer is in decimal notation, a string between double quotes, a
/// symbol or an operator is its name.
pub open spec fn rendering_inner(value: Value) -> Seq<char>
    decreases value, 0nat,
{
    match value {
        Value::Nil => Seq::empty(),
        Value::Integer(i) => decimal_of(i),
        Value::Text(text) => "\""@ + text + "\""@,
        Value::Symbol(name) => name,
        Value::Operator(name, _) => name,
        Value::Cons(car, cdr) => " "@ + rendering(*car) + rendering_inner(*cdr),
        Value::Lambda(params, body) => "( LAMBDA "@ + (if *params is Nil {
            " ()"@
        } else {
            " "@ + rendering(*params)
        }) + (if *body is Nil {
            " )"@
        } else {
            " "@ + rendering(*body) + " )"@
        }),
    }
}

impl Object {
    /// The text of the value.
    pub fn render(&self) -> (text: String)
        ensures
            text@ == rendering(self@),
    {
        let mut text = String::new();
        self.fmt(&mut text);
        text
    }

    /// Appends the text of the value.
    fn fmt(&self, f: &mut String)
        ensures
            final(f)@ == old(f)@ + rendering(self@),
        decreases self, 1nat,
    {
        match self {
            Object::Cons(_, _) => {
                f.append("(");
                self.helper_fmt(f);
                f.append(" )");
                assert(f@ =~= old(f)@ + rendering(self@));
            },
            _ => self.helper_fmt(f),
        }
    }

    /// Appends the text of the value, a list without its parentheses.
    fn helper_fmt(&self, f: &mut String)
        ensures
            final(f)@ == old(f)@ + rendering_inner(self@),
        decreases self, 0nat,
    {
        match self {
            Object::Integer(v) => push_integer(f, *v),
            Object::IString(v) => {
                f.append("\"");
                f.append(v.as_str());
                f.append("\"");
                assert(f@ =~= old(f)@ + rendering_inner(self@));
            },
            Object::Symbol(v) => f.append(v.as_str()),
            Object::Cons(car, cdr) => {
                f.append(" ");
                if let Some(v) = &**car {
                    v.fmt(f);
                } else {
                    f.append("(");
                    f.append(" )");
                }
                assert(f@ =~= old(f)@ + (" "@ + rendering(value_of(*car))));
                if let Some(v) = &**cdr {
                    v.helper_fmt(f);
                }
                assert(f@ =~= old(f)@ + (" "@ + rendering(value_of(*car)) + rendering_inner(
                    value_of(*cdr),
                )));
            },
            Object::Lambda(params, expression) => {
                f.append("( LAMBDA ");
                if let Some(v) = &**params {
                    f.append(" ");
                    v.fmt(f);
                } else {
                    f.append(" ()");
                }
                let ghost head = "( LAMBDA "@ + (if value_of(*params) is Nil {
                    " ()"@
                } else {
                    " "@ + rendering(value_of(*params))
                });
                assert(f@ =~= old(f)@ + head);
                if let Some(v) = &**expression {
                    f.append(" ");
                    v.fmt(f);
                    f.append(" )");
                } else {
                    f.append(" )");
                }
                assert(f@ =~= old(f)@ + (head + (if value_of(*expression) is Nil {
                    " )"@
                } else {
                    " "@ + rendering(value_of(*expression)) + " )"@
                })));
            },
            Object::Operator(n, _) => f.append(n.as_str()),
        }
    }
}

/// The text of the value behind a handle.
pub fn render(handle: &RefObject) -> (text: String)
    ensures
        text@ == rendering(value_of(*handle)),
{
    match &**handle {
        Some(object) => object.render(),
        None => {
            let mut text = String::new();
            text.append("(");
            text.append(" )");
            assert(text@ =~= rendering(Value::Nil));
            text
        },
    }
}

/// The canonical empty handle.
pub fn nil() -> (handle: RefObject)
    ensures
        value_of(handle) == Value::Nil,
{
    Arc::new(None)
}

/// Nil, as the result of an operation that succeeded.
pub fn result_nil() -> (result: ResultRefObject)
    ensures
        outcome_of(result) == Ok::<Value, Error>(Value::Nil),
{
    Ok(Arc::new(None))
}

/// Whether the handle is Nil, that is, whether it counts as false.
pub fn is_nil(obj: &RefObject) -> (b: bool)
    ensures
        b == (value_of(*obj) is Nil),
{
    !not_nil(obj)
}

/// Whether the handle holds a value, that is, whether it counts as true.
pub fn not_nil(obj: &RefObject) -> (b: bool)
    ensures
        b == (value_of(*obj) != Value::Nil),
{
    match &**obj {
        Some(_) => true,
        None => false,
    }
}

/// The two halves of a cons cell; `NotCons` for anything else.
pub fn destructure_list<'a>(list: &'a RefObject) -> (result: ResultDestrucuturedCons<'a>)
    ensures
        match value_of(*list) {
            Value::Cons(car, cdr) => result is Ok && value_of(*result->Ok_0.0) == *car && value_of(
                *result->Ok_0.1,
            ) == *cdr,
            _ => result == Err::<DestrucuturedCons<'a>, Error>(Error::NotCons),
        },
{
    if let Some(Object::Cons(car, cdr)) = &**list {
        Ok((car, cdr))
    } else {
        Err(Error::NotCons)
    }
}

/// The name of a symbol; `NotSymbol` for anything else.
pub fn symbol_value(sym: &RefObject) -> (result: Result<String, Error>)
    ensures
        match value_of(*sym) {
            Value::Symbol(name) => result is Ok && result->Ok_0@ == name,
            _ => result == Err::<String, Error>(Error::NotSymbol),
        },
{
    if let Some(Object::Symbol(value)) = &**sym {
        Ok(value.clone())
    } else {
        Err(Error::NotSymbol)
    }
}

/// The number that an integer value holds; `NotInteger` for anything else.
pub fn integer_value(obj: &RefObject) -> (result: Result<i32, Error>)
    ensures
        match value_of(*obj) {
            Value::Integer(i) => result == Ok::<i32, Error>(i as i32) && i == result->Ok_0,
            _ => result == Err::<i32, Error>(Error::NotInteger),
        },
{
    if let Some(Object::Integer(value)) = &**obj {
        Ok(*value)
    } else {
        Err(Error::NotInteger)
    }
}

/// Equality of values: integers, strings and symbols by content, cons cells
/// part by part, operators by the name that they are shown by; Nil equals only
/// Nil. A lambda equals only itself: two lambdas are equal where they are one
/// and the same value, with the same operators behind the same names.
pub open spec fn same_value(a: Value, b: Value) -> bool
    decreases a,
{
    match (a, b) {
        (Value::Nil, Value::Nil) => true,
        (Value::Integer(x), Value::Integer(y)) => x == y,
        (Value::Text(x), Value::Text(y)) => x == y,
        (Value::Symbol(x), Value::Symbol(y)) => x == y,
        (Value::Cons(a1, a2), Value::Cons(b1, b2)) => same_value(*a1, *b1) && same_value(*a2, *b2),
        (Value::Lambda(a1, a2), Value::Lambda(b1, b2)) => *a1 == *b1 && *a2 == *b2,
        (Value::Operator(x, _), Value::Operator(y, _)) => x == y,
        (_, _) => false,
    }
}

/// Equality of values is an equivalence: every value equals itself, equality
/// does not depend on the side, and two values equal to a third are equal.
pub proof fn lemma_same_value_is_equivalence(a: Value, b: Value, c: Value)
    ensures
        same_value(a, a),
        same_value(a, b) == same_value(b, a),
        same_value(a, b) && same_value(b, c) ==> same_value(a, c),
    decreases a,
{
    match a {
        Value::Cons(a1, a2) => {
            lemma_same_value_is_equivalence(*a1, *a1, *a1);
            lemma_same_value_is_equivalence(*a2, *a2, *a2);
            match (b, c) {
                (Value::Cons(b1, b2), Value::Cons(c1, c2)) => {
                    lemma_same_value_is_equivalence(*a1, *b1, *c1);
                    lemma_same_value_is_equivalence(*a2, *b2, *c2);
                },
                (Value::Cons(b1, b2), _) => {
                    lemma_same_value_is_equivalence(*a1, *b1, *b1);
                    lemma_same_value_is_equivalence(*a2, *b2, *b2);
                },
                (_, _) => {},
            }
        },
        _ => {},
    }
}

/// Whether two handles stand for one and the same value: the same in every
/// part, operators with the same function behind the same name.
pub fn identical_handle(a: &RefObject, b: &RefObject) -> (r: bool)
    ensures
        r == (value_of(*a) == value_of(*b)),
    decreases *a,
{
    match (&**a, &**b) {
        (None, None) => true,
        (Some(x), Some(y)) => identical_object(x, y),
        (_, _) => false,
    }
}

/// Whether two objects stand for one and the same value.
pub fn identical_object(a: &Object, b: &Object) -> (r: bool)
    ensures
        r == (a@ == b@),
    decreases *a,
{
    match (a, b) {
        (Object::Integer(v1), Object::Integer(v2)) => *v1 == *v2,
        (Object::IString(v1), Object::IString(v2)) => *v1 == *v2,
        (Object::Cons(v11, v12), Object::Cons(v21, v22)) => identical_handle(v11, v21)
            && identical_handle(v12, v22),
        (Object::Lambda(v11, v12), Object::Lambda(v21, v22)) => identical_handle(v11, v21)
            && identical_handle(v12, v22),
        (Object::Operator(n1, f1), Object::Operator(n2, f2)) => *n1 == *n2 && *f1 == *f2,
        (Object::Symbol(v1), Object::Symbol(v2)) => *v1 == *v2,
        (_, _) => false,
    }
}

/// Whether two handles stand for equal values.
pub fn same_handle(a: &RefObject, b: &RefObject) -> (r: bool)
    ensures
        r == same_value(value_of(*a), value_of(*b)),
    decreases *a,
{
    match (&**a, &**b) {
        (None, None) => true,
        (Some(x), Some(y)) => same_object(x, y),
        (_, _) => false,
    }
}

/// Whether two objects stand for equal values.
pub fn same_object(a: &Object, b: &Object) -> (r: bool)
    ensures
        r == same_value(a@, b@),
    decreases *a,
{
    match (a, b) {
        (Object::Integer(v1), Object::Integer(v2)) => *v1 == *v2,
        (Object::IString(v1), Object::IString(v2)) => *v1 == *v2,
        (Object::Cons(v11, v12), Object::Cons(v21, v22)) => same_handle(v11, v21) && same_handle(
            v12,
            v22,
        ),
        (Object::Lambda(v11, v12), Object::Lambda(v21, v22)) => identical_handle(v11, v21)
            && identical_handle(v12, v22),
        (Object::Operator(n1, _), Object::Operator(n2, _)) => *n1 == *n2,
        (Object::Symbol(v1), Object::Symbol(v2)) => *v1 == *v2,
        (_, _) => false,
    }
}

impl PartialEq for Object {
    fn eq(&self, other: &Object) -> (r: bool) {
        same_object(self, other)
    }
}

impl vstd::std_specs::cmp::PartialEqSpecImpl for Object {
    open spec fn obeys_eq_spec() -> bool {
        true
    }

    open spec fn eq_spec(&self, other: &Object) -> bool {
        same_value(self@, other@)
    }
}

impl From<Object> for ResultRefObject {
    fn from(obj: Object) -> (result: ResultRefObject) {
        Ok(Arc::new(Some(obj)))
    }
}

impl vstd::std_specs::convert::FromSpecImpl<Object> for ResultRefObject {
    open spec fn obeys_from_spec() -> bool {
        true
    }

    open spec fn from_spec(obj: Object) -> ResultRefObject {
        Ok(Arc::new(Some(obj)))
    }
}

impl From<Object> for Box<ResultRefObject> {
    fn from(obj: Object) -> (result: Box<ResultRefObject>) {
        Box::new(Ok(Arc::new(Some(obj))))
    }
}

impl vstd::std_specs::convert::FromSpecImpl<Object> for Box<ResultRefObject> {
    open spec fn obeys_from_spec() -> bool {
        true
    }

    open spec fn from_spec(obj: Object) -> Box<ResultRefObject> {
        Box::new(Ok(Arc::new(Some(obj))))
    }
}

impl From<Object> for RefObject {
    fn from(obj: Object) -> (handle: RefObject) {
        Arc::new(Some(obj))
    }
}

impl vstd::std_specs::convert::FromSpecImpl<Object> for RefObject {
    open spec fn obeys_from_spec() -> bool {
        true
    }

    open spec fn from_spec(obj: Object) -> RefObject {
        Arc::new(Some(obj))
    }
}

} // verus!
