use lisp_core::environment::RefEnvironment;
use lisp_core::errors::Error;
use lisp_core::evaluator::operators::{
    and, car, cdr, div, equal_to, greater_than, initialize_operators, less_than, mult, not, or,
    quote, sub, sum,
};
use lisp_core::object::{integer_value, nil, same_handle, Object, Primitive, RefObject};

fn list(items: Vec<RefObject>) -> RefObject {
    let mut result = nil();
    for item in items.into_iter().rev() {
        result = Object::cons(item, result);
    }
    result
}

fn integers(values: &[i32]) -> RefObject {
    list(values.iter().map(|v| Object::integer(*v)).collect())
}

fn is_true(handle: &RefObject) -> bool {
    *handle.as_ref() == Some(Object::Integer(1))
}

fn is_nil(handle: &RefObject) -> bool {
    handle.as_ref().is_none()
}

#[test]
fn sum_adds_all_arguments() {
    assert_eq!(Ok(1920), integer_value(&sum(integers(&[1000, 1000, 20, -100])).unwrap()));
    assert_eq!(Ok(5), integer_value(&sum(integers(&[5])).unwrap()));
    assert!(is_nil(&sum(nil()).unwrap()));
}

#[test]
fn sub_takes_the_others_from_the_first() {
    assert_eq!(Ok(5), integer_value(&sub(integers(&[10, 3, 2])).unwrap()));
    assert_eq!(Ok(-100), integer_value(&sub(integers(&[0, 100])).unwrap()));
    assert_eq!(Ok(7), integer_value(&sub(integers(&[7])).unwrap()));
    assert!(is_nil(&sub(nil()).unwrap()));
}

#[test]
fn mult_multiplies_all_arguments() {
    assert_eq!(Ok(5040), integer_value(&mult(integers(&[7, 6, 5, 4, 3, 2, 1])).unwrap()));
    assert_eq!(Ok(-15), integer_value(&mult(integers(&[3, -5])).unwrap()));
    assert_eq!(Ok(0), integer_value(&mult(integers(&[3, 0, 5])).unwrap()));
    assert!(is_nil(&mult(nil()).unwrap()));
}

#[test]
fn div_divides_from_left_to_right_towards_zero() {
    assert_eq!(Ok(2), integer_value(&div(integers(&[20, 2, 5])).unwrap()));
    assert_eq!(Ok(3), integer_value(&div(integers(&[7, 2])).unwrap()));
    assert_eq!(Ok(-3), integer_value(&div(integers(&[-7, 2])).unwrap()));
    assert_eq!(Ok(-3), integer_value(&div(integers(&[7, -2])).unwrap()));
    assert_eq!(Ok(3), integer_value(&div(integers(&[-7, -2])).unwrap()));
    assert_eq!(Ok(0), integer_value(&div(integers(&[1, 2])).unwrap()));
    assert_eq!(Ok(9), integer_value(&div(integers(&[9])).unwrap()));
    assert!(is_nil(&div(nil()).unwrap()));
}

#[test]
fn division_by_zero_is_an_error() {
    assert_eq!(Some(Error::DivisionByZero), div(integers(&[1, 0])).err());
    assert_eq!(Some(Error::DivisionByZero), div(integers(&[i32::MIN, 0])).err());
}

#[test]
fn results_that_do_not_fit_are_an_error() {
    assert_eq!(Some(Error::Overflow), sum(integers(&[i32::MAX, 1])).err());
    assert_eq!(Some(Error::Overflow), sum(integers(&[i32::MAX, 1, -1])).err());
    assert_eq!(Some(Error::Overflow), sub(integers(&[i32::MIN, 1])).err());
    assert_eq!(Some(Error::Overflow), mult(integers(&[65536, 65536])).err());
    assert_eq!(Some(Error::Overflow), div(integers(&[i32::MIN, -1])).err());
    assert_eq!(Ok(i32::MAX), integer_value(&sum(integers(&[i32::MAX - 1, 1])).unwrap()));
    assert_eq!(Ok(i32::MIN), integer_value(&sub(integers(&[i32::MIN + 1, 1])).unwrap()));
}

#[test]
fn arithmetic_wants_integers_in_a_list() {
    let mixed = list(vec![Object::integer(1), Object::string("2".to_string())]);
    assert_eq!(Some(Error::NotInteger), sum(mixed.clone()).err());
    assert_eq!(Some(Error::NotInteger), mult(mixed.clone()).err());
    assert_eq!(Some(Error::NotInteger), sub(mixed.clone()).err());
    assert_eq!(Some(Error::NotInteger), div(mixed).err());
    let with_nil = list(vec![nil(), Object::integer(1)]);
    assert_eq!(Some(Error::NotInteger), sub(with_nil).err());
    let dotted = Object::cons(Object::integer(1), Object::integer(2));
    assert_eq!(Some(Error::NotCons), sum(dotted.clone()).err());
    assert_eq!(Some(Error::NotCons), sub(dotted).err());
    assert_eq!(Some(Error::NotCons), sum(Object::integer(1)).err());
    assert_eq!(Some(Error::NotCons), div(Object::integer(1)).err());
}

#[test]
fn the_first_error_from_the_left_is_reported() {
    let args = list(vec![Object::integer(i32::MAX), Object::integer(1), Object::string("x".to_string())]);
    assert_eq!(Some(Error::Overflow), sum(args).err());
    let args = list(vec![Object::integer(1), Object::string("x".to_string()), Object::integer(0)]);
    assert_eq!(Some(Error::NotInteger), div(args).err());
}

#[test]
fn comparisons_give_one_or_nil() {
    assert!(is_true(&greater_than(integers(&[20, 10])).unwrap()));
    assert!(is_nil(&greater_than(integers(&[10, 20])).unwrap()));
    assert!(is_nil(&greater_than(integers(&[10, 10])).unwrap()));
    assert!(is_true(&less_than(integers(&[10, 20])).unwrap()));
    assert!(is_nil(&less_than(integers(&[20, 10])).unwrap()));
    assert!(is_nil(&less_than(integers(&[10, 10])).unwrap()));
    assert!(is_true(&equal_to(integers(&[10, 10])).unwrap()));
    assert!(is_nil(&equal_to(integers(&[10, -10])).unwrap()));
}

#[test]
fn comparisons_want_two_integers() {
    assert_eq!(Some(Error::NotCons), less_than(integers(&[1])).err());
    assert_eq!(Some(Error::NotCons), greater_than(nil()).err());
    assert_eq!(Some(Error::NotCons), equal_to(Object::integer(1)).err());
    let mixed = list(vec![Object::integer(1), Object::symbol("A".to_string())]);
    assert_eq!(Some(Error::NotInteger), less_than(mixed.clone()).err());
    assert_eq!(Some(Error::NotInteger), greater_than(mixed.clone()).err());
    assert_eq!(Some(Error::NotInteger), equal_to(mixed).err());
    let nil_first = list(vec![nil(), Object::integer(1)]);
    assert_eq!(Some(Error::NotInteger), equal_to(nil_first).err());
}

#[test]
fn and_or_not_go_by_nil() {
    let t = || Object::integer(0);
    let s = || Object::string(String::new());
    assert!(is_true(&and(list(vec![t(), s()])).unwrap()));
    assert!(is_nil(&and(list(vec![t(), nil()])).unwrap()));
    assert!(is_nil(&and(list(vec![nil(), t()])).unwrap()));
    assert!(is_nil(&and(list(vec![nil(), nil()])).unwrap()));
    assert!(is_true(&or(list(vec![t(), s()])).unwrap()));
    assert!(is_true(&or(list(vec![t(), nil()])).unwrap()));
    assert!(is_true(&or(list(vec![nil(), t()])).unwrap()));
    assert!(is_nil(&or(list(vec![nil(), nil()])).unwrap()));
    assert!(is_true(&not(list(vec![nil()])).unwrap()));
    assert!(is_nil(&not(list(vec![t()])).unwrap()));
    assert!(is_nil(&not(list(vec![s()])).unwrap()));
}

#[test]
fn and_or_not_want_their_arguments() {
    assert_eq!(Some(Error::NotCons), and(list(vec![Object::integer(1)])).err());
    assert_eq!(Some(Error::NotCons), or(nil()).err());
    assert_eq!(Some(Error::NotCons), not(nil()).err());
    assert_eq!(Some(Error::NotCons), not(Object::integer(1)).err());
}

#[test]
fn car_and_cdr_take_a_list_apart() {
    let inner = || integers(&[1, 2, 3]);
    let first = car(list(vec![inner()])).unwrap();
    assert_eq!(Ok(1), integer_value(&first));
    let rest = cdr(list(vec![inner()])).unwrap();
    assert!(same_handle(&integers(&[2, 3]), &rest));
    let last = cdr(list(vec![integers(&[1])])).unwrap();
    assert!(is_nil(&last));
    assert!(is_nil(&car(nil()).unwrap()));
    assert!(is_nil(&cdr(nil()).unwrap()));
}

#[test]
fn car_and_cdr_want_a_list() {
    assert_eq!(Some(Error::NotCons), car(list(vec![Object::integer(1)])).err());
    assert_eq!(Some(Error::NotCons), cdr(list(vec![Object::integer(1)])).err());
    assert_eq!(Some(Error::NotCons), car(list(vec![nil()])).err());
    assert_eq!(Some(Error::NotCons), cdr(list(vec![nil()])).err());
    assert_eq!(Some(Error::NotCons), car(Object::integer(1)).err());
}

#[test]
fn quote_returns_its_first_argument() {
    let argument = integers(&[1, 2]);
    let result = quote(list(vec![argument.clone(), Object::integer(9)])).unwrap();
    assert!(same_handle(&argument, &result));
    assert_eq!(Some(Error::NotCons), quote(nil()).err());
}

#[test]
fn call_applies_the_operator_that_the_value_names() {
    let args = || integers(&[12, 4]);
    assert_eq!(Ok(16), integer_value(&Primitive::Sum.call(args()).unwrap()));
    assert_eq!(Ok(8), integer_value(&Primitive::Sub.call(args()).unwrap()));
    assert_eq!(Ok(48), integer_value(&Primitive::Mult.call(args()).unwrap()));
    assert_eq!(Ok(3), integer_value(&Primitive::Div.call(args()).unwrap()));
    assert!(is_true(&Primitive::GreaterThan.call(args()).unwrap()));
    assert!(is_nil(&Primitive::LessThan.call(args()).unwrap()));
    assert!(is_nil(&Primitive::EqualTo.call(args()).unwrap()));
    assert!(is_true(&Primitive::And.call(args()).unwrap()));
    assert!(is_true(&Primitive::Or.call(args()).unwrap()));
    assert!(is_nil(&Primitive::Not.call(args()).unwrap()));
    assert_eq!(Ok(12), integer_value(&Primitive::Quote.call(args()).unwrap()));
    assert_eq!(Ok(12), integer_value(&Primitive::Car.call(list(vec![args()])).unwrap()));
    assert!(same_handle(&integers(&[4]), &Primitive::Cdr.call(list(vec![args()])).unwrap()));
}

#[test]
fn initialize_operators_binds_every_operator() {
    let mut environment = RefEnvironment::new();
    initialize_operators(&mut environment);
    let expected = [
        ("QUOTE", Primitive::Quote),
        ("AND", Primitive::And),
        ("OR", Primitive::Or),
        ("NOT", Primitive::Not),
        ("CAR", Primitive::Car),
        ("CDR", Primitive::Cdr),
        ("+", Primitive::Sum),
        ("-", Primitive::Sub),
        ("*", Primitive::Mult),
        ("/", Primitive::Div),
        ("=", Primitive::EqualTo),
        ("<", Primitive::LessThan),
        (">", Primitive::GreaterThan),
    ];
    for (name, function) in expected {
        let found = environment.0.find_symbol(&name.to_string()).unwrap();
        match found.as_ref() {
            Some(Object::Operator(shown, f)) => {
                assert_eq!(name, shown);
                assert_eq!(function, *f);
            }
            _ => panic!("{} is not bound to an operator", name),
        }
    }
    assert!(environment.0.find_symbol(&"NIL".to_string()).unwrap().as_ref().is_none());
    assert!(environment.0.find_symbol(&"IF".to_string()).is_none());
}
