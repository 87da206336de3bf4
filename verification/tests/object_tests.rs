use lisp_core::errors::Error;
use lisp_core::object::{
    destructure_list, identical_handle, identical_object, integer_value, is_nil, nil, not_nil,
    render, result_nil, same_handle, symbol_value, Object, Primitive, RefObject, ResultRefObject,
};

fn list(items: Vec<RefObject>) -> RefObject {
    let mut result = nil();
    for item in items.into_iter().rev() {
        result = Object::cons(item, result);
    }
    result
}

#[test]
fn nil_is_the_only_false_value() {
    assert!(is_nil(&nil()));
    assert!(!is_nil(&Object::integer(0)));
    assert!(!not_nil(&nil()));
    assert!(not_nil(&Object::integer(0)));
    assert!(not_nil(&Object::string(String::new())));
    assert!(not_nil(&Object::symbol("NIL".to_string())));
}

#[test]
fn result_nil_is_ok_and_empty() {
    let result: ResultRefObject = result_nil();
    assert!(result.unwrap().as_ref().is_none());
}

#[test]
fn into_makes_a_handle_to_the_object() {
    let handle: RefObject = Object::Integer(7).into();
    assert_eq!(Some(Object::Integer(7)), *handle);
}

#[test]
fn into_makes_a_result_that_holds_the_object() {
    let result: ResultRefObject = Object::Integer(7).into();
    assert_eq!(Some(Object::Integer(7)), *result.unwrap());
}

#[test]
fn destructure_list_gives_both_halves() {
    let pair = Object::cons(Object::integer(1), Object::integer(2));
    let (car, cdr) = destructure_list(&pair).unwrap();
    assert_eq!(Ok(1), integer_value(car));
    assert_eq!(Ok(2), integer_value(cdr));
}

#[test]
fn destructure_list_refuses_what_is_no_cons() {
    assert_eq!(Some(Error::NotCons), destructure_list(&nil()).err());
    assert_eq!(Some(Error::NotCons), destructure_list(&Object::integer(1)).err());
    assert_eq!(
        Some(Error::NotCons),
        destructure_list(&Object::symbol("A".to_string())).err()
    );
}

#[test]
fn symbol_value_gives_the_name() {
    assert_eq!(Ok("ABC".to_string()), symbol_value(&Object::symbol("ABC".to_string())));
    assert_eq!(Err(Error::NotSymbol), symbol_value(&Object::string("ABC".to_string())));
    assert_eq!(Err(Error::NotSymbol), symbol_value(&nil()));
}

#[test]
fn integer_value_gives_the_number() {
    assert_eq!(Ok(-42), integer_value(&Object::integer(-42)));
    assert_eq!(Err(Error::NotInteger), integer_value(&Object::string("42".to_string())));
    assert_eq!(Err(Error::NotInteger), integer_value(&nil()));
}

#[test]
fn atoms_are_equal_by_content() {
    assert_eq!(Object::Integer(3), Object::Integer(3));
    assert_ne!(Object::Integer(3), Object::Integer(4));
    assert_eq!(Object::IString("a".to_string()), Object::IString("a".to_string()));
    assert_ne!(Object::IString("a".to_string()), Object::IString("b".to_string()));
    assert_eq!(Object::Symbol("A".to_string()), Object::Symbol("A".to_string()));
    assert_ne!(Object::Symbol("A".to_string()), Object::Symbol("B".to_string()));
    assert_ne!(Object::Symbol("A".to_string()), Object::IString("A".to_string()));
    assert_ne!(Object::Integer(1), Object::IString("1".to_string()));
}

#[test]
fn lists_are_equal_element_by_element() {
    let a = list(vec![Object::integer(1), Object::string("x".to_string())]);
    let b = list(vec![Object::integer(1), Object::string("x".to_string())]);
    let c = list(vec![Object::integer(1), Object::string("y".to_string())]);
    let d = list(vec![Object::integer(1)]);
    assert!(same_handle(&a, &b));
    assert!(!same_handle(&a, &c));
    assert!(!same_handle(&a, &d));
    assert!(!same_handle(&a, &nil()));
    assert!(same_handle(&nil(), &nil()));
}

#[test]
fn operators_are_equal_by_name() {
    assert_eq!(
        Object::Operator("+".to_string(), Primitive::Sum),
        Object::Operator("+".to_string(), Primitive::Mult)
    );
    assert_ne!(
        Object::Operator("+".to_string(), Primitive::Sum),
        Object::Operator("*".to_string(), Primitive::Sum)
    );
}

#[test]
fn a_lambda_equals_only_itself() {
    let params = list(vec![Object::symbol("X".to_string())]);
    let body = Object::symbol("X".to_string());
    let other = Object::symbol("Y".to_string());
    assert!(same_handle(
        &Object::lambda(params.clone(), body.clone()),
        &Object::lambda(params.clone(), body.clone())
    ));
    assert!(!same_handle(
        &Object::lambda(params.clone(), body),
        &Object::lambda(params, other)
    ));
    let adds = || Object::operator("F".to_string(), Primitive::Sum);
    let subtracts = || Object::operator("F".to_string(), Primitive::Sub);
    assert!(same_handle(&adds(), &subtracts()));
    assert!(same_handle(&list(vec![adds()]), &list(vec![subtracts()])));
    assert!(same_handle(&Object::lambda(nil(), adds()), &Object::lambda(nil(), adds())));
    assert!(!same_handle(&Object::lambda(nil(), adds()), &Object::lambda(nil(), subtracts())));
    assert!(!same_handle(
        &Object::lambda(list(vec![adds()]), nil()),
        &Object::lambda(list(vec![subtracts()]), nil())
    ));
    assert_ne!(Object::Lambda(nil(), adds()), Object::Lambda(nil(), subtracts()));
    assert_eq!(Object::Lambda(nil(), adds()), Object::Lambda(nil(), adds()));
}

#[test]
fn identical_values_are_the_same_in_every_part() {
    let adds = || Object::operator("F".to_string(), Primitive::Sum);
    let subtracts = || Object::operator("F".to_string(), Primitive::Sub);
    assert!(identical_handle(&adds(), &adds()));
    assert!(!identical_handle(&adds(), &subtracts()));
    assert!(!identical_handle(&adds(), &Object::operator("G".to_string(), Primitive::Sum)));
    assert!(identical_handle(&nil(), &nil()));
    assert!(!identical_handle(&nil(), &Object::integer(0)));
    assert!(identical_handle(&Object::integer(3), &Object::integer(3)));
    assert!(!identical_handle(&Object::integer(3), &Object::integer(4)));
    assert!(identical_handle(
        &Object::string("a".to_string()),
        &Object::string("a".to_string())
    ));
    assert!(!identical_handle(
        &Object::string("a".to_string()),
        &Object::symbol("a".to_string())
    ));
    assert!(identical_handle(
        &list(vec![Object::integer(1), adds()]),
        &list(vec![Object::integer(1), adds()])
    ));
    assert!(!identical_handle(
        &list(vec![Object::integer(1), adds()]),
        &list(vec![Object::integer(1), subtracts()])
    ));
    assert!(!identical_handle(&list(vec![adds()]), &list(vec![adds(), adds()])));
    assert!(identical_object(
        &Object::Lambda(nil(), adds()),
        &Object::Lambda(nil(), adds())
    ));
    assert!(!identical_object(&Object::Integer(1), &Object::Symbol("1".to_string())));
}

#[test]
fn into_makes_a_boxed_result_that_holds_the_object() {
    let boxed: Box<ResultRefObject> = Object::Integer(7).into();
    assert_eq!(Some(Object::Integer(7)), *(*boxed).unwrap());
}

#[test]
fn integers_render_in_decimal() {
    assert_eq!("0", Object::Integer(0).render());
    assert_eq!("7", Object::Integer(7).render());
    assert_eq!("1920", Object::Integer(1920).render());
    assert_eq!("-15", Object::Integer(-15).render());
    assert_eq!("2147483647", Object::Integer(i32::MAX).render());
    assert_eq!("-2147483648", Object::Integer(i32::MIN).render());
}

#[test]
fn strings_render_between_quotes() {
    assert_eq!("\"TRUE-FALSE\"", Object::IString("TRUE-FALSE".to_string()).render());
    assert_eq!("\"\"", Object::IString(String::new()).render());
}

#[test]
fn symbols_and_operators_render_as_their_names() {
    assert_eq!("FACT", Object::Symbol("FACT".to_string()).render());
    assert_eq!("+", Object::Operator("+".to_string(), Primitive::Sum).render());
}

#[test]
fn lists_render_in_parentheses_with_spaces() {
    let inner = list(vec![Object::symbol("X".to_string()), Object::symbol("Y".to_string())]);
    let outer = list(vec![Object::symbol("F".to_string()), inner, Object::integer(10)]);
    assert_eq!("( F ( X Y ) 10 )", outer.as_ref().as_ref().unwrap().render());
}

#[test]
fn empty_lists_render_as_a_pair_of_parentheses() {
    let l = list(vec![Object::symbol("A".to_string()), nil(), Object::symbol("B".to_string())]);
    assert_eq!("( A ( ) B )", l.as_ref().as_ref().unwrap().render());
    assert_eq!("( A ( ) B )", render(&l));
    assert_eq!("( )", render(&nil()));
    assert_eq!("( ( ) )", render(&list(vec![nil()])));
}

#[test]
fn a_handle_renders_as_its_value() {
    assert_eq!("12", render(&Object::integer(12)));
    assert_eq!("\"s\"", render(&Object::string("s".to_string())));
}

#[test]
fn a_dotted_pair_renders_its_tail_after_its_head() {
    let pair = Object::cons(Object::integer(1), Object::symbol("B".to_string()));
    assert_eq!("( 1B )", render(&pair));
}

#[test]
fn lambdas_render_with_parameters_and_body() {
    let params = list(vec![Object::symbol("X".to_string())]);
    let body = list(vec![
        Object::symbol("+".to_string()),
        Object::symbol("X".to_string()),
        Object::integer(1),
    ]);
    assert_eq!(
        "( LAMBDA  ( X ) ( + X 1 ) )",
        Object::Lambda(params, body).render()
    );
    assert_eq!("( LAMBDA  () )", Object::Lambda(nil(), nil()).render());
}
