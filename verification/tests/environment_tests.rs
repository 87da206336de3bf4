use lisp_core::environment::{Environment, RefEnvironment};
use lisp_core::object::{integer_value, nil, Object};

#[test]
fn a_new_environment_binds_nil() {
    let environment = Environment::new();
    let found = environment.find_symbol(&"NIL".to_string());
    assert!(found.unwrap().as_ref().is_none());
    assert!(environment.find_symbol(&"X".to_string()).is_none());
}

#[test]
fn intern_binds_and_returns_the_value() {
    let mut environment = Environment::new();
    let value = environment.intern("X".to_string(), Object::integer(5));
    assert_eq!(Ok(5), integer_value(&value));
    let found = environment.find_symbol(&"X".to_string()).unwrap();
    assert_eq!(Ok(5), integer_value(&found));
}

#[test]
fn intern_replaces_an_earlier_binding_of_the_frame() {
    let mut environment = Environment::new();
    environment.intern("X".to_string(), Object::integer(5));
    environment.intern("X".to_string(), Object::integer(6));
    let found = environment.find_symbol(&"X".to_string()).unwrap();
    assert_eq!(Ok(6), integer_value(&found));
}

#[test]
fn names_must_match_letter_for_letter() {
    let mut environment = Environment::new();
    environment.intern("ABC".to_string(), Object::integer(1));
    assert!(environment.find_symbol(&"ABC".to_string()).is_some());
    assert!(environment.find_symbol(&"abc".to_string()).is_none());
    assert!(environment.find_symbol(&"aBc".to_string()).is_none());
    assert!(environment.find_symbol(&"nil".to_string()).is_none());
    environment.intern("abc".to_string(), Object::integer(2));
    assert_eq!(Ok(1), integer_value(&environment.find_symbol(&"ABC".to_string()).unwrap()));
    assert_eq!(Ok(2), integer_value(&environment.find_symbol(&"abc".to_string()).unwrap()));
}

#[test]
fn an_inner_frame_shadows_and_is_discarded() {
    let mut environment = Environment::new();
    environment.intern("X".to_string(), Object::integer(1));
    environment.intern("Y".to_string(), Object::integer(10));
    environment.new_layer();
    environment.intern("X".to_string(), Object::integer(2));
    assert_eq!(Ok(2), integer_value(&environment.find_symbol(&"X".to_string()).unwrap()));
    assert_eq!(Ok(10), integer_value(&environment.find_symbol(&"Y".to_string()).unwrap()));
    environment.new_layer();
    assert_eq!(Ok(2), integer_value(&environment.find_symbol(&"X".to_string()).unwrap()));
    environment.drop_layer();
    environment.drop_layer();
    assert_eq!(Ok(1), integer_value(&environment.find_symbol(&"X".to_string()).unwrap()));
}

#[test]
fn intern_root_reaches_the_root_from_an_inner_frame() {
    let mut environment = Environment::new();
    environment.new_layer();
    environment.intern_root("G".to_string(), Object::integer(7));
    environment.intern("L".to_string(), Object::integer(8));
    environment.drop_layer();
    assert_eq!(Ok(7), integer_value(&environment.find_symbol(&"G".to_string()).unwrap()));
    assert!(environment.find_symbol(&"L".to_string()).is_none());
}

#[test]
fn unintern_removes_from_the_innermost_frame_only() {
    let mut environment = Environment::new();
    environment.intern("X".to_string(), Object::integer(1));
    environment.new_layer();
    environment.intern("X".to_string(), Object::integer(2));
    environment.unintern(&"X".to_string());
    assert_eq!(Ok(1), integer_value(&environment.find_symbol(&"X".to_string()).unwrap()));
    environment.unintern(&"X".to_string());
    assert_eq!(Ok(1), integer_value(&environment.find_symbol(&"X".to_string()).unwrap()));
    environment.drop_layer();
    environment.unintern(&"X".to_string());
    assert!(environment.find_symbol(&"X".to_string()).is_none());
}

#[test]
fn unintern_of_a_name_that_is_not_bound_changes_nothing() {
    let mut environment = Environment::new();
    environment.intern("X".to_string(), Object::integer(1));
    environment.unintern(&"x".to_string());
    environment.unintern(&"Y".to_string());
    assert!(environment.find_symbol(&"X".to_string()).is_some());
    environment.unintern(&"X".to_string());
    assert!(environment.find_symbol(&"X".to_string()).is_none());
}

#[test]
fn a_handle_made_from_another_sees_its_bindings() {
    let mut root = RefEnvironment::new();
    root.0.intern("X".to_string(), Object::integer(1));
    let mut child = RefEnvironment::from(root);
    assert_eq!(Ok(1), integer_value(&child.0.find_symbol(&"X".to_string()).unwrap()));
    child.0.intern("X".to_string(), nil());
    assert!(child.0.find_symbol(&"X".to_string()).unwrap().as_ref().is_none());
    child.0.drop_layer();
    assert_eq!(Ok(1), integer_value(&child.0.find_symbol(&"X".to_string()).unwrap()));
}
