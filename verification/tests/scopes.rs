use lolo::environment::{Environment, DEFAULT_MAX_DEPTH};
use lolo::object::{Object, ObjectType};

#[test]
fn fresh_store_has_one_empty_scope() {
    let env = Environment::new();
    assert_eq!(env.current(), 0);
    assert_eq!(env.max_depth(), DEFAULT_MAX_DEPTH);
    assert_eq!(env.get("x"), None);
    assert_eq!(Environment::with_max_depth(7).max_depth(), 7);
}

#[test]
fn set_then_get() {
    let mut env = Environment::new();
    env.set("x", Object::from_int(1));
    env.set("y", Object::from_bool(true));
    assert_eq!(env.get("x").unwrap().object_type, ObjectType::Integer(1));
    assert_eq!(env.get("y").unwrap().object_type, ObjectType::Boolean(true));
    assert_eq!(env.get("z"), None);
    env.set("x", Object::from_int(2));
    assert_eq!(env.get("x").unwrap().object_type, ObjectType::Integer(2));
}

#[test]
fn lookup_walks_outwards() {
    let mut env = Environment::new();
    env.set("a", Object::from_int(1));
    let inner = env.new_enclosed(0).unwrap();
    assert_eq!(inner, 1);
    assert_eq!(env.current(), 0);
    assert!(env.enter(inner));
    assert_eq!(env.current(), 1);
    assert_eq!(env.get("a").unwrap().object_type, ObjectType::Integer(1));
    let innermost = env.new_enclosed(inner).unwrap();
    assert!(env.enter(innermost));
    assert_eq!(env.get("a").unwrap().object_type, ObjectType::Integer(1));
}

#[test]
fn binding_in_a_child_hides_and_does_not_change_the_parent() {
    let mut env = Environment::new();
    env.set("a", Object::from_int(1));
    let inner = env.new_enclosed(0).unwrap();
    env.enter(inner);
    env.set("a", Object::from_int(2));
    env.set("b", Object::from_int(3));
    assert_eq!(env.get("a").unwrap().object_type, ObjectType::Integer(2));
    assert!(env.enter(0));
    assert_eq!(env.get("a").unwrap().object_type, ObjectType::Integer(1));
    assert_eq!(env.get("b"), None);
}

#[test]
fn sibling_scopes_do_not_see_each_other() {
    let mut env = Environment::new();
    let left = env.new_enclosed(0).unwrap();
    let right = env.new_enclosed(0).unwrap();
    assert_ne!(left, right);
    env.enter(left);
    env.set("x", Object::from_int(1));
    env.enter(right);
    assert_eq!(env.get("x"), None);
}

#[test]
fn unknown_scopes_are_refused() {
    let mut env = Environment::new();
    assert_eq!(env.new_enclosed(1), None);
    assert_eq!(env.new_enclosed(99), None);
    assert!(!env.enter(1));
    assert_eq!(env.current(), 0);
    assert_eq!(env.new_enclosed(0), Some(1));
    assert_eq!(env.new_enclosed(1), Some(2));
}
