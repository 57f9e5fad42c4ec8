use axon::ddd::constant::ENTITY_ANONYMOUS;
use axon::ddd::entity::{Arn, Entity};
use uuid::Uuid;

#[test]
fn test_arn() {
    let id = Uuid::new_v4().to_string();
    let entity = Entity::new(id, "hello-event".to_string());

    assert!(!entity.arn_string().is_empty());
    assert_eq!("hello-event", entity.arn_name());
}

#[test]
fn default_entity() {
    let e = Entity::default();

    assert_eq!(e.name(), ENTITY_ANONYMOUS);
    assert!(!e.id().is_empty());
}

#[test]
fn new_entity() {
    let id = Uuid::new_v4().to_string();
    let e = Entity::new(id.clone(), "hello".to_string());

    assert_eq!(e.name(), "hello");
    assert_eq!(e.id(), id);
}

#[test]
fn from_name_keeps_name_and_generates_id() {
    let a = Entity::from_name("SomeEvent".to_string());
    let b = Entity::from_name("SomeEvent".to_string());

    assert_eq!(a.name(), "SomeEvent");
    assert!(!a.id().is_empty());
    assert_eq!(a.id().len(), 36);
    assert_ne!(a.id(), b.id());
}

#[test]
fn entity_from_string_uses_name() {
    let e = Entity::from("greeting".to_string());

    assert_eq!(e.name(), "greeting");
    assert!(!e.id().is_empty());
}

#[test]
fn entity_display_and_arn_forms() {
    let e = Entity::new("123".to_string(), "SomeEvent".to_string());

    assert_eq!("SomeEvent:123", e.display_string());
    assert_eq!("arn:SomeEvent/123", e.arn_string());
}

#[test]
fn entity_ordering_is_total() {
    let a = Entity::new("1".to_string(), "a".to_string());
    let b = Entity::new("2".to_string(), "a".to_string());

    assert!(a < b);
    assert_eq!(a.clone(), a);
}
