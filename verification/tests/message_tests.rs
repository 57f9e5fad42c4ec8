use axon::ddd::constant::{ENTITY_ID_KEY, ENTITY_NAME_KEY};
use axon::ddd::entity::Entity;
use axon::ddd::metadata::MetaData;
use axon::ddd::value::Val;
use axon::message::base::Message;
use axon::message::generic::EventMessage;
use axon::message::payload::Payload;

#[test]
fn build_generic_event_message() {
    let expected_id = Entity::new("id".to_string(), "name".to_string());
    let expected_payload = Payload::new(Val::Str("my payload".to_string()));

    let event_message = EventMessage::new(
        "some_event".to_string(),
        Val::Str("my payload".to_string()),
    )
    .set_identifier(expected_id.clone());

    assert_eq!(event_message.identifier(), expected_id);
    assert_eq!(event_message.payload(), expected_payload);
}

#[test]
fn simple_payload() {
    let payload = Payload::new(Val::Int(123));

    assert!(payload.value().is_number());
    assert_eq!(payload.value().as_i64().unwrap(), 123);
}

#[test]
fn metadata_add_overwrites() {
    let mut m = MetaData::new();
    m.add("k".to_string(), Val::Str("v".to_string()));
    m.add("k".to_string(), Val::Str("v2".to_string()));

    assert_eq!(m.len(), 1);
    assert_eq!(m.get("k"), Some(&Val::Str("v2".to_string())));
}

#[test]
fn metadata_keeps_insertion_order_on_overwrite() {
    let mut m = MetaData::new();
    m.add("a".to_string(), Val::Int(1));
    m.add("b".to_string(), Val::Int(2));
    m.add("a".to_string(), Val::Int(3));

    assert_eq!(m.len(), 2);
    assert_eq!(m.get("a"), Some(&Val::Int(3)));
    assert_eq!(m.get("b"), Some(&Val::Int(2)));
}

#[test]
fn metadata_merge_later_wins() {
    let mut a = MetaData::new();
    a.add("x".to_string(), Val::Int(1));
    a.add("y".to_string(), Val::Int(2));

    let mut b = MetaData::new();
    b.add("y".to_string(), Val::Int(20));
    b.add("z".to_string(), Val::Int(30));

    a.merge(&b);

    assert_eq!(a.len(), 3);
    assert_eq!(a.get("x"), Some(&Val::Int(1)));
    assert_eq!(a.get("y"), Some(&Val::Int(20)));
    assert_eq!(a.get("z"), Some(&Val::Int(30)));
}

#[test]
fn new_event_message_scenario() {
    let payload = Val::Obj(vec![("orderId".to_string(), Val::Str("A1".to_string()))]);
    let message = EventMessage::new("OrderPlaced".to_string(), payload.clone());

    assert_eq!(message.identifier().name(), "OrderPlaced");
    assert_eq!(message.payload().value(), &payload);

    let meta = message.metadata();
    assert_eq!(
        meta.get(ENTITY_NAME_KEY),
        Some(&Val::Str("OrderPlaced".to_string()))
    );
    assert_eq!(
        meta.get(ENTITY_ID_KEY),
        Some(&Val::Str(message.identifier().id()))
    );
}

#[test]
fn add_meta_delegates_to_metadata() {
    let message = EventMessage::new("evt".to_string(), Val::Null)
        .add_meta("tenant".to_string(), Val::Str("t-1".to_string()));

    assert_eq!(
        message.metadata().get("tenant"),
        Some(&Val::Str("t-1".to_string()))
    );
}

#[test]
fn event_message_display_uses_identity() {
    let message = EventMessage::new("evt".to_string(), Val::Null)
        .set_identifier(Entity::new("9".to_string(), "evt".to_string()));

    assert_eq!("evt:9", message.display_string());
}
