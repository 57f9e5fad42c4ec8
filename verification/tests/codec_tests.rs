use axon::ddd::entity::Entity;
use axon::ddd::metadata::MetaData;
use axon::ddd::value::Val;
use axon::message::base::Message;
use axon::message::generic::EventMessage;

#[test]
fn entity_value_round_trip() {
    let e = Entity::new("123".to_string(), "SomeEvent".to_string());
    let v = e.to_value();
    let back = Entity::from_value(&v).unwrap();

    assert_eq!(back, e);
}

#[test]
fn entity_value_shape_is_fixed() {
    let e = Entity::new("123".to_string(), "SomeEvent".to_string());
    let expected = Val::Obj(vec![
        ("id".to_string(), Val::Str("123".to_string())),
        ("name".to_string(), Val::Str("SomeEvent".to_string())),
    ]);

    assert_eq!(e.to_value(), expected);
}

#[test]
fn metadata_value_shape_is_fixed() {
    let mut m = MetaData::new();
    m.add("a".to_string(), Val::Int(1));
    let expected = Val::Obj(vec![("a".to_string(), Val::Int(1))]);

    assert_eq!(m.to_value(), expected);
}

#[test]
fn entity_from_value_rejects_wrong_shape() {
    assert_eq!(Entity::from_value(&Val::Null), None);
    assert_eq!(Entity::from_value(&Val::Str("x".to_string())), None);
    let wrong = Val::Obj(vec![("id".to_string(), Val::Int(7))]);
    assert_eq!(Entity::from_value(&wrong), None);
}

#[test]
fn metadata_value_round_trip() {
    let mut m = MetaData::new();
    m.add("a".to_string(), Val::Int(1));
    m.add("b".to_string(), Val::Str("two".to_string()));
    let v = m.to_value();
    let back = MetaData::from_value(&v).unwrap();

    assert_eq!(back, m);
}

#[test]
fn metadata_from_value_rejects_duplicate_keys() {
    let dup = Val::Obj(vec![
        ("k".to_string(), Val::Int(1)),
        ("k".to_string(), Val::Int(2)),
    ]);
    assert_eq!(MetaData::from_value(&dup), None);
    assert_eq!(MetaData::from_value(&Val::Int(3)), None);
}

#[test]
fn event_message_value_round_trip() {
    let m = EventMessage::new(
        "OrderPlaced".to_string(),
        Val::Obj(vec![("orderId".to_string(), Val::Str("A1".to_string()))]),
    )
    .add_meta("tenant".to_string(), Val::Str("t-1".to_string()));

    let v = m.to_value();
    let back = EventMessage::from_value(&v).unwrap();

    assert_eq!(back.identifier(), m.identifier());
    assert_eq!(back.metadata(), m.metadata());
    assert_eq!(back.payload(), m.payload());
}

#[test]
fn event_message_from_value_rejects_wrong_shape() {
    assert_eq!(EventMessage::from_value(&Val::Null), None);
    let wrong = Val::Obj(vec![("identifier".to_string(), Val::Null)]);
    assert_eq!(EventMessage::from_value(&wrong), None);
}
