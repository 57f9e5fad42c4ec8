use vstd::prelude::*;

use crate::ddd::entity::{
    Entity, EntityView, entity_of_value, entity_value_view, lemma_entity_value_round_trip,
};
use crate::ddd::metadata::{
    MetaData, MetaView, entity_metadata_view, lemma_metadata_value_round_trip, meta_add,
    metadata_of_value, metadata_value_view, unique_keys,
};
use crate::ddd::value::{Val, ValView, str_eq, vview};
use crate::message::base::Message;
use crate::message::payload::Payload;

verus! {

broadcast use vstd::std_specs::vec::group_vec_axioms;

/// A generic event message: an identity, metadata seeded from that
/// identity, and a structured payload. Domain-specific event messages
/// should be structs of their own that implement [`Message`].
#[derive(Debug, PartialEq)]
pub struct EventMessage {
    /// Unique identifier of the `EventMessage`.
    identifier: Entity,
    /// Metadata of the `EventMessage`.
    metadata: MetaData,
    /// Payload of the `EventMessage`.
    payload: Payload,
}

impl EventMessage {
    /// Constructs a new `EventMessage` from the given event name and
    /// payload: a fresh identity named after the event, metadata seeded
    /// from that identity under the entity keys, and the payload as given.
    pub fn new(event_name: String, payload: Val) -> (r: EventMessage)
        ensures
            r.id_view().name == event_name@,
            r.id_view().id.len() == 36,
            r.meta_view() == entity_metadata_view(r.id_view()),
            r.payload_view() == payload@,
    {
        let identifier = Entity::from_name(event_name);
        let metadata = identifier.as_metadata();
        EventMessage { identifier, metadata, payload: Payload::new(payload) }
    }

    /// Replaces the identity of the message. The metadata is not re-seeded:
    /// a caller that wants the entity keys to match must derive them again.
    pub fn set_identifier(self, identifier: Entity) -> (r: EventMessage)
        ensures
            r.id_view() == identifier@,
            r.meta_view() == self.meta_view(),
            r.payload_view() == self.payload_view(),
    {
        let EventMessage { identifier: _, metadata, payload } = self;
        EventMessage { identifier, metadata, payload }
    }

    /// Adds a metadata entry; an entry already under the key is overwritten.
    pub fn add_meta(self, key: String, value: Val) -> (r: EventMessage)
        ensures
            r.meta_view() == meta_add(self.meta_view(), key@, value@),
            r.id_view() == self.id_view(),
            r.payload_view() == self.payload_view(),
    {
        let EventMessage { identifier, mut metadata, payload } = self;
        metadata.add(key, value);
        EventMessage { identifier, metadata, payload }
    }

    /// Renders the message as its identity, `"{name}:{id}"`.
    pub fn display_string(&self) -> (r: String)
        ensures
            r@ == self.id_view().name + ":"@ + self.id_view().id,
    {
        self.identifier.display_string()
    }
}

/// An event message rendered as a structured value: an object with an
/// `"identifier"`, a `"metadata"` and a `"payload"` field, in that order,
/// each field encoded as its own type renders itself. The field names and
/// nesting are part of the externally visible contract of any consumer
/// persisting or transmitting messages.
pub open spec fn event_message_value_view(id: EntityView, meta: MetaView, payload: ValView) -> ValView {
    ValView::Obj(
        seq![
            ("identifier"@, entity_value_view(id)),
            ("metadata"@, metadata_value_view(meta)),
            ("payload"@, payload),
        ],
    )
}

/// The identity, metadata and payload a structured value stands for, if it
/// has the shape that [`event_message_value_view`] produces.
pub open spec fn event_message_of_value(v: ValView) -> Option<(EntityView, MetaView, ValView)> {
    match v {
        ValView::Obj(o) => {
            if o.len() == 3 && o[0].0 == "identifier"@ && o[1].0 == "metadata"@ && o[2].0
                == "payload"@ {
                match (entity_of_value(o[0].1), metadata_of_value(o[1].1)) {
                    (Some(e), Some(m)) => Some((e, m, o[2].1)),
                    _ => None,
                }
            } else {
                None
            }
        },
        _ => None,
    }
}

/// Decoding an encoded event message gives its identity, metadata and
/// payload back: the structured-value rendering loses nothing.
pub proof fn lemma_event_message_value_round_trip(id: EntityView, meta: MetaView, payload: ValView)
    requires
        unique_keys(meta),
    ensures
        event_message_of_value(event_message_value_view(id, meta, payload)) == Some(
            (id, meta, payload),
        ),
{
    lemma_entity_value_round_trip(id);
    lemma_metadata_value_round_trip(meta);
}

impl EventMessage {
    /// The message as a structured value, in the shape of
    /// [`event_message_value_view`].
    pub fn to_value(&self) -> (r: Val)
        ensures
            r@ == event_message_value_view(self.id_view(), self.meta_view(), self.payload_view()),
    {
        let mut fields: Vec<(String, Val)> = Vec::new();
        fields.push(("identifier".to_owned(), self.identifier.to_value()));
        fields.push(("metadata".to_owned(), self.metadata.to_value()));
        fields.push(("payload".to_owned(), self.payload.value().dup()));
        let r = Val::Obj(fields);
        proof {
            reveal_with_fuel(vview, 2);
            assert(vview(r)->Obj_0 =~~= event_message_value_view(
                self.id_view(),
                self.meta_view(),
                self.payload_view(),
            )->Obj_0);
        }
        r
    }

    /// The message a structured value stands for, or `None` when the value
    /// does not have the encoded shape.
    pub fn from_value(v: &Val) -> (r: Option<EventMessage>)
        ensures
            match r {
                Some(m) => event_message_of_value(v@) == Some(
                    (m.id_view(), m.meta_view(), m.payload_view()),
                ),
                None => event_message_of_value(v@) is None,
            },
    {
        proof {
            reveal_with_fuel(vview, 2);
        }
        match v {
            Val::Obj(fields) => {
                if fields.len() == 3 && str_eq(fields[0].0.as_str(), "identifier") && str_eq(
                    fields[1].0.as_str(),
                    "metadata",
                ) && str_eq(fields[2].0.as_str(), "payload") {
                    let identifier = match Entity::from_value(&fields[0].1) {
                        Some(e) => e,
                        None => {
                            return None;
                        },
                    };
                    let metadata = match MetaData::from_value(&fields[1].1) {
                        Some(m) => m,
                        None => {
                            return None;
                        },
                    };
                    let payload = fields[2].1.dup();
                    Some(EventMessage { identifier, metadata, payload: Payload::new(payload) })
                } else {
                    None
                }
            },
            _ => None,
        }
    }
}

impl Message for EventMessage {
    closed spec fn id_view(&self) -> EntityView {
        self.identifier@
    }

    closed spec fn meta_view(&self) -> MetaView {
        self.metadata@
    }

    closed spec fn payload_view(&self) -> ValView {
        self.payload@
    }

    fn identifier(&self) -> (e: Entity) {
        self.identifier.clone()
    }

    fn metadata(&self) -> (m: MetaData) {
        self.metadata.dup()
    }

    fn payload(&self) -> (p: Payload) {
        self.payload.dup()
    }

    fn dup(&self) -> (d: EventMessage) {
        EventMessage {
            identifier: self.identifier.clone(),
            metadata: self.metadata.dup(),
            payload: self.payload.dup(),
        }
    }
}

impl Clone for EventMessage {
    /// The copy has the same identity, metadata and payload.
    fn clone(&self) -> (r: EventMessage)
        ensures
            r.id_view() == self.id_view(),
            r.meta_view() == self.meta_view(),
            r.payload_view() == self.payload_view(),
    {
        Message::dup(self)
    }
}

} // verus!
