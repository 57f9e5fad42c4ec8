use vstd::prelude::*;

use crate::ddd::entity::{Entity, EntityView};
use crate::ddd::metadata::{MetaData, MetaView};
use crate::ddd::value::ValView;
use crate::message::payload::Payload;

verus! {

/// The message capability: a unit of domain activity that carries an
/// identity, cross-cutting attributes, and a typed body. Every accessor
/// returns an owned copy; a message is never mutated through this trait.
pub trait Message: Sized {
    /// The model of the message's identity.
    spec fn id_view(&self) -> EntityView;

    /// The model of the message's metadata entries, in insertion order.
    spec fn meta_view(&self) -> MetaView;

    /// The model of the message's payload.
    spec fn payload_view(&self) -> ValView;

    /// The identity of the message.
    fn identifier(&self) -> (e: Entity)
        ensures
            e@ == self.id_view(),
    ;

    /// The metadata of the message.
    fn metadata(&self) -> (m: MetaData)
        ensures
            m@ == self.meta_view(),
    ;

    /// The payload of the message.
    fn payload(&self) -> (p: Payload)
        ensures
            p@ == self.payload_view(),
    ;

    /// A copy of the message, with the same identity, metadata and payload.
    fn dup(&self) -> (d: Self)
        ensures
            d.id_view() == self.id_view(),
            d.meta_view() == self.meta_view(),
            d.payload_view() == self.payload_view(),
    ;
}

} // verus!
