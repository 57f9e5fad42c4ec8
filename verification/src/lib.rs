//! Building blocks for event-driven, domain-driven-design architectures:
//! message identity (`Entity`), ordered key/value attributes (`MetaData`),
//! opaque structured bodies (`Payload`), a `Message` capability, and the
//! `CorrelationProvider` strategies that decide which metadata a message
//! hands on to the messages produced while it is processed.

pub mod correlation;
pub mod ddd;
pub mod message;
