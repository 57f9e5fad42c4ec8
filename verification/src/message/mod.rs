//! The message capability and its generic realisation: a typed body
//! (`Payload`), the `Message` trait, and the generic `EventMessage`.

pub mod base;
pub mod generic;
pub mod payload;
