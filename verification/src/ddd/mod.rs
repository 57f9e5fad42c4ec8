//! Domain-driven-design primitives: well-known metadata keys, structured
//! values, the `Entity` identity value, and the `MetaData` carrier.

pub mod constant;
pub mod entity;
pub mod metadata;
pub mod value;
