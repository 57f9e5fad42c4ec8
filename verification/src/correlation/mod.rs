//! Correlation strategies: how the metadata that a message hands on to the
//! messages generated while processing it is computed.

use vstd::prelude::*;

use crate::ddd::metadata::MetaData;
use crate::message::base::Message;

pub mod multi;
pub mod origin;
pub mod simple;

verus! {

/// Defines the data from a message that should be attached as correlation
/// data to messages generated as a result of processing that message.
///
/// A provider is immutable after construction and never mutates the source
/// message; each implementation pins down its result in its own `ensures`.
pub trait CorrelationProvider<T: Message>: Send + Sync {
    /// A `MetaData` with the entries to attach as correlation data to
    /// generated messages while processing the given message.
    fn correlation_for(&self, message: T) -> MetaData;
}

} // verus!
