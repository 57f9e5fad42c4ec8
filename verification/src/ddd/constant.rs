use vstd::prelude::*;

verus! {

/// Key for an event's name in a metadata entry.
pub const EVENT_NAME_KEY: &'static str = "axon:event:name";

/// Key for an `Entity` struct in a metadata entry.
pub const ENTITY_KEY: &'static str = "axon:entity";

/// Key for the unique id of an `Entity` in a metadata entry.
pub const ENTITY_ID_KEY: &'static str = "axon:entity:id";

/// Key for the name of an `Entity` in a metadata entry.
pub const ENTITY_NAME_KEY: &'static str = "axon:entity:name";

/// Key for the correlation id in a metadata entry.
pub const CORRELATION_ID_KEY: &'static str = "axon:correlation:id";

/// Key for the trace id in a metadata entry.
pub const TRACE_ID_KEY: &'static str = "axon:trace:id";

/// Name of an anonymous `Entity`.
pub const ENTITY_ANONYMOUS: &'static str = "axon:event:name/anonymous";

/// The well-known keys are pairwise distinct; every rule that keeps
/// metadata keys unique leans on this.
pub proof fn lemma_well_known_keys_distinct()
    ensures
        EVENT_NAME_KEY@ != ENTITY_ID_KEY@,
        EVENT_NAME_KEY@ != ENTITY_NAME_KEY@,
        EVENT_NAME_KEY@ != CORRELATION_ID_KEY@,
        EVENT_NAME_KEY@ != TRACE_ID_KEY@,
        ENTITY_ID_KEY@ != ENTITY_NAME_KEY@,
        ENTITY_ID_KEY@ != CORRELATION_ID_KEY@,
        ENTITY_ID_KEY@ != TRACE_ID_KEY@,
        ENTITY_NAME_KEY@ != CORRELATION_ID_KEY@,
        ENTITY_NAME_KEY@ != TRACE_ID_KEY@,
        CORRELATION_ID_KEY@ != TRACE_ID_KEY@,
{
    reveal_strlit("axon:event:name");
    reveal_strlit("axon:entity:id");
    reveal_strlit("axon:entity:name");
    reveal_strlit("axon:correlation:id");
    reveal_strlit("axon:trace:id");
    assert(EVENT_NAME_KEY@.len() == 15);
    assert(ENTITY_ID_KEY@.len() == 14);
    assert(ENTITY_NAME_KEY@.len() == 16);
    assert(CORRELATION_ID_KEY@.len() == 19);
    assert(TRACE_ID_KEY@.len() == 13);
}

} // verus!
