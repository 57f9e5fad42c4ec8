use vstd::prelude::*;

use crate::correlation::CorrelationProvider;
use crate::ddd::constant::{CORRELATION_ID_KEY, TRACE_ID_KEY, lemma_well_known_keys_distinct};
use crate::ddd::entity::{EntityView, fresh_uuid_string};
use crate::ddd::metadata::{MetaData, MetaView, has_key, key_at, lookup, unique_keys};
use crate::ddd::value::{Val, ValView};
use crate::message::base::Message;

verus! {

/// How the trace id is chosen when a message roots a new causal chain:
/// equal to the chain's correlation id, or freshly generated per message.
#[derive(Clone, Copy, Debug, PartialEq, Eq)]
pub enum TraceRootMode {
    EqualsCorrelation,
    FreshId,
}

/// What an [`OriginCorrelationProvider`] computes. The correlation id is
/// forwarded from the source metadata when present, and otherwise derived
/// from the source message's own entity id; likewise the trace id, which at
/// a chain root is either the correlation value or the fresh string given
/// here as `fresh`.
pub open spec fn origin_corr(
    meta: MetaView,
    ident: EntityView,
    mode: TraceRootMode,
    fresh: Seq<char>,
) -> MetaView {
    let corr = if has_key(meta, CORRELATION_ID_KEY@) {
        lookup(meta, CORRELATION_ID_KEY@)
    } else {
        ValView::Str(ident.id)
    };
    let trace = if has_key(meta, TRACE_ID_KEY@) {
        lookup(meta, TRACE_ID_KEY@)
    } else if mode is FreshId {
        ValView::Str(fresh)
    } else {
        corr
    };
    seq![(CORRELATION_ID_KEY@, corr), (TRACE_ID_KEY@, trace)]
}

/// Derives correlation and trace identifiers from the source message's own
/// identity when no upstream correlation exists yet, establishing a new
/// causal chain root; otherwise forwards the existing chain identifiers.
#[derive(Clone, Copy, Debug)]
pub struct OriginCorrelationProvider {
    /// How the trace id is chosen at a chain root.
    pub trace_root: TraceRootMode,
}

impl OriginCorrelationProvider {
    /// A provider whose trace id at a chain root equals the correlation id.
    pub fn new() -> (r: OriginCorrelationProvider)
        ensures
            r.trace_root == TraceRootMode::EqualsCorrelation,
    {
        OriginCorrelationProvider { trace_root: TraceRootMode::EqualsCorrelation }
    }

    /// A provider with the given chain-root behaviour for the trace id.
    pub fn with_trace_root(mode: TraceRootMode) -> (r: OriginCorrelationProvider)
        ensures
            r.trace_root == mode,
    {
        OriginCorrelationProvider { trace_root: mode }
    }
}

impl<T: Message> CorrelationProvider<T> for OriginCorrelationProvider {
    /// Exactly the correlation and trace entries of `origin_corr`, for some
    /// fresh 36-character string (which the result only carries when a
    /// chain root is traced with a fresh id).
    fn correlation_for(&self, message: T) -> (r: MetaData)
        ensures
            exists|fresh: Seq<char>|
                fresh.len() == 36 && r@ == #[trigger] origin_corr(
                    message.meta_view(),
                    message.id_view(),
                    self.trace_root,
                    fresh,
                ),
    {
        let meta = message.metadata();
        let ident = message.identifier();
        let ghost mut gf: Seq<char> = Seq::new(36, |i: int| ' ');
        let corr: Val = match meta.get(CORRELATION_ID_KEY) {
            Some(v) => v.dup(),
            None => Val::Str(ident.id()),
        };
        let trace: Val = match meta.get(TRACE_ID_KEY) {
            Some(v) => v.dup(),
            None => match self.trace_root {
                TraceRootMode::FreshId => {
                    let f = fresh_uuid_string();
                    proof {
                        gf = f@;
                    }
                    Val::Str(f)
                },
                TraceRootMode::EqualsCorrelation => corr.dup(),
            },
        };
        let mut out = MetaData::new();
        out.add(correlation_id_key_string(), corr);
        out.add(trace_id_key_string(), trace);
        proof {
            lemma_well_known_keys_distinct();
            assert(out@ =~= origin_corr(
                message.meta_view(),
                message.id_view(),
                self.trace_root,
                gf,
            ));
            assert(gf.len() == 36);
        }
        out
    }
}

/// The correlation key as an owned string.
fn correlation_id_key_string() -> (r: String)
    ensures
        r@ == CORRELATION_ID_KEY@,
{
    CORRELATION_ID_KEY.to_owned()
}

/// The trace key as an owned string.
fn trace_id_key_string() -> (r: String)
    ensures
        r@ == TRACE_ID_KEY@,
{
    TRACE_ID_KEY.to_owned()
}

/// The origin provider's guarantee: the computed correlation data always
/// carries both well-known keys, with unique keys; an upstream correlation
/// id is forwarded unchanged, and at a chain root the correlation id is the
/// source message's own entity id.
pub proof fn lemma_origin_correlation(
    meta: MetaView,
    ident: EntityView,
    mode: TraceRootMode,
    fresh: Seq<char>,
)
    ensures
        unique_keys(origin_corr(meta, ident, mode, fresh)),
        has_key(origin_corr(meta, ident, mode, fresh), CORRELATION_ID_KEY@),
        has_key(origin_corr(meta, ident, mode, fresh), TRACE_ID_KEY@),
        has_key(meta, CORRELATION_ID_KEY@) ==> lookup(
            origin_corr(meta, ident, mode, fresh),
            CORRELATION_ID_KEY@,
        ) == lookup(meta, CORRELATION_ID_KEY@),
        !has_key(meta, CORRELATION_ID_KEY@) ==> lookup(
            origin_corr(meta, ident, mode, fresh),
            CORRELATION_ID_KEY@,
        ) == ValView::Str(ident.id),
        has_key(meta, TRACE_ID_KEY@) ==> lookup(origin_corr(meta, ident, mode, fresh), TRACE_ID_KEY@)
            == lookup(meta, TRACE_ID_KEY@),
{
    lemma_well_known_keys_distinct();
    let r = origin_corr(meta, ident, mode, fresh);
    assert(r[0].0 == CORRELATION_ID_KEY@);
    assert(r[1].0 == TRACE_ID_KEY@);
    assert(has_key(r, CORRELATION_ID_KEY@));
    assert(has_key(r, TRACE_ID_KEY@));
    assert(r[key_at(r, CORRELATION_ID_KEY@)].0 == CORRELATION_ID_KEY@);
    assert(key_at(r, CORRELATION_ID_KEY@) == 0);
    assert(r[key_at(r, TRACE_ID_KEY@)].0 == TRACE_ID_KEY@);
    assert(key_at(r, TRACE_ID_KEY@) == 1);
}

} // verus!
