use axon::correlation::CorrelationProvider;
use axon::correlation::multi::{MultiCorrelationProvider, Provider};
use axon::correlation::origin::{OriginCorrelationProvider, TraceRootMode};
use axon::correlation::simple::SimpleCorrelationProvider;
use axon::ddd::constant::{CORRELATION_ID_KEY, TRACE_ID_KEY};
use axon::ddd::value::Val;
use axon::message::base::Message;
use axon::message::generic::EventMessage;

#[test]
fn simple_provider_copies_configured_keys() {
    let message = EventMessage::new("evt".to_string(), Val::Null)
        .add_meta("tenant".to_string(), Val::Str("t-1".to_string()))
        .add_meta("region".to_string(), Val::Str("eu".to_string()));

    let provider =
        SimpleCorrelationProvider::new(vec!["tenant".to_string(), "missing".to_string()]);
    let corr = provider.correlation_for(message);

    assert_eq!(corr.len(), 1);
    assert_eq!(corr.get("tenant"), Some(&Val::Str("t-1".to_string())));
    assert_eq!(corr.get("missing"), None);
    assert_eq!(corr.get("region"), None);
}

#[test]
fn origin_provider_roots_new_chain() {
    let message = EventMessage::new("evt".to_string(), Val::Null);
    let id = message.identifier().id();

    let provider = OriginCorrelationProvider::new();
    let corr = provider.correlation_for(message);

    assert_eq!(corr.get(CORRELATION_ID_KEY), Some(&Val::Str(id.clone())));
    assert_eq!(corr.get(TRACE_ID_KEY), Some(&Val::Str(id.clone())));
    match corr.get(CORRELATION_ID_KEY) {
        Some(Val::Str(s)) => assert!(!s.is_empty()),
        other => panic!("correlation id missing: {:?}", other),
    }
}

#[test]
fn origin_provider_forwards_existing_chain() {
    let message = EventMessage::new("evt".to_string(), Val::Null)
        .add_meta(CORRELATION_ID_KEY.to_string(), Val::Str("c-1".to_string()))
        .add_meta(TRACE_ID_KEY.to_string(), Val::Str("t-9".to_string()));

    let provider = OriginCorrelationProvider::new();
    let corr = provider.correlation_for(message);

    assert_eq!(corr.get(CORRELATION_ID_KEY), Some(&Val::Str("c-1".to_string())));
    assert_eq!(corr.get(TRACE_ID_KEY), Some(&Val::Str("t-9".to_string())));
}

#[test]
fn origin_provider_fresh_trace_mode() {
    let message = EventMessage::new("evt".to_string(), Val::Null);
    let id = message.identifier().id();

    let provider = OriginCorrelationProvider::with_trace_root(TraceRootMode::FreshId);
    let corr = provider.correlation_for(message);

    assert_eq!(corr.get(CORRELATION_ID_KEY), Some(&Val::Str(id)));
    match corr.get(TRACE_ID_KEY) {
        Some(Val::Str(trace)) => assert_eq!(trace.len(), 36),
        other => panic!("trace id missing: {:?}", other),
    }
}

#[test]
fn multi_provider_merges_left_to_right() {
    let message = EventMessage::new("evt".to_string(), Val::Null)
        .add_meta("tenant".to_string(), Val::Str("t-1".to_string()))
        .add_meta(CORRELATION_ID_KEY.to_string(), Val::Str("c-1".to_string()));

    let p1 = SimpleCorrelationProvider::new(vec!["tenant".to_string()]);
    let p2 = OriginCorrelationProvider::new();

    let out1 = p1.correlation_for(message.clone());
    let mut out2 = out1.clone();
    out2.merge(&p2.correlation_for(message.clone()));

    let multi = MultiCorrelationProvider::new(vec![
        Provider::Simple(SimpleCorrelationProvider::new(vec!["tenant".to_string()])),
        Provider::Origin(OriginCorrelationProvider::new()),
    ]);
    let merged = multi.correlation_for(message);

    assert_eq!(merged, out2);
    assert_eq!(merged.get("tenant"), Some(&Val::Str("t-1".to_string())));
    assert_eq!(merged.get(CORRELATION_ID_KEY), Some(&Val::Str("c-1".to_string())));
}

#[test]
fn multi_provider_later_overrides_earlier() {
    let message = EventMessage::new("evt".to_string(), Val::Null)
        .add_meta(
            CORRELATION_ID_KEY.to_string(),
            Val::Str("from-source".to_string()),
        );

    // The simple provider copies the correlation key; the origin provider
    // then forwards the same upstream value: composition stays consistent.
    let multi = MultiCorrelationProvider::new(vec![
        Provider::Simple(SimpleCorrelationProvider::new(vec![
            CORRELATION_ID_KEY.to_string(),
        ])),
        Provider::Origin(OriginCorrelationProvider::new()),
    ]);
    let merged = multi.correlation_for(message);

    assert_eq!(
        merged.get(CORRELATION_ID_KEY),
        Some(&Val::Str("from-source".to_string()))
    );
}
