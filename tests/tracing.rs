use jsonapi_middleware::lifecycle::{LifecycleAction, LifecycleEvent, RequestSpanLifecycle, SpanPhase};
use jsonapi_middleware::span::{
    classify_status, span_start_for, SpanContext, SpanOutcome, SpanVisibility,
    TraceableHttpResponse, REST_ROUTE_LABEL,
};

fn expected_open(parent: Option<SpanContext>) -> LifecycleAction {
    LifecycleAction::OpenSpan { start: span_start_for(parent) }
}

#[test]
fn root_span_for_success_passes_body_through() {
    let body = String::from("{\"data\":[]}");
    let mut lifecycle = RequestSpanLifecycle::new();
    let open = lifecycle.step(LifecycleEvent::Started { parent: None });
    match open {
        LifecycleAction::OpenSpan { start } => {
            assert_eq!(start.parent, None);
            assert_eq!(start.name, "/v1/rest");
            assert_eq!(start.group, "/v1/rest");
            assert_eq!(start.visibility, SpanVisibility::User);
        }
        other => panic!("expected an open, got {:?}", other),
    }
    let (close, returned) = lifecycle.complete(body.clone(), 200);
    assert_eq!(close, LifecycleAction::CloseSpan { outcome: SpanOutcome::Success });
    assert_eq!(returned, "{\"data\":[]}");
    assert_eq!(lifecycle.phase(), SpanPhase::Closed);
}

#[test]
fn error_response_closes_span_as_failure() {
    let mut lifecycle = RequestSpanLifecycle::new();
    assert_eq!(lifecycle.step(LifecycleEvent::Started { parent: None }), expected_open(None));
    let (close, returned) = lifecycle.complete(vec![1u8, 2, 3], 400);
    assert_eq!(close, LifecycleAction::CloseSpan { outcome: SpanOutcome::Failure });
    assert_eq!(returned, vec![1u8, 2, 3]);
}

#[test]
fn parent_context_becomes_span_parent() {
    let parent = SpanContext { trace_id: 0x4bf92f3577b34da6a3ce929d0e0e4736, span_id: 0x00f067aa0ba902b7 };
    let mut lifecycle = RequestSpanLifecycle::new();
    match lifecycle.step(LifecycleEvent::Started { parent: Some(parent) }) {
        LifecycleAction::OpenSpan { start } => assert_eq!(start.parent, Some(parent)),
        other => panic!("expected an open, got {:?}", other),
    }
}

#[test]
fn span_opens_and_closes_once() {
    let mut lifecycle = RequestSpanLifecycle::new();
    assert_eq!(lifecycle.phase(), SpanPhase::Pending);
    assert_eq!(
        lifecycle.step(LifecycleEvent::DownstreamCompleted { status: 200 }),
        LifecycleAction::Ignore
    );
    assert_eq!(lifecycle.phase(), SpanPhase::Pending);
    assert_eq!(lifecycle.step(LifecycleEvent::Started { parent: None }), expected_open(None));
    assert_eq!(lifecycle.phase(), SpanPhase::Running);
    assert_eq!(lifecycle.step(LifecycleEvent::Started { parent: None }), LifecycleAction::Ignore);
    assert_eq!(
        lifecycle.step(LifecycleEvent::DownstreamCompleted { status: 503 }),
        LifecycleAction::CloseSpan { outcome: SpanOutcome::Failure }
    );
    assert_eq!(
        lifecycle.step(LifecycleEvent::DownstreamCompleted { status: 200 }),
        LifecycleAction::Ignore
    );
    assert_eq!(lifecycle.step(LifecycleEvent::Started { parent: None }), LifecycleAction::Ignore);
    assert_eq!(lifecycle.phase(), SpanPhase::Closed);
}

#[test]
fn concurrent_requests_keep_their_own_spans() {
    let mut lifecycles: Vec<RequestSpanLifecycle> = (0..100).map(|_| RequestSpanLifecycle::new()).collect();
    let parents: Vec<Option<SpanContext>> = (0..100u64)
        .map(|i| if i % 3 == 0 { None } else { Some(SpanContext { trace_id: i as u128 + 1, span_id: i * 7 }) })
        .collect();
    for (i, lifecycle) in lifecycles.iter_mut().enumerate() {
        assert_eq!(lifecycle.step(LifecycleEvent::Started { parent: parents[i] }), expected_open(parents[i]));
    }
    for (i, lifecycle) in lifecycles.iter_mut().enumerate().rev() {
        let status: u16 = if i % 2 == 0 { 200 } else { 500 };
        let (close, body) = lifecycle.complete(i, status);
        let outcome = if i % 2 == 0 { SpanOutcome::Success } else { SpanOutcome::Failure };
        assert_eq!(close, LifecycleAction::CloseSpan { outcome });
        assert_eq!(body, i);
    }
    assert!(lifecycles.iter().all(|l| l.phase() == SpanPhase::Closed));
}

#[test]
fn status_classes_classify() {
    assert_eq!(classify_status(199), SpanOutcome::Failure);
    assert_eq!(classify_status(200), SpanOutcome::Success);
    assert_eq!(classify_status(204), SpanOutcome::Success);
    assert_eq!(classify_status(299), SpanOutcome::Success);
    assert_eq!(classify_status(300), SpanOutcome::Failure);
    assert_eq!(classify_status(404), SpanOutcome::Failure);
    assert_eq!(classify_status(500), SpanOutcome::Failure);
}

#[test]
fn traceable_response_keeps_response() {
    let traced = TraceableHttpResponse::new(String::from("payload"), 201, REST_ROUTE_LABEL);
    assert_eq!(traced.outcome(), SpanOutcome::Success);
    assert_eq!(traced.path, "/v1/rest");
    assert_eq!(traced.into_response(), "payload");
    let failed = TraceableHttpResponse::new((), 502, REST_ROUTE_LABEL);
    assert_eq!(failed.outcome(), SpanOutcome::Failure);
}
