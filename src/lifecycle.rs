use vstd::prelude::*;

use crate::span::{
    classify_status, outcome_of, request_span_start, span_start_for, SpanContext, SpanOutcome,
    SpanStart, TraceableHttpResponse, REST_ROUTE_LABEL,
};

verus! {

/// Where one request's span stands.
#[derive(Clone, Copy, Debug, PartialEq, Eq, Structural)]
pub enum SpanPhase {
    /// No span has been opened yet.
    Pending,
    /// The span is open and the downstream chain runs inside it.
    Running,
    /// The span has been annotated and closed.
    Closed,
}

/// What the driver of a request reports to its lifecycle.
#[derive(Clone, Copy, Debug, PartialEq, Eq)]
pub enum LifecycleEvent {
    /// The request arrived; `parent` is what the tracer extracted from its headers.
    Started { parent: Option<SpanContext> },
    /// The downstream chain produced a response with this status.
    DownstreamCompleted { status: u16 },
}

/// What the driver must do next.
#[derive(Clone, Copy, Debug, PartialEq, Eq)]
pub enum LifecycleAction {
    /// Open this span and run the downstream chain inside it, once.
    OpenSpan { start: SpanStart },
    /// Annotate the open span with this outcome and close it.
    CloseSpan { outcome: SpanOutcome },
    /// The event does not fit the current phase: nothing is opened or closed.
    Ignore,
}

pub open spec fn next_phase(phase: SpanPhase, event: LifecycleEvent) -> SpanPhase {
    match (phase, event) {
        (SpanPhase::Pending, LifecycleEvent::Started { .. }) => SpanPhase::Running,
        (SpanPhase::Running, LifecycleEvent::DownstreamCompleted { .. }) => SpanPhase::Closed,
        _ => phase,
    }
}

pub open spec fn action_for(phase: SpanPhase, event: LifecycleEvent) -> LifecycleAction {
    match (phase, event) {
        (SpanPhase::Pending, LifecycleEvent::Started { parent }) => LifecycleAction::OpenSpan {
            start: request_span_start(parent),
        },
        (SpanPhase::Running, LifecycleEvent::DownstreamCompleted { status }) => {
            LifecycleAction::CloseSpan { outcome: outcome_of(status) }
        },
        _ => LifecycleAction::Ignore,
    }
}

/// The phase reached and the actions issued when `events` are fed, in order,
/// to a fresh lifecycle.
pub open spec fn run(events: Seq<LifecycleEvent>) -> (SpanPhase, Seq<LifecycleAction>)
    decreases events.len(),
{
    if events.len() == 0 {
        (SpanPhase::Pending, Seq::empty())
    } else {
        let (phase, actions) = run(events.drop_last());
        let event = events.last();
        (next_phase(phase, event), actions.push(action_for(phase, event)))
    }
}

pub open spec fn is_open(action: LifecycleAction) -> bool {
    action is OpenSpan
}

pub open spec fn is_close(action: LifecycleAction) -> bool {
    action is CloseSpan
}

pub open spec fn count_opens(actions: Seq<LifecycleAction>) -> nat
    decreases actions.len(),
{
    if actions.len() == 0 {
        0
    } else {
        count_opens(actions.drop_last()) + if is_open(actions.last()) { 1nat } else { 0nat }
    }
}

pub open spec fn count_closes(actions: Seq<LifecycleAction>) -> nat
    decreases actions.len(),
{
    if actions.len() == 0 {
        0
    } else {
        count_closes(actions.drop_last()) + if is_close(actions.last()) { 1nat } else { 0nat }
    }
}

/// The events a driver reports for one request: its arrival, then the
/// status of the downstream response.
pub open spec fn request_events(parent: Option<SpanContext>, status: u16) -> Seq<LifecycleEvent> {
    seq![LifecycleEvent::Started { parent }, LifecycleEvent::DownstreamCompleted { status }]
}

/// The span lifecycle of one inbound request.
pub struct RequestSpanLifecycle {
    phase: SpanPhase,
}

impl View for RequestSpanLifecycle {
    type V = SpanPhase;

    closed spec fn view(&self) -> SpanPhase {
        self.phase
    }
}

impl RequestSpanLifecycle {
    pub fn new() -> (r: Self)
        ensures
            r@ == SpanPhase::Pending,
    {
        RequestSpanLifecycle { phase: SpanPhase::Pending }
    }

    pub fn phase(&self) -> (r: SpanPhase)
        ensures
            r == self@,
    {
        self.phase
    }

    /// Feeds one event and returns the action it calls for.
    pub fn step(&mut self, event: LifecycleEvent) -> (r: LifecycleAction)
        ensures
            final(self)@ == next_phase(old(self)@, event),
            r == action_for(old(self)@, event),
    {
        match (self.phase, event) {
            (SpanPhase::Pending, LifecycleEvent::Started { parent }) => {
                self.phase = SpanPhase::Running;
                LifecycleAction::OpenSpan { start: span_start_for(parent) }
            },
            (SpanPhase::Running, LifecycleEvent::DownstreamCompleted { status }) => {
                self.phase = SpanPhase::Closed;
                LifecycleAction::CloseSpan { outcome: classify_status(status) }
            },
            _ => LifecycleAction::Ignore,
        }
    }

    /// Reports the downstream response: pairs it with the route label to
    /// decide how the span is annotated, and hands it back unchanged.
    pub fn complete<R>(&mut self, response: R, status: u16) -> (r: (LifecycleAction, R))
        ensures
            final(self)@ == next_phase(old(self)@, LifecycleEvent::DownstreamCompleted { status }),
            r.0 == action_for(old(self)@, LifecycleEvent::DownstreamCompleted { status }),
            r.1 == response,
    {
        let traced = TraceableHttpResponse::new(response, status, REST_ROUTE_LABEL);
        let action = self.step(LifecycleEvent::DownstreamCompleted { status: traced.status });
        (action, traced.into_response())
    }
}

proof fn lemma_no_close_when_none_counted(actions: Seq<LifecycleAction>)
    requires
        count_closes(actions) == 0,
    ensures
        forall|i: int| 0 <= i < actions.len() ==> !is_close(#[trigger] actions[i]),
    decreases actions.len(),
{
    if actions.len() > 0 {
        let prefix = actions.drop_last();
        lemma_no_close_when_none_counted(prefix);
        assert forall|i: int| 0 <= i < actions.len() implies !is_close(#[trigger] actions[i]) by {
            if i < prefix.len() {
                assert(actions[i] == prefix[i]);
            }
        }
    }
}

/// Whatever events a lifecycle is fed, it opens at most one span and closes
/// at most one; a close is only ever issued after the open; and the phase
/// tells which of these have happened.
pub proof fn lemma_span_opened_and_closed_at_most_once(events: Seq<LifecycleEvent>)
    ensures
        ({
            let (phase, actions) = run(events);
            &&& actions.len() == events.len()
            &&& phase == SpanPhase::Pending ==> count_opens(actions) == 0 && count_closes(actions) == 0
            &&& phase == SpanPhase::Running ==> count_opens(actions) == 1 && count_closes(actions) == 0
            &&& phase == SpanPhase::Closed ==> count_opens(actions) == 1 && count_closes(actions) == 1
            &&& forall|i: int, j: int|
                0 <= i < actions.len() && 0 <= j < actions.len() && is_close(#[trigger] actions[i])
                    && is_open(#[trigger] actions[j]) ==> j < i
        }),
    decreases events.len(),
{
    if events.len() > 0 {
        let prefix = events.drop_last();
        lemma_span_opened_and_closed_at_most_once(prefix);
        let (phase, actions) = run(prefix);
        let event = events.last();
        let all = actions.push(action_for(phase, event));
        assert(all.drop_last() == actions);
        if phase == SpanPhase::Pending {
            lemma_no_close_when_none_counted(actions);
        }
        assert forall|i: int, j: int|
            0 <= i < all.len() && 0 <= j < all.len() && is_close(#[trigger] all[i])
                && is_open(#[trigger] all[j]) implies j < i by {
            if i < actions.len() && j < actions.len() {
                assert(all[i] == actions[i]);
                assert(all[j] == actions[j]);
            } else if i < actions.len() {
                assert(all[i] == actions[i]);
            }
        }
    }
}

/// A request that arrives and then completes downstream opens exactly one
/// span, a child of the parent extracted from its headers (a root span when
/// there is none), and closes exactly that span once, annotated from the
/// response status, whatever the status is.
pub proof fn lemma_request_opens_then_closes_one_span(parent: Option<SpanContext>, status: u16)
    ensures
        run(request_events(parent, status)) == (
            SpanPhase::Closed,
            seq![
                LifecycleAction::OpenSpan { start: request_span_start(parent) },
                LifecycleAction::CloseSpan { outcome: outcome_of(status) },
            ],
        ),
        count_opens(run(request_events(parent, status)).1) == 1,
        count_closes(run(request_events(parent, status)).1) == 1,
{
    let events = request_events(parent, status);
    let started = events.drop_last();
    assert(started =~= seq![LifecycleEvent::Started { parent }]);
    assert(started.drop_last() =~= Seq::<LifecycleEvent>::empty());
    let open = LifecycleAction::OpenSpan { start: request_span_start(parent) };
    let close = LifecycleAction::CloseSpan { outcome: outcome_of(status) };
    assert(started.last() == LifecycleEvent::Started { parent });
    assert(events.last() == LifecycleEvent::DownstreamCompleted { status });
    assert(run(started.drop_last()) == (SpanPhase::Pending, Seq::<LifecycleAction>::empty()));
    assert(run(started) == (SpanPhase::Running, Seq::<LifecycleAction>::empty().push(open)));
    assert(Seq::<LifecycleAction>::empty().push(open) =~= seq![open]);
    assert(seq![open].push(close) =~= seq![open, close]);
    assert(seq![open].drop_last() =~= Seq::<LifecycleAction>::empty());
    assert(seq![open, close].drop_last() =~= seq![open]);
    assert(seq![open].last() == open);
    assert(count_opens(Seq::<LifecycleAction>::empty()) == 0);
    assert(count_closes(Seq::<LifecycleAction>::empty()) == 0);
    assert(count_opens(seq![open]) == 1);
    assert(count_closes(seq![open]) == 0);
}

/// Requests handled side by side, each with its own lifecycle, do not
/// affect one another: each opens its own span under its own parent and
/// closes it with its own outcome.
pub proof fn lemma_concurrent_requests_are_independent(requests: Seq<(Option<SpanContext>, u16)>)
    ensures
        forall|i: int|
            0 <= i < requests.len() ==> #[trigger] run(request_events(requests[i].0, requests[i].1))
                == (
                SpanPhase::Closed,
                seq![
                    LifecycleAction::OpenSpan { start: request_span_start(requests[i].0) },
                    LifecycleAction::CloseSpan { outcome: outcome_of(requests[i].1) },
                ],
            ),
{
    assert forall|i: int| 0 <= i < requests.len() implies #[trigger] run(
        request_events(requests[i].0, requests[i].1),
    ) == (
        SpanPhase::Closed,
        seq![
            LifecycleAction::OpenSpan { start: request_span_start(requests[i].0) },
            LifecycleAction::CloseSpan { outcome: outcome_of(requests[i].1) },
        ],
    ) by {
        lemma_request_opens_then_closes_one_span(requests[i].0, requests[i].1);
    }
}

} // verus!
