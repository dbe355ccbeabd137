use vstd::prelude::*;

verus! {

/// Route label of the JSON:API surface; it names and groups every request span.
pub const REST_ROUTE_LABEL: &'static str = "/v1/rest";

/// Whether a span is meant for user-facing trace views or only for internal ones.
#[derive(Clone, Copy, Debug, PartialEq, Eq, Structural)]
pub enum SpanVisibility {
    User,
    Internal,
}

/// Identity of a parent span received from an upstream caller.
#[derive(Clone, Copy, Debug, PartialEq, Eq, Structural)]
pub struct SpanContext {
    pub trace_id: u128,
    pub span_id: u64,
}

/// How a closed span is classified.
#[derive(Clone, Copy, Debug, PartialEq, Eq, Structural)]
pub enum SpanOutcome {
    Success,
    Failure,
}

/// Everything the tracer needs to open one span.
#[derive(Clone, Copy, Debug, PartialEq, Eq)]
pub struct SpanStart {
    pub name: &'static str,
    pub group: &'static str,
    pub visibility: SpanVisibility,
    pub parent: Option<SpanContext>,
}

/// An HTTP status is a success when it lies in the 2xx class.
pub open spec fn is_success_status(status: u16) -> bool {
    200 <= status && status <= 299
}

pub open spec fn outcome_of(status: u16) -> SpanOutcome {
    if is_success_status(status) {
        SpanOutcome::Success
    } else {
        SpanOutcome::Failure
    }
}

/// The span a request opens: named and grouped by the route label, user
/// visible, and a child of the extracted parent (a root span when there is none).
pub open spec fn request_span_start(parent: Option<SpanContext>) -> SpanStart {
    SpanStart {
        name: REST_ROUTE_LABEL,
        group: REST_ROUTE_LABEL,
        visibility: SpanVisibility::User,
        parent,
    }
}

pub fn classify_status(status: u16) -> (r: SpanOutcome)
    ensures
        r == outcome_of(status),
{
    if 200 <= status && status <= 299 {
        SpanOutcome::Success
    } else {
        SpanOutcome::Failure
    }
}

pub fn span_start_for(parent: Option<SpanContext>) -> (r: SpanStart)
    ensures
        r == request_span_start(parent),
{
    SpanStart {
        name: REST_ROUTE_LABEL,
        group: REST_ROUTE_LABEL,
        visibility: SpanVisibility::User,
        parent,
    }
}

/// A downstream response paired with its status and the route label used to
/// annotate the span that encloses it.
pub struct TraceableHttpResponse<R> {
    pub response: R,
    pub status: u16,
    pub path: &'static str,
}

pub open spec fn traceable_response<R>(response: R, status: u16, path: &'static str) -> TraceableHttpResponse<R> {
    TraceableHttpResponse { response, status, path }
}

impl<R> TraceableHttpResponse<R> {
    pub fn new(response: R, status: u16, path: &'static str) -> (r: Self)
        ensures
            r == traceable_response(response, status, path),
    {
        TraceableHttpResponse { response, status, path }
    }

    /// The outcome the span is annotated with; the response itself is untouched.
    pub fn outcome(&self) -> (r: SpanOutcome)
        ensures
            r == outcome_of(self.status),
    {
        classify_status(self.status)
    }

    /// Hands back the wrapped response as it was given.
    pub fn into_response(self) -> (r: R)
        ensures
            r == self.response,
    {
        self.response
    }
}

/// Wrapping a response for annotation and unwrapping it again gives back the
/// very response the downstream chain produced, whatever its status.
pub proof fn lemma_traceable_response_passes_through<R>(response: R, status: u16, path: &'static str)
    ensures
        traceable_response(response, status, path).response == response,
        traceable_response(response, status, path).status == status,
{
}

} // verus!
