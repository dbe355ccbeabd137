use vstd::prelude::*;

use crate::errors::{
    json_api_error_of, status_of_kind, JsonApiHttpError, MiddlewareError,
};

verus! {

/// A total conversion from a middleware error into some response value.
pub trait MiddlewareErrorConverter {
    type Output;

    /// Holds when `response` is what this converter makes of `error`.
    spec fn converts(&self, error: MiddlewareError, response: Self::Output) -> bool;

    fn convert(&self, error: MiddlewareError) -> (r: Self::Output)
        ensures
            self.converts(error, r),
    ;
}

/// Converts middleware errors into JSON:API error responses.
#[derive(Clone, Copy, Debug)]
pub struct JsonApiErrorConverter;

impl MiddlewareErrorConverter for JsonApiErrorConverter {
    type Output = JsonApiHttpError;

    open spec fn converts(&self, error: MiddlewareError, response: JsonApiHttpError) -> bool {
        response.view_parts() == json_api_error_of(error)
    }

    fn convert(&self, error: MiddlewareError) -> (r: JsonApiHttpError) {
        JsonApiHttpError::from_middleware_error(error)
    }
}

/// Server state decorated with a converter for middleware errors. The state
/// itself is kept as given; the converter is fixed at construction.
pub struct WithMiddlewareErrorConverter<S, C> {
    state: S,
    converter: C,
}

impl<S, C: MiddlewareErrorConverter> WithMiddlewareErrorConverter<S, C> {
    pub closed spec fn spec_state(&self) -> S {
        self.state
    }

    pub closed spec fn spec_converter(&self) -> C {
        self.converter
    }

    pub fn new(state: S, converter: C) -> (r: Self)
        ensures
            r.spec_state() == state,
            r.spec_converter() == converter,
    {
        WithMiddlewareErrorConverter { state, converter }
    }

    /// The decorated state, unchanged.
    pub fn state(&self) -> (r: &S)
        ensures
            *r == self.spec_state(),
    {
        &self.state
    }

    /// Gives the decorated state back.
    pub fn into_state(self) -> (r: S)
        ensures
            r == self.spec_state(),
    {
        self.state
    }

    /// Converts one middleware error with the attached converter.
    pub fn convert_middleware_error(&self, error: MiddlewareError) -> (r: C::Output)
        ensures
            self.spec_converter().converts(error, r),
    {
        self.converter.convert(error)
    }
}

/// Decorates any server state with the JSON:API middleware error converter.
pub fn build_state_with_middleware_error_converter<S>(state: S) -> (r: WithMiddlewareErrorConverter<
    S,
    JsonApiErrorConverter,
>)
    ensures
        r.spec_state() == state,
{
    WithMiddlewareErrorConverter::new(state, JsonApiErrorConverter)
}

/// Converting the same middleware error twice with a JSON:API decorated state
/// gives the same error response, whose status is the one mapped from the
/// error's kind and whose code and message are the mapped code and the
/// error's own message.
pub proof fn lemma_conversion_is_deterministic<S>(
    wrapped: WithMiddlewareErrorConverter<S, JsonApiErrorConverter>,
    error: MiddlewareError,
    first: JsonApiHttpError,
    second: JsonApiHttpError,
)
    requires
        wrapped.spec_converter().converts(error, first),
        wrapped.spec_converter().converts(error, second),
    ensures
        first.view_parts() == second.view_parts(),
        first.status == status_of_kind(error.kind),
        first.view_parts() == json_api_error_of(error),
{
}

} // verus!
