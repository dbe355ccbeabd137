use vstd::prelude::*;

verus! {

/// The kinds of failure that framework layers raise before or outside the
/// request handlers.
#[derive(Clone, Copy, Debug, PartialEq, Eq, Structural)]
pub enum MiddlewareErrorKind {
    /// The request body could not be read or parsed.
    InvalidRequestBody,
    /// The request body exceeds the accepted size.
    PayloadTooLarge,
    /// The request body has a content type the API does not accept.
    UnsupportedMediaType,
    /// Any other failure of the framework itself.
    Internal,
}

/// A failure raised by framework-level request processing.
#[derive(Clone, Debug)]
pub struct MiddlewareError {
    pub kind: MiddlewareErrorKind,
    pub message: String,
}

/// The API's standardized error response: an HTTP status, a machine-readable
/// error code and a human-readable message.
#[derive(Clone, Debug)]
pub struct JsonApiHttpError {
    pub status: u16,
    pub code: &'static str,
    pub message: String,
}

/// The HTTP status each kind of middleware error is answered with.
pub open spec fn status_of_kind(kind: MiddlewareErrorKind) -> u16 {
    match kind {
        MiddlewareErrorKind::InvalidRequestBody => 400,
        MiddlewareErrorKind::PayloadTooLarge => 413,
        MiddlewareErrorKind::UnsupportedMediaType => 415,
        MiddlewareErrorKind::Internal => 500,
    }
}

/// The error code each kind of middleware error is reported under.
pub open spec fn code_of_kind(kind: MiddlewareErrorKind) -> Seq<char> {
    match kind {
        MiddlewareErrorKind::InvalidRequestBody => "invalid-request-body"@,
        MiddlewareErrorKind::PayloadTooLarge => "payload-too-large"@,
        MiddlewareErrorKind::UnsupportedMediaType => "unsupported-media-type"@,
        MiddlewareErrorKind::Internal => "internal-error"@,
    }
}

/// The error response a middleware error is converted into: status and code
/// from its kind, and its own message.
pub open spec fn json_api_error_of(error: MiddlewareError) -> (Seq<char>, u16, Seq<char>) {
    (code_of_kind(error.kind), status_of_kind(error.kind), error.message@)
}

impl JsonApiHttpError {
    pub open spec fn view_parts(&self) -> (Seq<char>, u16, Seq<char>) {
        (self.code@, self.status, self.message@)
    }

    pub fn status_for(kind: MiddlewareErrorKind) -> (r: u16)
        ensures
            r == status_of_kind(kind),
    {
        match kind {
            MiddlewareErrorKind::InvalidRequestBody => 400,
            MiddlewareErrorKind::PayloadTooLarge => 413,
            MiddlewareErrorKind::UnsupportedMediaType => 415,
            MiddlewareErrorKind::Internal => 500,
        }
    }

    pub fn code_for(kind: MiddlewareErrorKind) -> (r: &'static str)
        ensures
            r@ == code_of_kind(kind),
    {
        match kind {
            MiddlewareErrorKind::InvalidRequestBody => "invalid-request-body",
            MiddlewareErrorKind::PayloadTooLarge => "payload-too-large",
            MiddlewareErrorKind::UnsupportedMediaType => "unsupported-media-type",
            MiddlewareErrorKind::Internal => "internal-error",
        }
    }

    /// Converts a middleware error into the API's error response.
    pub fn from_middleware_error(error: MiddlewareError) -> (r: JsonApiHttpError)
        ensures
            r.view_parts() == json_api_error_of(error),
    {
        JsonApiHttpError {
            status: Self::status_for(error.kind),
            code: Self::code_for(error.kind),
            message: error.message,
        }
    }
}

} // verus!
