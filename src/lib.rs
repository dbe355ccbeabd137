//! Request tracing and middleware error conversion for the JSON:API surface.
//!
//! `span` holds the data the tracer is handed when a request span opens and
//! closes, `lifecycle` the per-request state machine that decides when that
//! happens, and `errors` / `state` the conversion of framework-level failures
//! into the API's standardized error response.
pub mod span;
pub mod lifecycle;
pub mod errors;
pub mod state;
