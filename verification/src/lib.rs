//! Client-side adapter for a remote campaign-automation HTTP API.
//!
//! The crate builds the requests the remote service expects, classifies its
//! status codes into a closed error taxonomy, and reconciles the drifting
//! JSON response shapes into one stable domain model.
use vstd::prelude::*;

pub mod client;
pub mod convert;
pub mod domain;
pub mod json;
pub mod models;
pub mod reconcile;
pub mod text;
pub mod transport;

verus! {

/// Closed error taxonomy: every failure a caller can observe is one of these.
#[derive(Clone, Copy, Debug, PartialEq, Eq, Structural)]
pub enum ApiErrorCode {
    Unauthorized,
    NotFound,
    TooManyRequests,
    BadRequest,
    Validation,
    Unknown,
}

/// A classified failure: a taxonomy kind plus a human-readable message.
#[derive(Clone, Debug)]
pub struct ApiError {
    pub code: ApiErrorCode,
    pub message: String,
}

} // verus!
