//! The SDK's error type and its classification of HTTP statuses.
use vstd::prelude::*;

verus! {

/// A transport failure reported by `reqwest`; carried through untouched.
#[verifier::external_type_specification]
#[verifier::external_body]
pub struct ExReqwestError(reqwest::Error);

/// Errors returned by the Synapse SDK.
#[derive(Debug)]
pub enum SynapseError {
    /// The server returned an HTTP error status.
    ///
    /// 5xx responses are transient (retryable). 4xx responses are permanent
    /// caller mistakes and are never retried.
    Http { status: u16, body: String },
    /// A non-success API response with a structured message.
    Api { status: u16, message: String },
    /// The requested resource was not found (HTTP 404).
    NotFound(String),
    /// A pagination cursor was rejected by the server (HTTP 400 with cursor error).
    InvalidCursor(String),
    /// The GraphQL response contained application-level errors (HTTP 200 with
    /// a non-empty `errors` array); each entry is one error object.
    GraphqlErrors(Vec<serde_json::Value>),
    /// A request body could not be encoded as JSON.
    Decode(String),
    /// A network-level failure occurred before a response was received, or
    /// the response body could not be read or decoded.
    Network(reqwest::Error),
}

impl SynapseError {
    /// Whether this error may resolve on a subsequent attempt.
    pub open spec fn transient(&self) -> bool {
        match self {
            SynapseError::Network(_) => true,
            SynapseError::Http { status, .. } => *status >= 500,
            SynapseError::Api { status, .. } => *status >= 500,
            _ => false,
        }
    }

    /// Returns `true` if this error may resolve on a subsequent attempt.
    ///
    /// Network errors and 5xx HTTP responses are transient. 4xx responses are
    /// permanent (they represent a caller mistake) and must not be retried.
    pub fn is_transient(&self) -> (b: bool)
        ensures
            b == self.transient(),
    {
        match self {
            SynapseError::Network(_) => true,
            SynapseError::Http { status, .. } => *status >= 500,
            SynapseError::Api { status, .. } => *status >= 500,
            _ => false,
        }
    }
}

/// The error that a response with HTTP status `status` (at least 400) and
/// body text `body` is reported as: 5xx as `Http`, 4xx as `Api`.
pub open spec fn status_error(status: u16, body: String) -> SynapseError {
    if status >= 500 {
        SynapseError::Http { status, body }
    } else {
        SynapseError::Api { status, message: body }
    }
}

/// Whether a response with this HTTP status is a failure (status 400 and above).
pub fn is_error_status(status: u16) -> (b: bool)
    ensures
        b == (status >= 400),
{
    status >= 400
}

/// The error for a failed response: 5xx responses become `Http` (transient),
/// 4xx responses become `Api` (permanent), the body text kept as the message.
pub fn error_for_status(status: u16, body: String) -> (e: SynapseError)
    requires
        status >= 400,
    ensures
        e == status_error(status, body),
{
    if status >= 500 {
        SynapseError::Http { status, body }
    } else {
        SynapseError::Api { status, message: body }
    }
}

/// Exactly network failures and server errors (status 500 and above) are
/// transient; every other error is permanent.
pub proof fn lemma_transient_exactly(e: SynapseError)
    ensures
        e.transient() <==> (e is Network || (e matches SynapseError::Http { status, .. } && status
            >= 500) || (e matches SynapseError::Api { status, .. } && status >= 500)),
        e is NotFound || e is InvalidCursor || e is GraphqlErrors || e is Decode ==> !e.transient(),
{
}

/// A failed response is retried exactly when its status is a server error:
/// the error that a status of 400 or more is reported as is transient if and
/// only if the status is 500 or more.
pub proof fn lemma_status_error_transient(status: u16, body: String)
    requires
        status >= 400,
    ensures
        status_error(status, body).transient() <==> status >= 500,
{
}

} // verus!
