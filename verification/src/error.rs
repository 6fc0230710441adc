//! The error taxonomy of the protocol engine.

use vstd::prelude::*;

verus! {

/// A transport-level failure: the request never yielded a body to decode.
/// `status` carries the HTTP status when the transport saw one.
#[derive(Debug, PartialEq)]
pub struct HttpError {
    pub status: Option<u16>,
    pub message: String,
}

/// What can go wrong between issuing a request and decoding its envelope.
#[derive(Debug, PartialEq)]
pub enum RequestError {
    /// The transport failed, or the reply carried a session-expiry status.
    Http(HttpError),
    /// A success payload of an unexpected shape. The pagination loops never
    /// raise it — a malformed page ends a run silently — so it stands for
    /// callers that decode payloads of their own.
    InvalidJson(String),
    /// The upstream answered with a well-formed error envelope; the message
    /// is the upstream's own text, verbatim.
    Api(String),
    /// The body did not decode as any expected envelope; the raw status and
    /// body are kept for diagnosis.
    ParseError { status: u16, body: String },
}

#[derive(Debug, PartialEq)]
pub enum LoginError {
    Request(RequestError),
}

#[derive(Debug, PartialEq)]
pub enum VerifyError {
    Request(RequestError),
}

#[derive(Debug, PartialEq)]
pub enum FetchError {
    /// The input was not a well-formed absolute URL; the message is the
    /// parser's own text.
    InvalidUrl(String),
    /// A well-formed URL outside the supported host and path patterns.
    UnknownResource(String),
    Request(RequestError),
}

impl From<RequestError> for LoginError {
    fn from(value: RequestError) -> (r: Self) {
        LoginError::Request(value)
    }
}

impl vstd::std_specs::convert::FromSpecImpl<RequestError> for LoginError {
    open spec fn obeys_from_spec() -> bool {
        true
    }

    open spec fn from_spec(value: RequestError) -> Self {
        LoginError::Request(value)
    }
}

impl From<RequestError> for VerifyError {
    fn from(value: RequestError) -> (r: Self) {
        VerifyError::Request(value)
    }
}

impl vstd::std_specs::convert::FromSpecImpl<RequestError> for VerifyError {
    open spec fn obeys_from_spec() -> bool {
        true
    }

    open spec fn from_spec(value: RequestError) -> Self {
        VerifyError::Request(value)
    }
}

impl From<RequestError> for FetchError {
    fn from(value: RequestError) -> (r: Self) {
        FetchError::Request(value)
    }
}

impl vstd::std_specs::convert::FromSpecImpl<RequestError> for FetchError {
    open spec fn obeys_from_spec() -> bool {
        true
    }

    open spec fn from_spec(value: RequestError) -> Self {
        FetchError::Request(value)
    }
}

/// The HTTP status behind a fetch failure, when the failure was
/// transport-level.
pub open spec fn spec_http_status(e: FetchError) -> Option<u16> {
    match e {
        FetchError::Request(RequestError::Http(h)) => h.status,
        _ => None,
    }
}

impl FetchError {
    /// The HTTP status behind this failure, when it was transport-level.
    pub fn http_status(&self) -> (r: Option<u16>)
        ensures
            r == spec_http_status(*self),
    {
        match self {
            FetchError::Request(RequestError::Http(h)) => h.status,
            _ => None,
        }
    }
}

} // verus!
