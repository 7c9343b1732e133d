//! Domain errors a handler may produce, and their total mapping onto a
//! status code and a canonical error body.

use vstd::prelude::*;
use vstd::string::StringSliceAdditionalSpecFns;

use crate::http::StatusCode;

verus! {

/// Error a handler (or the dispatch path) can signal. Every variant
/// maps to some valid response, so dispatch never needs a secondary
/// failure mode.
#[derive(Clone, Copy, PartialEq, Eq, Structural, Debug)]
pub enum WebError {
    /// The handler failed internally.
    Internal,
    /// The request was rejected as malformed.
    BadRequest,
    /// No resource answers the request.
    NotFound,
    /// The handler gave up waiting on a collaborator.
    Timeout,
}

impl WebError {
    /// Status code the error maps to.
    pub open spec fn status_spec(self) -> StatusCode {
        match self {
            WebError::Internal => StatusCode { code: 500 },
            WebError::BadRequest => StatusCode { code: 400 },
            WebError::NotFound => StatusCode { code: 404 },
            WebError::Timeout => StatusCode { code: 504 },
        }
    }

    /// Canonical error body text.
    pub open spec fn message_spec(self) -> Seq<char> {
        match self {
            WebError::Internal => "internal server error"@,
            WebError::BadRequest => "bad request"@,
            WebError::NotFound => "not found"@,
            WebError::Timeout => "gateway timeout"@,
        }
    }

    /// UTF-8 bytes of the canonical error body.
    pub open spec fn message_bytes_spec(self) -> Seq<u8> {
        vstd::utf8::encode_utf8(self.message_spec())
    }

    /// Map the error to its status code. The mapping is total: every
    /// error yields a well-formed code.
    pub fn status(&self) -> (r: StatusCode)
        ensures
            r == self.status_spec(),
            r.wf(),
    {
        match self {
            WebError::Internal => StatusCode::new(500),
            WebError::BadRequest => StatusCode::new(400),
            WebError::NotFound => StatusCode::new(404),
            WebError::Timeout => StatusCode::new(504),
        }
    }

    /// Canonical error body text.
    pub fn message(&self) -> (r: &str)
        ensures
            r@ == self.message_spec(),
    {
        match self {
            WebError::Internal => "internal server error",
            WebError::BadRequest => "bad request",
            WebError::NotFound => "not found",
            WebError::Timeout => "gateway timeout",
        }
    }

    /// Canonical error body, as the bytes a response will carry.
    pub fn message_bytes(&self) -> (r: Vec<u8>)
        ensures
            r@ == self.message_bytes_spec(),
    {
        let msg: &str = self.message();
        let bytes: &[u8] = msg.as_bytes();
        proof {
            assert(bytes@ == msg.spec_bytes());
        }
        vstd::slice::slice_to_vec(bytes)
    }
}

} // verus!
