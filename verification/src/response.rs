//! Response object: a head (status, version, reason, headers) paired
//! with a body of generic representation.

use vstd::prelude::*;

use crate::body::{Body, MessageBody, ResponseBody};
use crate::error::WebError;
use crate::http::{HeaderMap, StatusCode, Version};

verus! {

/// Head of a response: everything but the body.
#[derive(Debug)]
pub struct ResponseHead {
    pub status: StatusCode,
    pub version: Version,
    pub reason: Option<String>,
    pub headers: HeaderMap,
}

/// A response: head plus body, generic over the body representation.
#[derive(Debug)]
pub struct Response<B = Body> {
    pub head: ResponseHead,
    pub body: ResponseBody<B>,
}

impl Response<Body> {
    /// Build an empty-bodied response with the given status.
    pub fn new(status: StatusCode) -> (r: Response<Body>)
        ensures
            r.head.status == status,
            r.head.version == Version::Http11,
            r.head.reason is None,
            r.head.headers.view() == Seq::<(Seq<char>, Seq<char>)>::empty(),
            r.body == ResponseBody::<Body>::Body(Body::Empty),
    {
        Response {
            head: ResponseHead {
                status,
                version: Version::Http11,
                reason: Option::None,
                headers: HeaderMap::new(),
            },
            body: ResponseBody::Body(Body::Empty),
        }
    }

    /// Build the response a domain error maps to: its status code and
    /// its canonical error body. The mapping is total.
    pub fn from_error(err: WebError) -> (r: Response<Body>)
        ensures
            r.head.status == err.status_spec(),
            r.head.version == Version::Http11,
            r.head.reason is None,
            r.head.headers.view() == Seq::<(Seq<char>, Seq<char>)>::empty(),
            r.body matches ResponseBody::Body(Body::Bytes(v)) && v@ == err.message_bytes_spec(),
    {
        Response {
            head: ResponseHead {
                status: err.status(),
                version: Version::Http11,
                reason: Option::None,
                headers: HeaderMap::new(),
            },
            body: ResponseBody::Body(Body::Bytes(err.message_bytes())),
        }
    }

    /// Re-type a concrete-bodied response so it can stand where a
    /// generic-bodied one is expected; the body moves into the
    /// already-buffered slot.
    pub fn into_body<B>(self) -> (r: Response<B>)
        ensures
            r.head == self.head,
            r.body matches ResponseBody::Other(b) && b == (match self.body {
                ResponseBody::Body(inner) => inner,
                ResponseBody::Other(inner) => inner,
            }),
    {
        let body: Body = match self.body {
            ResponseBody::Body(inner) => inner,
            ResponseBody::Other(inner) => inner,
        };
        Response { head: self.head, body: ResponseBody::Other(body) }
    }
}

impl<B> Response<B> {
    /// The response status.
    pub fn status(&self) -> (r: StatusCode)
        ensures
            r == self.head.status,
    {
        self.head.status
    }

    /// The response head.
    pub fn head(&self) -> (r: &ResponseHead)
        ensures
            r == &self.head,
    {
        &self.head
    }

    /// The response headers.
    pub fn headers(&self) -> (r: &HeaderMap)
        ensures
            r == &self.head.headers,
    {
        &self.head.headers
    }

    /// The response headers, for mutation.
    pub fn headers_mut(&mut self) -> (r: &mut HeaderMap)
        ensures
            final(self).head.status == old(self).head.status,
            final(self).head.version == old(self).head.version,
            final(self).head.reason == old(self).head.reason,
            final(self).body == old(self).body,
            *final(r) == final(self).head.headers,
    {
        &mut self.head.headers
    }

    /// Take the body out, leaving a response that reports no body.
    pub fn take_body(&mut self) -> (r: ResponseBody<B>)
        ensures
            r == old(self).body,
            final(self).head == old(self).head,
            final(self).body == ResponseBody::<B>::Other(Body::Absent),
    {
        let mut taken: ResponseBody<B> = ResponseBody::Other(Body::Absent);
        std::mem::swap(&mut self.body, &mut taken);
        taken
    }

    /// Substitute the body representation, leaving the head unchanged.
    /// The transformation sees the head read-only, so status and
    /// headers survive by construction.
    pub fn map_body<F, B2>(self, f: F) -> (r: Response<B2>) where
        F: FnOnce(&ResponseHead, ResponseBody<B>) -> ResponseBody<B2>

        requires
            call_requires(f, (&self.head, self.body)),
        ensures
            r.head == self.head,
            call_ensures(f, (&self.head, self.body), r.body),
    {
        let Response { head, body } = self;
        let new_body = f(&head, body);
        Response { head, body: new_body }
    }
}

} // verus!
