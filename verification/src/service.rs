//! The unit of work handed to a handler: a Web Request wrapping an
//! exclusively owned request handle, and the Web Response pairing the
//! originating request with a produced response.

use vstd::prelude::*;

use crate::body::{Body, ResponseBody};
use crate::error::WebError;
use crate::extensions::Extensions;
use crate::http::{HeaderMap, Method, StatusCode, Uri, Version};
use crate::params::PathParams;
use crate::request::{AppConfig, ConnectionInfo, HttpRequest, Payload, PeerAddr, RequestHead, ResourceMap};
use crate::response::{Response, ResponseHead};

verus! {

/// A service http request.
///
/// A Web Request allows mutable access to the request's internal
/// structures: holding one is the proof that the underlying handle is
/// not shared, so the wrapper is deliberately not cloneable.
#[derive(Debug)]
pub struct WebRequest {
    req: HttpRequest,
}

impl WebRequest {
    /// The wrapped handle.
    pub closed spec fn inner(self) -> HttpRequest {
        self.req
    }

    /// A Web Request is well formed when its handle is and the handle
    /// is exclusively held.
    pub open spec fn wf(self) -> bool {
        self.inner().wf() && self.inner().exclusive()
    }

    /// Wrap a handle that is already known to be exclusively held.
    pub fn new(req: HttpRequest) -> (r: WebRequest)
        requires
            req.wf(),
            req.exclusive(),
        ensures
            r.inner() == req,
            r.wf(),
    {
        WebRequest { req }
    }

    /// Deconstruct the request into the handle and its payload. The
    /// handle keeps its exclusive counts and may be shared afterwards.
    pub fn into_parts(self) -> (r: (HttpRequest, Payload))
        requires
            self.inner().exclusive(),
        ensures
            r.1 == self.inner().spec_payload(),
            r.0.spec_payload() == Payload::Empty,
            r.0.spec_head() == self.inner().spec_head(),
            r.0.spec_params() == self.inner().spec_params(),
            r.0.spec_app_data() == self.inner().spec_app_data(),
            r.0.spec_extensions() == self.inner().spec_extensions(),
            r.0.spec_rmap() == self.inner().spec_rmap(),
            r.0.spec_config() == self.inner().spec_config(),
            r.0.exclusive(),
            self.wf() ==> r.0.wf(),
    {
        let mut req = self.req;
        let pl = req.take_payload();
        (req, pl)
    }

    /// Construct a request from parts.
    ///
    /// Succeeds, re-attaching the payload to the handle, exactly when
    /// the handle records one strong and zero weak references; any
    /// other counts mean the handle was shared, and both parts come
    /// back unchanged.
    pub fn from_parts(req: HttpRequest, pl: Payload) -> (r: Result<
        WebRequest,
        (HttpRequest, Payload),
    >)
        ensures
            req.exclusive() <==> r is Ok,
            r matches Ok(w) ==> {
                &&& w.inner().spec_payload() == pl
                &&& w.inner().spec_head() == req.spec_head()
                &&& w.inner().spec_params() == req.spec_params()
                &&& w.inner().spec_app_data() == req.spec_app_data()
                &&& w.inner().spec_extensions() == req.spec_extensions()
                &&& w.inner().spec_rmap() == req.spec_rmap()
                &&& w.inner().spec_config() == req.spec_config()
                &&& w.inner().exclusive()
            },
            r matches Err(p) ==> p.0 == req && p.1 == pl,
    {
        if req.strong_count() == 1 && req.weak_count() == 0 {
            let mut req = req;
            req.set_payload(pl);
            Ok(WebRequest { req })
        } else {
            Err((req, pl))
        }
    }

    /// Construct a request from a bare handle.
    ///
    /// The handle supports cheap shared copies, so exclusive mutable
    /// access can be granted only while it records one strong and zero
    /// weak references; a shared handle comes back unchanged.
    pub fn from_request(req: HttpRequest) -> (r: Result<WebRequest, HttpRequest>)
        ensures
            req.exclusive() <==> r is Ok,
            r matches Ok(w) ==> w.inner() == req,
            r matches Err(q) ==> q == req,
    {
        if req.strong_count() == 1 && req.weak_count() == 0 {
            Ok(WebRequest { req })
        } else {
            Err(req)
        }
    }

    /// Give the wrapped handle up, surrendering the exclusivity proof.
    pub fn into_inner(self) -> (r: HttpRequest)
        ensures
            r == self.inner(),
    {
        self.req
    }

    /// Create a web response pairing this request with the given
    /// response.
    pub fn into_response<B>(self, res: Response<B>) -> (r: WebResponse<B>)
        ensures
            r.request == self.inner(),
            r.response == res,
    {
        WebResponse::new(self.req, res)
    }

    /// Create a web response for an error: the error's status code and
    /// canonical body, paired with this request.
    pub fn error_response<B>(self, err: WebError) -> (r: WebResponse<B>)
        ensures
            r.request == self.inner(),
            r.response.head.status == err.status_spec(),
            r.response.head.version == Version::Http11,
            r.response.head.reason is None,
            r.response.head.headers.view() == Seq::<(Seq<char>, Seq<char>)>::empty(),
            r.response.body matches ResponseBody::Other(Body::Bytes(v)) && v@
                == err.message_bytes_spec(),
    {
        WebResponse::new(self.req, Response::from_error(err).into_body())
    }

    /// Reference to the request head.
    pub fn head(&self) -> (r: &RequestHead)
        ensures
            *r == self.inner().spec_head(),
    {
        self.req.head()
    }

    /// Mutable reference to the request head; the Web Request itself
    /// is the proof of exclusivity.
    pub fn head_mut(&mut self) -> (r: &mut RequestHead)
        requires
            old(self).inner().exclusive(),
        ensures
            final(self).inner().spec_head() == *final(r),
            final(self).inner().spec_payload() == old(self).inner().spec_payload(),
            final(self).inner().spec_params() == old(self).inner().spec_params(),
            final(self).inner().spec_app_data() == old(self).inner().spec_app_data(),
            final(self).inner().spec_extensions() == old(self).inner().spec_extensions(),
            final(self).inner().spec_rmap() == old(self).inner().spec_rmap(),
            final(self).inner().spec_config() == old(self).inner().spec_config(),
            final(self).inner().exclusive(),
    {
        self.req.head_mut()
    }

    /// The request's target.
    pub fn uri(&self) -> (r: &Uri)
        ensures
            *r == self.inner().spec_head().uri,
    {
        &self.req.head().uri
    }

    /// The request method.
    pub fn method(&self) -> (r: &Method)
        ensures
            *r == self.inner().spec_head().method,
    {
        &self.req.head().method
    }

    /// The request protocol version.
    pub fn version(&self) -> (r: Version)
        ensures
            r == self.inner().spec_head().version,
    {
        self.req.head().version
    }

    /// The request headers.
    pub fn headers(&self) -> (r: &HeaderMap)
        ensures
            *r == self.inner().spec_head().headers,
    {
        &self.req.head().headers
    }

    /// The request headers, for mutation.
    pub fn headers_mut(&mut self) -> (r: &mut HeaderMap)
        requires
            old(self).inner().exclusive(),
        ensures
            final(self).inner().spec_head().headers == *final(r),
            final(self).inner().spec_head().method == old(self).inner().spec_head().method,
            final(self).inner().spec_head().uri == old(self).inner().spec_head().uri,
            final(self).inner().spec_head().version == old(self).inner().spec_head().version,
            final(self).inner().spec_head().peer == old(self).inner().spec_head().peer,
            final(self).inner().spec_payload() == old(self).inner().spec_payload(),
            final(self).inner().spec_params() == old(self).inner().spec_params(),
            final(self).inner().spec_app_data() == old(self).inner().spec_app_data(),
            final(self).inner().spec_extensions() == old(self).inner().spec_extensions(),
            final(self).inner().spec_rmap() == old(self).inner().spec_rmap(),
            final(self).inner().spec_config() == old(self).inner().spec_config(),
            final(self).inner().exclusive(),
    {
        self.req.headers_mut()
    }

    /// The target path of the request.
    pub fn path(&self) -> (r: &str)
        ensures
            r@ == self.inner().spec_head().uri.path@,
    {
        self.req.head().uri.path()
    }

    /// The query string in the url, or the empty string when the
    /// target carries none.
    pub fn query_string(&self) -> (r: &str)
        ensures
            match self.inner().spec_head().uri.query {
                Some(q) => r@ == q@,
                Option::None => r@ == Seq::<char>::empty(),
            },
    {
        match &self.req.head().uri.query {
            Some(q) => q.as_str(),
            Option::None => {
                let empty = "";
                proof {
                    reveal_strlit("");
                }
                empty
            },
        }
    }

    /// Peer socket address the transport layer saw, if any.
    pub fn peer_addr(&self) -> (r: Option<PeerAddr>)
        ensures
            r == self.inner().spec_head().peer,
    {
        self.req.head().peer
    }

    /// Connection information for the current request.
    pub fn connection_info(&self) -> (r: ConnectionInfo)
        ensures
            r.scheme@ == (if self.inner().spec_config().secure {
                "https"@
            } else {
                "http"@
            }),
            self.inner().spec_head().headers.spec_contains("host"@) ==> exists|i: int|
                0 <= i < self.inner().spec_head().headers.view().len()
                    && self.inner().spec_head().headers.view()[i].0 == "host"@
                    && self.inner().spec_head().headers.view()[i].1 == r.host@ && (forall|j: int|
                    0 <= j < i ==> self.inner().spec_head().headers.view()[j].0 != "host"@),
            !self.inner().spec_head().headers.spec_contains("host"@) ==> r.host@
                == self.inner().spec_config().host@,
    {
        ConnectionInfo::get(self.req.head(), self.req.app_config())
    }

    /// Reference to the captured path parameters.
    pub fn match_info(&self) -> (r: &PathParams)
        ensures
            *r == self.inner().spec_params(),
    {
        self.req.params()
    }

    /// Mutable reference to the captured path parameters.
    pub fn match_info_mut(&mut self) -> (r: &mut PathParams)
        requires
            old(self).inner().exclusive(),
        ensures
            final(self).inner().spec_params() == *final(r),
            final(self).inner().spec_head() == old(self).inner().spec_head(),
            final(self).inner().spec_payload() == old(self).inner().spec_payload(),
            final(self).inner().spec_app_data() == old(self).inner().spec_app_data(),
            final(self).inner().spec_extensions() == old(self).inner().spec_extensions(),
            final(self).inner().spec_rmap() == old(self).inner().spec_rmap(),
            final(self).inner().spec_config() == old(self).inner().spec_config(),
            final(self).inner().exclusive(),
    {
        self.req.params_mut()
    }

    /// Reference to the route registry of the application.
    pub fn resource_map(&self) -> (r: &ResourceMap)
        ensures
            *r == self.inner().spec_rmap(),
    {
        self.req.resource_map()
    }

    /// The service configuration.
    pub fn app_config(&self) -> (r: &AppConfig)
        ensures
            *r == self.inner().spec_config(),
    {
        self.req.app_config()
    }

    /// Look up application data stored during configuration under the
    /// given key.
    pub fn app_data(&self, key: u64) -> (r: Option<u64>)
        ensures
            match r {
                Some(v) => exists|i: int|
                    0 <= i < self.inner().spec_app_data().view().len()
                        && #[trigger] self.inner().spec_app_data().view()[i] == (key, v),
                None => !self.inner().spec_app_data().spec_contains(key),
            },
    {
        let bag = self.req.app_data();
        proof {
            assert(*bag == self.inner().spec_app_data());
        }
        bag.get(key)
    }

    /// Set the request payload.
    pub fn set_payload(&mut self, payload: Payload)
        requires
            old(self).inner().exclusive(),
        ensures
            final(self).inner().spec_payload() == payload,
            final(self).inner().spec_head() == old(self).inner().spec_head(),
            final(self).inner().spec_params() == old(self).inner().spec_params(),
            final(self).inner().spec_app_data() == old(self).inner().spec_app_data(),
            final(self).inner().spec_extensions() == old(self).inner().spec_extensions(),
            final(self).inner().spec_rmap() == old(self).inner().spec_rmap(),
            final(self).inner().spec_config() == old(self).inner().spec_config(),
            final(self).inner().exclusive(),
    {
        self.req.set_payload(payload);
    }

    /// Take the request payload, leaving the slot empty.
    pub fn take_payload(&mut self) -> (r: Payload)
        requires
            old(self).inner().exclusive(),
        ensures
            r == old(self).inner().spec_payload(),
            final(self).inner().spec_payload() == Payload::Empty,
            final(self).inner().spec_head() == old(self).inner().spec_head(),
            final(self).inner().spec_params() == old(self).inner().spec_params(),
            final(self).inner().spec_app_data() == old(self).inner().spec_app_data(),
            final(self).inner().spec_extensions() == old(self).inner().spec_extensions(),
            final(self).inner().spec_rmap() == old(self).inner().spec_rmap(),
            final(self).inner().spec_config() == old(self).inner().spec_config(),
            final(self).inner().exclusive(),
    {
        self.req.take_payload()
    }

    /// Replace the application-data container.
    pub fn set_data_container(&mut self, bag: Extensions)
        requires
            old(self).inner().exclusive(),
        ensures
            final(self).inner().spec_app_data() == bag,
            final(self).inner().spec_head() == old(self).inner().spec_head(),
            final(self).inner().spec_payload() == old(self).inner().spec_payload(),
            final(self).inner().spec_params() == old(self).inner().spec_params(),
            final(self).inner().spec_extensions() == old(self).inner().spec_extensions(),
            final(self).inner().spec_rmap() == old(self).inner().spec_rmap(),
            final(self).inner().spec_config() == old(self).inner().spec_config(),
            final(self).inner().exclusive(),
    {
        self.req.set_app_data(bag);
    }

    /// Reference to the request-local extension bag.
    pub fn extensions(&self) -> (r: &Extensions)
        ensures
            *r == self.inner().spec_extensions(),
    {
        self.req.extensions()
    }

    /// Mutable reference to the request-local extension bag.
    pub fn extensions_mut(&mut self) -> (r: &mut Extensions)
        requires
            old(self).inner().exclusive(),
        ensures
            final(self).inner().spec_extensions() == *final(r),
            final(self).inner().spec_head() == old(self).inner().spec_head(),
            final(self).inner().spec_payload() == old(self).inner().spec_payload(),
            final(self).inner().spec_params() == old(self).inner().spec_params(),
            final(self).inner().spec_app_data() == old(self).inner().spec_app_data(),
            final(self).inner().spec_rmap() == old(self).inner().spec_rmap(),
            final(self).inner().spec_config() == old(self).inner().spec_config(),
            final(self).inner().exclusive(),
    {
        self.req.extensions_mut()
    }
}

/// A service http response: the originating request paired with the
/// response produced for it, generic over the body representation.
#[derive(Debug)]
pub struct WebResponse<B = Body> {
    pub request: HttpRequest,
    pub response: Response<B>,
}

impl<B> WebResponse<B> {
    /// Pair a request with a response.
    pub fn new(request: HttpRequest, response: Response<B>) -> (r: WebResponse<B>)
        ensures
            r.request == request,
            r.response == response,
    {
        WebResponse { request, response }
    }

    /// Build the response a domain error maps to, paired with the
    /// given request. Any body the error path had produced is replaced
    /// by the canonical error body.
    pub fn from_err(err: WebError, request: HttpRequest) -> (r: WebResponse<B>)
        ensures
            r.request == request,
            r.response.head.status == err.status_spec(),
            r.response.head.version == Version::Http11,
            r.response.head.reason is None,
            r.response.head.headers.view() == Seq::<(Seq<char>, Seq<char>)>::empty(),
            r.response.body matches ResponseBody::Other(Body::Bytes(v)) && v@
                == err.message_bytes_spec(),
    {
        WebResponse { request, response: Response::from_error(err).into_body() }
    }

    /// Discard the current response and rebuild one from the error,
    /// keeping the same request.
    pub fn error_response(self, err: WebError) -> (r: WebResponse<B>)
        ensures
            r.request == self.request,
            r.response.head.status == err.status_spec(),
            r.response.head.version == Version::Http11,
            r.response.head.reason is None,
            r.response.head.headers.view() == Seq::<(Seq<char>, Seq<char>)>::empty(),
            r.response.body matches ResponseBody::Other(Body::Bytes(v)) && v@
                == err.message_bytes_spec(),
    {
        WebResponse::from_err(err, self.request)
    }

    /// Replace the response outright, request unchanged.
    pub fn into_response<B1>(self, response: Response<B1>) -> (r: WebResponse<B1>)
        ensures
            r.request == self.request,
            r.response == response,
    {
        WebResponse::new(self.request, response)
    }

    /// Reference to the originating request.
    pub fn request(&self) -> (r: &HttpRequest)
        ensures
            *r == self.request,
    {
        &self.request
    }

    /// Reference to the response.
    pub fn response(&self) -> (r: &Response<B>)
        ensures
            *r == self.response,
    {
        &self.response
    }

    /// Mutable reference to the response.
    pub fn response_mut(&mut self) -> (r: &mut Response<B>)
        ensures
            final(self).response == *final(r),
            final(self).request == old(self).request,
    {
        &mut self.response
    }

    /// The response status code.
    pub fn status(&self) -> (r: StatusCode)
        ensures
            r == self.response.head.status,
    {
        self.response.status()
    }

    /// The response headers.
    pub fn headers(&self) -> (r: &HeaderMap)
        ensures
            *r == self.response.head.headers,
    {
        self.response.headers()
    }

    /// The response headers, for mutation.
    pub fn headers_mut(&mut self) -> (r: &mut HeaderMap)
        ensures
            final(self).response.head.headers == *final(r),
            final(self).response.head.status == old(self).response.head.status,
            final(self).response.head.version == old(self).response.head.version,
            final(self).response.head.reason == old(self).response.head.reason,
            final(self).response.body == old(self).response.body,
            final(self).request == old(self).request,
    {
        self.response.headers_mut()
    }

    /// Run a fallible transformation over the response; on failure the
    /// transformation hands the response back and the error is
    /// converted to a response, keeping the request.
    pub fn checked_expr<F>(self, f: F) -> (r: WebResponse<B>) where
        F: FnOnce(WebResponse<B>) -> Result<WebResponse<B>, (WebResponse<B>, WebError)>

        requires
            call_requires(f, (self,)),
        ensures
            exists|out: Result<WebResponse<B>, (WebResponse<B>, WebError)>|
                {
                    &&& #[trigger] call_ensures(f, (self,), out)
                    &&& match out {
                        Ok(s) => r == s,
                        Err((s, e)) => {
                            &&& r.request == s.request
                            &&& r.response.head.status == e.status_spec()
                            &&& r.response.body matches ResponseBody::Other(Body::Bytes(v)) && v@
                                == e.message_bytes_spec()
                        },
                    }
                },
    {
        match f(self) {
            Ok(s) => s,
            Err((s, err)) => WebResponse::from_err(err, s.request),
        }
    }

    /// Extract the response body, leaving a response that reports no
    /// body.
    pub fn take_body(&mut self) -> (r: ResponseBody<B>)
        ensures
            r == old(self).response.body,
            final(self).response.body == ResponseBody::<B>::Other(Body::Absent),
            final(self).response.head == old(self).response.head,
            final(self).request == old(self).request,
    {
        self.response.take_body()
    }

    /// Substitute the body representation. The head and the paired
    /// request survive unchanged: the transformation sees the head
    /// read-only.
    pub fn map_body<F, B2>(self, f: F) -> (r: WebResponse<B2>) where
        F: FnOnce(&ResponseHead, ResponseBody<B>) -> ResponseBody<B2>

        requires
            call_requires(f, (&self.response.head, self.response.body)),
        ensures
            r.request == self.request,
            r.response.head == self.response.head,
            call_ensures(f, (&self.response.head, self.response.body), r.response.body),
    {
        let response = self.response.map_body(f);
        WebResponse { response, request: self.request }
    }
}

} // verus!
