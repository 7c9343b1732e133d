//! The request handle: immutable head, a take-once payload slot, the
//! shared application-data bag, captured path parameters, and an
//! explicit reference counter that proves exclusive access.
//!
//! The handle supports cheap shared copies for read access; every copy
//! raises the recorded strong count, and any later attempt to regain
//! exclusive mutable access must find the counts at exactly one strong
//! and zero weak references.

use vstd::prelude::*;

use crate::extensions::Extensions;
use crate::http::{HeaderMap, Method, Uri, Version};
use crate::params::PathParams;

verus! {

/// Peer socket address as plain values: four octets and a port.
#[derive(Clone, Copy, PartialEq, Eq, Structural, Debug)]
pub struct PeerAddr {
    pub o1: u8,
    pub o2: u8,
    pub o3: u8,
    pub o4: u8,
    pub port: u16,
}

/// Head of a request: method, target, version, headers and the peer
/// address the transport layer saw.
#[derive(Debug)]
pub struct RequestHead {
    pub method: Method,
    pub uri: Uri,
    pub version: Version,
    pub headers: HeaderMap,
    pub peer: Option<PeerAddr>,
}

impl RequestHead {
    /// A head is well formed when its target is.
    pub open spec fn wf(self) -> bool {
        self.uri.wf()
    }

    /// The head's observable content.
    pub open spec fn view(self) -> (
        Method,
        (Seq<char>, Option<Seq<char>>),
        Version,
        Seq<(Seq<char>, Seq<char>)>,
        Option<PeerAddr>,
    ) {
        (self.method, self.uri.view(), self.version, self.headers.view(), self.peer)
    }

    /// Copy the head.
    pub fn duplicate(&self) -> (r: RequestHead)
        ensures
            r.view() == self.view(),
    {
        RequestHead {
            method: self.method,
            uri: self.uri.duplicate(),
            version: self.version,
            headers: self.headers.duplicate(),
            peer: self.peer,
        }
    }
}

/// Request payload slot: either already taken (empty) or buffered
/// bytes waiting for their single consumer.
#[derive(Debug)]
pub enum Payload {
    Empty,
    Bytes(Vec<u8>),
}

impl Payload {
    /// The payload's observable content.
    pub open spec fn view(self) -> Option<Seq<u8>> {
        match self {
            Payload::Empty => Option::None,
            Payload::Bytes(v) => Some(v@),
        }
    }

    /// Copy the payload.
    pub fn duplicate(&self) -> (r: Payload)
        ensures
            r.view() == self.view(),
    {
        match self {
            Payload::Empty => Payload::Empty,
            Payload::Bytes(v) => Payload::Bytes(crate::dup::copy_vec(v)),
        }
    }
}

/// Application-level configuration the request was received under.
#[derive(Debug)]
pub struct AppConfig {
    pub host: String,
    pub secure: bool,
}

impl AppConfig {
    /// The configuration's observable content.
    pub open spec fn view(self) -> (Seq<char>, bool) {
        (self.host@, self.secure)
    }

    /// Build a configuration.
    pub fn new(host: String, secure: bool) -> (r: AppConfig)
        ensures
            r.host == host,
            r.secure == secure,
    {
        AppConfig { host, secure }
    }

    /// Copy the configuration.
    pub fn duplicate(&self) -> (r: AppConfig)
        ensures
            r.view() == self.view(),
    {
        AppConfig { host: self.host.clone(), secure: self.secure }
    }
}

/// Name-indexed registry of the application's route patterns, kept on
/// each request for reverse url lookups.
#[derive(Debug)]
pub struct ResourceMap {
    pub entries: Vec<(String, String)>,
}

impl ResourceMap {
    /// The (name, pattern) entries, in registration order.
    pub open spec fn view(self) -> Seq<(Seq<char>, Seq<char>)> {
        self.entries@.map_values(|p: (String, String)| (p.0@, p.1@))
    }

    /// Create an empty registry.
    pub fn new() -> (r: ResourceMap)
        ensures
            r.view() == Seq::<(Seq<char>, Seq<char>)>::empty(),
    {
        let r = ResourceMap { entries: Vec::new() };
        proof {
            assert(r.view() =~= Seq::<(Seq<char>, Seq<char>)>::empty());
        }
        r
    }

    /// Record a named pattern.
    pub fn add(&mut self, name: String, pattern: String)
        ensures
            final(self).view() == old(self).view().push((name@, pattern@)),
    {
        self.entries.push((name, pattern));
        proof {
            assert(final(self).view() =~= old(self).view().push((name@, pattern@)));
        }
    }

    /// Copy the registry.
    pub fn duplicate(&self) -> (r: ResourceMap)
        ensures
            r.view() == self.view(),
    {
        ResourceMap { entries: crate::dup::copy_string_pairs(&self.entries) }
    }
}

/// Client connection information derived from the head and the
/// application configuration.
#[derive(Debug)]
pub struct ConnectionInfo {
    pub host: String,
    pub scheme: String,
}

impl ConnectionInfo {
    /// Derive connection information: the effective host is the first
    /// `host` header when one is present, otherwise the configured
    /// host; the scheme follows the configuration's security flag.
    pub fn get(head: &RequestHead, cfg: &AppConfig) -> (r: ConnectionInfo)
        ensures
            r.scheme@ == (if cfg.secure {
                "https"@
            } else {
                "http"@
            }),
            head.headers.spec_contains("host"@) ==> exists|i: int|
                0 <= i < head.headers.view().len() && head.headers.view()[i].0 == "host"@
                    && head.headers.view()[i].1 == r.host@ && (forall|j: int|
                    0 <= j < i ==> head.headers.view()[j].0 != "host"@),
            !head.headers.spec_contains("host"@) ==> r.host@ == cfg.host@,
    {
        let host: String = match head.headers.get("host") {
            Some(h) => h.clone(),
            Option::None => cfg.host.clone(),
        };
        let scheme: String = if cfg.secure {
            String::from_str("https")
        } else {
            String::from_str("http")
        };
        ConnectionInfo { host, scheme }
    }
}

/// Shared, reference-counted holder of a request's metadata.
///
/// The counter is part of the value and is exposed for inspection:
/// `clone_handle` raises it on both the original and the copy, and
/// every operation that needs mutable access demands exactly one
/// strong and zero weak references, mirroring a shared-pointer
/// `get_mut` that would otherwise fail at run time.
#[derive(Debug)]
pub struct HttpRequest {
    head: RequestHead,
    payload: Payload,
    params: PathParams,
    app_data: Extensions,
    extensions: Extensions,
    rmap: ResourceMap,
    config: AppConfig,
    strong: usize,
    weak: usize,
}

impl HttpRequest {
    /// The head.
    pub closed spec fn spec_head(self) -> RequestHead {
        self.head
    }

    /// The payload slot.
    pub closed spec fn spec_payload(self) -> Payload {
        self.payload
    }

    /// The captured path parameters.
    pub closed spec fn spec_params(self) -> PathParams {
        self.params
    }

    /// The application-data bag.
    pub closed spec fn spec_app_data(self) -> Extensions {
        self.app_data
    }

    /// The request-local extension bag.
    pub closed spec fn spec_extensions(self) -> Extensions {
        self.extensions
    }

    /// The route registry.
    pub closed spec fn spec_rmap(self) -> ResourceMap {
        self.rmap
    }

    /// The application configuration.
    pub closed spec fn spec_config(self) -> AppConfig {
        self.config
    }

    /// Number of strong references the handle records.
    pub closed spec fn strong_count_spec(self) -> nat {
        self.strong as nat
    }

    /// Number of weak references the handle records.
    pub closed spec fn weak_count_spec(self) -> nat {
        self.weak as nat
    }

    /// Exclusive access is proven by exactly one strong and zero weak
    /// references.
    pub open spec fn exclusive(self) -> bool {
        self.strong_count_spec() == 1 && self.weak_count_spec() == 0
    }

    /// A handle is well formed when its head is and it records at
    /// least its own strong reference.
    pub open spec fn wf(self) -> bool {
        self.spec_head().wf() && self.strong_count_spec() >= 1
    }

    /// Both handles carry the same observable request content.
    pub open spec fn content_eq(a: HttpRequest, b: HttpRequest) -> bool {
        a.spec_head().view() == b.spec_head().view() && a.spec_payload().view()
            == b.spec_payload().view() && a.spec_params().view() == b.spec_params().view()
            && a.spec_app_data().view() == b.spec_app_data().view() && a.spec_extensions().view()
            == b.spec_extensions().view() && a.spec_rmap().view() == b.spec_rmap().view()
            && a.spec_config().view() == b.spec_config().view()
    }

    /// Both handles agree on everything but the captured parameters,
    /// counts included.
    pub open spec fn same_except_params(a: HttpRequest, b: HttpRequest) -> bool {
        a.spec_head() == b.spec_head() && a.spec_payload() == b.spec_payload()
            && a.spec_app_data() == b.spec_app_data() && a.spec_extensions()
            == b.spec_extensions() && a.spec_rmap() == b.spec_rmap() && a.spec_config()
            == b.spec_config() && a.strong_count_spec() == b.strong_count_spec()
            && a.weak_count_spec() == b.weak_count_spec()
    }

    /// Assemble a fresh handle, exclusively owned: one strong
    /// reference, no weak ones, no captured parameters yet.
    pub fn new(
        head: RequestHead,
        payload: Payload,
        app_data: Extensions,
        config: AppConfig,
        rmap: ResourceMap,
    ) -> (r: HttpRequest)
        requires
            head.wf(),
        ensures
            r.spec_head() == head,
            r.spec_payload() == payload,
            r.spec_app_data() == app_data,
            r.spec_config() == config,
            r.spec_rmap() == rmap,
            r.spec_params().view() == Seq::<(Seq<char>, Seq<char>)>::empty(),
            r.spec_extensions().view() == Seq::<(u64, u64)>::empty(),
            r.strong_count_spec() == 1,
            r.weak_count_spec() == 0,
            r.exclusive(),
            r.wf(),
    {
        HttpRequest {
            head,
            payload,
            params: PathParams::new(),
            app_data,
            extensions: Extensions::new(),
            rmap,
            config,
            strong: 1,
            weak: 0,
        }
    }

    /// The recorded strong count.
    pub fn strong_count(&self) -> (r: usize)
        ensures
            r == self.strong_count_spec(),
    {
        self.strong
    }

    /// The recorded weak count.
    pub fn weak_count(&self) -> (r: usize)
        ensures
            r == self.weak_count_spec(),
    {
        self.weak
    }

    /// Take a shared copy for read access. Both handles record the
    /// raised strong count, so neither can prove exclusive access any
    /// more.
    pub fn clone_handle(&mut self) -> (r: HttpRequest)
        requires
            1 <= old(self).strong_count_spec() < usize::MAX,
        ensures
            HttpRequest::content_eq(*final(self), *old(self)),
            HttpRequest::content_eq(r, *old(self)),
            final(self).strong_count_spec() == old(self).strong_count_spec() + 1,
            final(self).weak_count_spec() == old(self).weak_count_spec(),
            r.strong_count_spec() == final(self).strong_count_spec(),
            r.weak_count_spec() == final(self).weak_count_spec(),
            !final(self).exclusive(),
            !r.exclusive(),
    {
        self.strong = self.strong + 1;
        HttpRequest {
            head: self.head.duplicate(),
            payload: self.payload.duplicate(),
            params: self.params.duplicate(),
            app_data: self.app_data.duplicate(),
            extensions: self.extensions.duplicate(),
            rmap: self.rmap.duplicate(),
            config: self.config.duplicate(),
            strong: self.strong,
            weak: self.weak,
        }
    }

    /// The request head.
    pub fn head(&self) -> (r: &RequestHead)
        ensures
            *r == self.spec_head(),
    {
        &self.head
    }

    /// Mutable access to the head; demands the exclusivity proof.
    pub fn head_mut(&mut self) -> (r: &mut RequestHead)
        requires
            old(self).exclusive(),
        ensures
            final(self).spec_head() == *final(r),
            final(self).spec_payload() == old(self).spec_payload(),
            final(self).spec_params() == old(self).spec_params(),
            final(self).spec_app_data() == old(self).spec_app_data(),
            final(self).spec_extensions() == old(self).spec_extensions(),
            final(self).spec_rmap() == old(self).spec_rmap(),
            final(self).spec_config() == old(self).spec_config(),
            final(self).strong_count_spec() == old(self).strong_count_spec(),
            final(self).weak_count_spec() == old(self).weak_count_spec(),
    {
        &mut self.head
    }

    /// Mutable access to the request headers alone; demands the
    /// exclusivity proof.
    pub fn headers_mut(&mut self) -> (r: &mut HeaderMap)
        requires
            old(self).exclusive(),
        ensures
            final(self).spec_head().headers == *final(r),
            final(self).spec_head().method == old(self).spec_head().method,
            final(self).spec_head().uri == old(self).spec_head().uri,
            final(self).spec_head().version == old(self).spec_head().version,
            final(self).spec_head().peer == old(self).spec_head().peer,
            final(self).spec_payload() == old(self).spec_payload(),
            final(self).spec_params() == old(self).spec_params(),
            final(self).spec_app_data() == old(self).spec_app_data(),
            final(self).spec_extensions() == old(self).spec_extensions(),
            final(self).spec_rmap() == old(self).spec_rmap(),
            final(self).spec_config() == old(self).spec_config(),
            final(self).strong_count_spec() == old(self).strong_count_spec(),
            final(self).weak_count_spec() == old(self).weak_count_spec(),
    {
        &mut self.head.headers
    }

    /// The captured path parameters.
    pub fn params(&self) -> (r: &PathParams)
        ensures
            *r == self.spec_params(),
    {
        &self.params
    }

    /// Mutable access to the captured path parameters; demands the
    /// exclusivity proof.
    pub fn params_mut(&mut self) -> (r: &mut PathParams)
        requires
            old(self).exclusive(),
        ensures
            final(self).spec_params() == *final(r),
            final(self).spec_head() == old(self).spec_head(),
            final(self).spec_payload() == old(self).spec_payload(),
            final(self).spec_app_data() == old(self).spec_app_data(),
            final(self).spec_extensions() == old(self).spec_extensions(),
            final(self).spec_rmap() == old(self).spec_rmap(),
            final(self).spec_config() == old(self).spec_config(),
            final(self).strong_count_spec() == old(self).strong_count_spec(),
            final(self).weak_count_spec() == old(self).weak_count_spec(),
    {
        &mut self.params
    }

    /// Take the payload out of its slot; demands the exclusivity
    /// proof.
    pub fn take_payload(&mut self) -> (r: Payload)
        requires
            old(self).exclusive(),
        ensures
            r == old(self).spec_payload(),
            final(self).spec_payload() == Payload::Empty,
            final(self).spec_head() == old(self).spec_head(),
            final(self).spec_params() == old(self).spec_params(),
            final(self).spec_app_data() == old(self).spec_app_data(),
            final(self).spec_extensions() == old(self).spec_extensions(),
            final(self).spec_rmap() == old(self).spec_rmap(),
            final(self).spec_config() == old(self).spec_config(),
            final(self).strong_count_spec() == old(self).strong_count_spec(),
            final(self).weak_count_spec() == old(self).weak_count_spec(),
            final(self).exclusive(),
    {
        let mut taken: Payload = Payload::Empty;
        std::mem::swap(&mut self.payload, &mut taken);
        taken
    }

    /// Put a payload into the slot; demands the exclusivity proof.
    pub fn set_payload(&mut self, payload: Payload)
        requires
            old(self).exclusive(),
        ensures
            final(self).spec_payload() == payload,
            final(self).spec_head() == old(self).spec_head(),
            final(self).spec_params() == old(self).spec_params(),
            final(self).spec_app_data() == old(self).spec_app_data(),
            final(self).spec_extensions() == old(self).spec_extensions(),
            final(self).spec_rmap() == old(self).spec_rmap(),
            final(self).spec_config() == old(self).spec_config(),
            final(self).strong_count_spec() == old(self).strong_count_spec(),
            final(self).weak_count_spec() == old(self).weak_count_spec(),
            final(self).exclusive(),
    {
        self.payload = payload;
    }

    /// The application-data bag.
    pub fn app_data(&self) -> (r: &Extensions)
        ensures
            *r == self.spec_app_data(),
    {
        &self.app_data
    }

    /// Replace the application-data bag; demands the exclusivity
    /// proof.
    pub fn set_app_data(&mut self, bag: Extensions)
        requires
            old(self).exclusive(),
        ensures
            final(self).spec_app_data() == bag,
            final(self).spec_head() == old(self).spec_head(),
            final(self).spec_payload() == old(self).spec_payload(),
            final(self).spec_params() == old(self).spec_params(),
            final(self).spec_extensions() == old(self).spec_extensions(),
            final(self).spec_rmap() == old(self).spec_rmap(),
            final(self).spec_config() == old(self).spec_config(),
            final(self).strong_count_spec() == old(self).strong_count_spec(),
            final(self).weak_count_spec() == old(self).weak_count_spec(),
            final(self).exclusive(),
    {
        self.app_data = bag;
    }

    /// The request-local extension bag.
    pub fn extensions(&self) -> (r: &Extensions)
        ensures
            *r == self.spec_extensions(),
    {
        &self.extensions
    }

    /// Mutable access to the request-local extension bag; demands the
    /// exclusivity proof.
    pub fn extensions_mut(&mut self) -> (r: &mut Extensions)
        requires
            old(self).exclusive(),
        ensures
            final(self).spec_extensions() == *final(r),
            final(self).spec_head() == old(self).spec_head(),
            final(self).spec_payload() == old(self).spec_payload(),
            final(self).spec_params() == old(self).spec_params(),
            final(self).spec_app_data() == old(self).spec_app_data(),
            final(self).spec_rmap() == old(self).spec_rmap(),
            final(self).spec_config() == old(self).spec_config(),
            final(self).strong_count_spec() == old(self).strong_count_spec(),
            final(self).weak_count_spec() == old(self).weak_count_spec(),
    {
        &mut self.extensions
    }

    /// The route registry.
    pub fn resource_map(&self) -> (r: &ResourceMap)
        ensures
            *r == self.spec_rmap(),
    {
        &self.rmap
    }

    /// The application configuration.
    pub fn app_config(&self) -> (r: &AppConfig)
        ensures
            *r == self.spec_config(),
    {
        &self.config
    }
}

} // verus!
