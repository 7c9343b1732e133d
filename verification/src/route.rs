//! Service registration and dispatch: the public registration
//! contract, the single-shot wrapper that guarantees at-most-once
//! registration, the route builder, the routing table, and the
//! first-match-wins dispatch over it.

use vstd::prelude::*;

use actix_router::ResourceDef;

use crate::body::{Body, ResponseBody};
use crate::error::WebError;
use crate::guard::{all_accept, check_all, Guard};
use crate::http::{StatusCode, Version};
use crate::params::PathParams;
use crate::pattern::{
    capture, compile, get_name, insert_slash, normalized_patterns, path_captures, patterns_ok,
    rdef_name, rdef_patterns, set_name, views_of,
};
use crate::request::{HttpRequest, RequestHead};
use crate::response::Response;
use crate::service::{WebRequest, WebResponse};

verus! {

/// A handler bundle: accepts a Web Request and yields either a Web
/// Response or the request back with a domain error. Implementations
/// declare in `handled` which outcomes they can produce.
pub trait Handler: Sized {
    /// The outcomes the handler can produce for a request.
    spec fn handled(&self, req: WebRequest, out: Result<WebResponse<Body>, (WebRequest, WebError)>) -> bool;

    /// Handle one request.
    fn call(&self, req: WebRequest) -> (r: Result<WebResponse<Body>, (WebRequest, WebError)>)
        requires
            req.wf(),
        ensures
            self.handled(req, r),
    ;
}

/// Handler answering every request with an empty-bodied response of a
/// fixed status.
pub struct FixedStatus {
    pub status: StatusCode,
}

impl FixedStatus {
    /// Answer with the given status.
    pub fn new(status: StatusCode) -> (r: FixedStatus)
        ensures
            r.status == status,
    {
        FixedStatus { status }
    }
}

impl Handler for FixedStatus {
    open spec fn handled(
        &self,
        req: WebRequest,
        out: Result<WebResponse<Body>, (WebRequest, WebError)>,
    ) -> bool {
        &&& out matches Ok(resp)
        &&& out matches Ok(resp) ==> {
            &&& resp.request == req.inner()
            &&& resp.response.head.status == self.status
            &&& resp.response.head.version == Version::Http11
            &&& resp.response.head.reason is None
            &&& resp.response.head.headers.view() == Seq::<(Seq<char>, Seq<char>)>::empty()
            &&& resp.response.body == ResponseBody::<Body>::Body(Body::Empty)
        }
    }

    fn call(&self, req: WebRequest) -> (r: Result<WebResponse<Body>, (WebRequest, WebError)>) {
        Ok(req.into_response(Response::new(self.status)))
    }
}

/// Handler that hands every request back with a fixed error: a stub
/// for wiring an application before its real handlers exist.
pub struct Failing {
    pub err: WebError,
}

impl Failing {
    /// Fail with the given error.
    pub fn new(err: WebError) -> (r: Failing)
        ensures
            r.err == err,
    {
        Failing { err }
    }
}

impl Handler for Failing {
    open spec fn handled(
        &self,
        req: WebRequest,
        out: Result<WebResponse<Body>, (WebRequest, WebError)>,
    ) -> bool {
        out matches Err(p) && p.0 == req && p.1 == self.err
    }

    fn call(&self, req: WebRequest) -> (r: Result<WebResponse<Body>, (WebRequest, WebError)>) {
        Err((req, self.err))
    }
}

/// One routable unit of the routing table: a compiled matcher, its
/// optional guard list, and the bound handler.
pub struct ServiceEntry<H> {
    pub rdef: ResourceDef,
    pub guards: Option<Vec<Guard>>,
    pub handler: H,
}

/// Routing configuration: accumulates routable units in registration
/// order, and remembers whether it is the application root.
pub struct AppService<H> {
    pub root: bool,
    pub services: Vec<ServiceEntry<H>>,
}

impl<H> AppService<H> {
    /// An empty configuration.
    pub fn new(is_root: bool) -> (r: AppService<H>)
        ensures
            r.root == is_root,
            r.services@ == Seq::<ServiceEntry<H>>::empty(),
    {
        AppService { root: is_root, services: Vec::new() }
    }

    /// Whether this configuration is the application root.
    pub fn is_root(&self) -> (r: bool)
        ensures
            r == self.root,
    {
        self.root
    }

    /// Number of registered units.
    pub fn len(&self) -> (r: usize)
        ensures
            r == self.services@.len(),
    {
        self.services.len()
    }

    /// Append one routable unit.
    pub fn register_service(&mut self, rdef: ResourceDef, guards: Option<Vec<Guard>>, handler: H)
        ensures
            final(self).root == old(self).root,
            final(self).services@ == old(self).services@.push(
                (ServiceEntry { rdef, guards, handler }),
            ),
    {
        self.services.push(ServiceEntry { rdef, guards, handler });
    }

    /// The reverse-generation name attached to the unit at the given
    /// position.
    pub fn service_name(&self, i: usize) -> (r: String)
        requires
            i < self.services@.len(),
        ensures
            r@ == rdef_name(self.services@[i as int].rdef),
    {
        get_name(&self.services[i].rdef)
    }
}

/// The public registration contract: a handler-bundle type installs
/// itself, consuming itself, into a routing configuration.
pub trait HttpServiceFactory<H: Handler>: Sized {
    /// What the registration demands of its inputs.
    spec fn register_requires(&self, pre: AppService<H>) -> bool;

    /// How the configuration after registration relates to the one
    /// before.
    spec fn registered(self, pre: AppService<H>, post: AppService<H>) -> bool;

    /// Install this unit into the configuration.
    fn register(self, config: &mut AppService<H>)
        requires
            self.register_requires(*old(config)),
        ensures
            self.registered(*old(config), *final(config)),
    ;
}

/// Single-shot wrapper around a registrable unit: its uniform
/// `register` takes the unit out of the slot, so the underlying
/// registration runs at most once however often it is invoked.
pub struct ServiceFactoryWrapper<T> {
    factory: Option<T>,
}

/// One invocation of the single-shot wrapper's `register`: the slot is
/// empty afterwards, a full slot registers its unit, an empty slot
/// leaves the configuration untouched.
pub open spec fn single_shot_step<H: Handler, T: HttpServiceFactory<H>>(
    pre_w: ServiceFactoryWrapper<T>,
    post_w: ServiceFactoryWrapper<T>,
    pre_c: AppService<H>,
    post_c: AppService<H>,
) -> bool {
    &&& post_w.spec_factory() is None
    &&& match pre_w.spec_factory() {
        Some(f) => f.registered(pre_c, post_c),
        Option::None => post_c == pre_c,
    }
}

impl<T> ServiceFactoryWrapper<T> {
    /// The slot: the registrable while registration is still owed.
    pub closed spec fn spec_factory(self) -> Option<T> {
        self.factory
    }

    /// Wrap a registrable unit.
    pub fn new(factory: T) -> (r: ServiceFactoryWrapper<T>)
        ensures
            r.spec_factory() == Some(factory),
    {
        ServiceFactoryWrapper { factory: Some(factory) }
    }

    /// Uniform registration: run the wrapped unit's registration if it
    /// has not run yet, and nothing otherwise.
    pub fn register<H: Handler>(&mut self, config: &mut AppService<H>) where
        T: HttpServiceFactory<H>

        requires
            match old(self).spec_factory() {
                Some(f) => f.register_requires(*old(config)),
                Option::None => true,
            },
        ensures
            single_shot_step(*old(self), *final(self), *old(config), *final(config)),
    {
        let item: Option<T> = self.factory.take();
        match item {
            Some(f) => f.register(config),
            Option::None => {},
        }
    }
}

/// Registration fires exactly once over any run of invocations: for a
/// chain of `single_shot_step` transitions, the first invocation
/// performs the wrapped unit's registration (or nothing, when the slot
/// was already empty), and every later invocation leaves the
/// configuration exactly as it found it.
pub proof fn lemma_single_shot_run<H: Handler, T: HttpServiceFactory<H>>(
    ws: Seq<ServiceFactoryWrapper<T>>,
    cs: Seq<AppService<H>>,
)
    requires
        ws.len() >= 2,
        cs.len() == ws.len(),
        forall|k: int|
            0 <= k < ws.len() - 1 ==> single_shot_step(#[trigger] ws[k], ws[k + 1], cs[k], cs[k + 1]),
    ensures
        ws[0].spec_factory() matches Some(f) ==> f.registered(cs[0], cs[1]),
        ws[0].spec_factory() is None ==> cs[1] == cs[0],
        forall|k: int| 1 <= k < cs.len() - 1 ==> cs[k + 1] == #[trigger] cs[k],
{
    assert(single_shot_step(ws[0], ws[1], cs[0], cs[1]));
    assert forall|k: int| 1 <= k < cs.len() - 1 implies cs[k + 1] == #[trigger] cs[k] by {
        assert(single_shot_step(ws[k - 1], ws[k], cs[k - 1], cs[k]));
        assert(ws[k].spec_factory() is None);
        assert(single_shot_step(ws[k], ws[k + 1], cs[k], cs[k + 1]));
    }
}

/// A web service under construction: one or more path patterns, an
/// optional name for reverse url generation, and guards accumulated in
/// registration order.
pub struct WebService {
    pub rdef: Vec<String>,
    pub name: Option<String>,
    pub guards: Vec<Guard>,
}

impl WebService {
    /// Create a web service for one path pattern.
    pub fn new(path: &str) -> (r: WebService)
        ensures
            views_of(r.rdef@) == seq![path@],
            r.name is None,
            r.guards@ == Seq::<Guard>::empty(),
    {
        let mut rdef: Vec<String> = Vec::new();
        rdef.push(path.to_owned());
        let r = WebService { rdef, name: Option::None, guards: Vec::new() };
        proof {
            assert(views_of(r.rdef@) =~= seq![path@]);
        }
        r
    }

    /// Create a web service for a whole pattern set, possibly empty.
    pub fn from_patterns(patterns: Vec<String>) -> (r: WebService)
        ensures
            r.rdef == patterns,
            r.name is None,
            r.guards@ == Seq::<Guard>::empty(),
    {
        WebService { rdef: patterns, name: Option::None, guards: Vec::new() }
    }

    /// Set the service name, used for url generation.
    pub fn name(self, name: &str) -> (r: WebService)
        ensures
            r.name matches Some(n) && n@ == name@,
            r.rdef == self.rdef,
            r.guards == self.guards,
    {
        WebService { name: Some(name.to_owned()), ..self }
    }

    /// Add a match guard; guards accumulate in registration order and
    /// all must accept for the route to win.
    pub fn guard(self, guard: Guard) -> (r: WebService)
        ensures
            r.guards@ == self.guards@.push(guard),
            r.rdef == self.rdef,
            r.name == self.name,
    {
        let mut guards = self.guards;
        guards.push(guard);
        WebService { guards, ..self }
    }

    /// Bind the downstream handler, producing a registrable unit.
    pub fn finish<H: Handler>(self, service: H) -> (r: WebServiceImpl<H>)
        ensures
            r.srv == service,
            r.rdef == self.rdef,
            r.name == self.name,
            r.guards == self.guards,
    {
        WebServiceImpl { srv: service, rdef: self.rdef, name: self.name, guards: self.guards }
    }
}

/// A finalized web service: patterns, optional name, guards, and
/// exactly one bound handler.
pub struct WebServiceImpl<H> {
    pub srv: H,
    pub rdef: Vec<String>,
    pub name: Option<String>,
    pub guards: Vec<Guard>,
}

impl<H: Handler> HttpServiceFactory<H> for WebServiceImpl<H> {
    open spec fn register_requires(&self, pre: AppService<H>) -> bool {
        patterns_ok(normalized_patterns(pre.root, views_of(self.rdef@)))
    }

    open spec fn registered(self, pre: AppService<H>, post: AppService<H>) -> bool {
        &&& post.root == pre.root
        &&& post.services@.len() == pre.services@.len() + 1
        &&& post.services@.subrange(0, pre.services@.len() as int) == pre.services@
        &&& rdef_patterns(post.services@.last().rdef) == normalized_patterns(
            pre.root,
            views_of(self.rdef@),
        )
        &&& rdef_name(post.services@.last().rdef) == (match self.name {
            Some(n) => n@,
            Option::None => Seq::<char>::empty(),
        })
        &&& post.services@.last().guards == (if self.guards@.len() == 0 {
            Option::<Vec<Guard>>::None
        } else {
            Some(self.guards)
        })
        &&& post.services@.last().handler == self.srv
    }

    fn register(self, config: &mut AppService<H>) {
        let WebServiceImpl { srv, rdef, name, guards } = self;
        let guards_opt: Option<Vec<Guard>> = if guards.len() == 0 {
            Option::None
        } else {
            Some(guards)
        };
        let compiled: ResourceDef = if config.is_root() || rdef.len() > 0 {
            compile(insert_slash(rdef))
        } else {
            compile(rdef)
        };
        let mut compiled = compiled;
        match &name {
            Some(n) => set_name(&mut compiled, n.as_str()),
            Option::None => {},
        }
        config.register_service(compiled, guards_opt, srv);
        proof {
            assert(final(config).services@.subrange(0, old(config).services@.len() as int)
                =~= old(config).services@);
        }
    }
}

/// Whether a routing-table entry answers the request: its pattern set
/// matches the path, and, only then, every guard accepts the head.
pub open spec fn entry_matches<H: Handler>(
    e: ServiceEntry<H>,
    head: RequestHead,
    path: Seq<char>,
) -> bool {
    &&& path_captures(rdef_patterns(e.rdef), path) is Some
    &&& match e.guards {
        Some(gs) => all_accept(gs@, head),
        Option::None => true,
    }
}

/// The entry at position `w` wins dispatch: it answers the request and
/// no earlier entry does.
pub open spec fn is_winner<H: Handler>(
    s: Seq<ServiceEntry<H>>,
    head: RequestHead,
    path: Seq<char>,
    w: int,
) -> bool {
    &&& 0 <= w < s.len()
    &&& entry_matches(s[w], head, path)
    &&& forall|j: int| 0 <= j < w ==> !entry_matches(#[trigger] s[j], head, path)
}

/// The response carries exactly what the given error maps to: its
/// status and its canonical body.
pub open spec fn is_error_response<B>(resp: Response<B>, err: WebError) -> bool {
    &&& resp.head.status == err.status_spec()
    &&& resp.head.version == Version::Http11
    &&& resp.head.reason is None
    &&& resp.head.headers.view() == Seq::<(Seq<char>, Seq<char>)>::empty()
    &&& resp.body matches ResponseBody::Other(Body::Bytes(v)) && v@ == err.message_bytes_spec()
}

/// First-match-wins is a policy on registration order alone: whenever
/// some entry answers the request, the winner stands no later than it,
/// regardless of how specific either pattern is.
pub proof fn lemma_first_match_wins<H: Handler>(
    s: Seq<ServiceEntry<H>>,
    head: RequestHead,
    path: Seq<char>,
    i: int,
    w: int,
)
    requires
        0 <= i < s.len(),
        entry_matches(s[i], head, path),
        is_winner(s, head, path, w),
    ensures
        w <= i,
        entry_matches(s[w], head, path),
{
    if w > i {
        assert(!entry_matches(s[i], head, path));
    }
}

/// Resolve a request against the registered routes, in registration
/// order: the first entry whose path matches and whose guards all
/// accept receives the request, with the captured path parameters
/// installed; a failing handler's error is converted to its response;
/// when no entry answers, the outcome is the not-found response.
#[verifier::loop_isolation(false)]
pub fn dispatch<H: Handler>(app: &AppService<H>, req: WebRequest) -> (r: WebResponse<Body>)
    requires
        req.wf(),
    ensures
        (forall|j: int|
            0 <= j < app.services@.len() ==> !entry_matches(
                #[trigger] app.services@[j],
                req.inner().spec_head(),
                req.inner().spec_head().uri.path@,
            )) ==> r.request == req.inner() && is_error_response(r.response, WebError::NotFound),
        forall|w: int|
            #![trigger is_winner(app.services@, req.inner().spec_head(), req.inner().spec_head().uri.path@, w)]
            is_winner(
                app.services@,
                req.inner().spec_head(),
                req.inner().spec_head().uri.path@,
                w,
            ) ==> exists|req2: WebRequest, out: Result<WebResponse<Body>, (WebRequest, WebError)>|
                {
                    &&& HttpRequest::same_except_params(req2.inner(), req.inner())
                    &&& Some(req2.inner().spec_params().view()) == path_captures(
                        rdef_patterns(app.services@[w].rdef),
                        req.inner().spec_head().uri.path@,
                    )
                    &&& (#[trigger] app.services@[w].handler.handled(req2, out))
                    &&& match out {
                        Ok(resp) => r == resp,
                        Err((back, e)) => r.request == back.inner() && is_error_response(
                            r.response,
                            e,
                        ),
                    }
                },
{
    let ghost head = req.inner().spec_head();
    let ghost path_view = req.inner().spec_head().uri.path@;
    let path: String = req.path().to_owned();
    let count: usize = app.services.len();
    let mut i: usize = 0;
    while i < count
        invariant
            0 <= i <= count,
            forall|j: int| 0 <= j < i ==> !entry_matches(#[trigger] app.services@[j], head, path_view),
        decreases count - i,
    {
        let entry: &ServiceEntry<H> = &app.services[i];
        let captured: Option<Vec<(String, String)>> = capture(&entry.rdef, path.as_str());
        let mut won: bool = false;
        match &captured {
            Some(_) => {
                won = match &entry.guards {
                    Some(gs) => check_all(gs, req.head()),
                    Option::None => true,
                };
            },
            Option::None => {},
        }
        if won {
            let params: Vec<(String, String)> = match captured {
                Some(p) => p,
                Option::None => Vec::new(),
            };
            proof {
                assert(entry_matches(app.services@[i as int], head, path_view));
                assert(is_winner(app.services@, head, path_view, i as int));
            }
            let mut req2 = req;
            *req2.match_info_mut() = PathParams::from_pairs(params);
            let ghost snapshot = req2;
            let out = entry.handler.call(req2);
            proof {
                assert forall|w: int|
                    is_winner(app.services@, head, path_view, w) implies w == i as int by {
                    if w < i as int {
                        assert(entry_matches(app.services@[w], head, path_view));
                        assert(false);
                    } else if w > i as int {
                        assert(!entry_matches(app.services@[i as int], head, path_view));
                        assert(false);
                    }
                }
            }
            match out {
                Ok(resp) => {
                    return resp;
                },
                Err((back, e)) => {
                    let r = WebResponse::from_err(e, back.into_inner());
                    return r;
                },
            }
        }
        proof {
            assert(!entry_matches(app.services@[i as int], head, path_view));
        }
        i += 1;
    }
    WebResponse::from_err(WebError::NotFound, req.into_inner())
}

} // verus!
