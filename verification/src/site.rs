//! The endpoints of the site and the dispatch of a request to one of them.
//!
//! | Method | Path              | Endpoint        |
//! |--------|-------------------|-----------------|
//! | GET    | `/`               | `Root`          |
//! | GET    | `/finalize_login` | `FinalizeLogin` |
//! | POST   | `/form/:field`    | `FormField`     |
//! | GET    | `/worker-version` | `WorkerVersion` |

use crate::config::{Config, ConfigView};
use crate::dict::lookup;
use crate::exchange::{TokenExchange, TokenExchangeView};
use crate::handlers::{
    field_key, finalize_login, form_field, form_outcome, greeting, login_outcome, root, surface,
    surfaced, version_outcome, worker_version, HandlerError,
};
use crate::method::Method;
use crate::pattern::{bindings, parse_pattern, segment_accepts, segments, SegmentView};
use crate::request::{Params, Request, RequestView};
use crate::response::{not_found_response, ok_response, Response, ResponseView};
use crate::router::{
    first_match, is_first_match, lemma_first_match, lemma_first_match_is, no_route_accepts,
    route_accepts, RouteView, Router,
};
use crate::text::{lemma_split_at_separator, lemma_split_without_separator};
use vstd::prelude::*;

verus! {

/// The endpoints that a route can lead to.
#[derive(Clone, Copy, Debug, PartialEq, Eq, Structural)]
pub enum Endpoint {
    /// The greeting.
    Root,
    /// The completion of a login.
    FinalizeLogin,
    /// The echo of one form field.
    FormField,
    /// The configured version.
    WorkerVersion,
}

/// What dispatching a request gives: the response for the client and,
/// where a login was completed, the exchange that the caller is to run
/// apart from the response.
pub struct Reply {
    pub response: Response,
    pub task: Option<TokenExchange>,
}

/// A reply as contracts see it.
pub struct ReplyView {
    pub response: ResponseView,
    pub task: Option<TokenExchangeView>,
}

impl View for Reply {
    type V = ReplyView;

    open spec fn view(&self) -> ReplyView {
        ReplyView {
            response: self.response@,
            task: match self.task {
                Some(task) => Some(task@),
                None => None,
            },
        }
    }
}

/// A reply that carries a response and starts nothing.
pub open spec fn plain_reply(outcome: Result<ResponseView, HandlerError>) -> ReplyView {
    match outcome {
        Ok(response) => ReplyView { response, task: None },
        Err(error) => ReplyView { response: surfaced(error), task: None },
    }
}

/// What an endpoint's handler gives for a request and the parameters that
/// the route bound, an error shown as the response that stands for it.
pub open spec fn handler_output(
    endpoint: Endpoint,
    req: RequestView,
    params: Map<Seq<char>, Seq<char>>,
    config: ConfigView,
) -> ReplyView {
    match endpoint {
        Endpoint::Root => plain_reply(Ok(ok_response(greeting()))),
        Endpoint::FinalizeLogin => match login_outcome(req.query) {
            Ok(login) => ReplyView { response: login.response, task: Some(login.task) },
            Err(error) => plain_reply(Err(error)),
        },
        Endpoint::FormField => plain_reply(form_outcome(req.form, params)),
        Endpoint::WorkerVersion => plain_reply(version_outcome(config)),
    }
}

/// The reply to a request that no route takes.
pub open spec fn not_found_reply() -> ReplyView {
    ReplyView { response: not_found_response(), task: None }
}

/// What dispatching a request over a table of routes gives: the output of
/// the handler of the first route that takes the request, called with the
/// parameters that the route's pattern binds on the path; the fixed
/// not-found reply where no route takes it.
pub open spec fn dispatched(
    routes: Seq<RouteView<Endpoint>>,
    req: RequestView,
    config: ConfigView,
) -> ReplyView {
    match first_match(routes, req.method, req.path) {
        Some(i) => handler_output(
            routes[i].handler,
            req,
            lookup(bindings(routes[i].pattern, segments(req.path))),
            config,
        ),
        None => not_found_reply(),
    }
}

/// A request that a registered route takes, with no route before it that
/// does, gets exactly the output of that route's handler.
pub proof fn lemma_dispatch_reaches_the_handler(
    routes: Seq<RouteView<Endpoint>>,
    req: RequestView,
    config: ConfigView,
    i: int,
)
    requires
        is_first_match(routes, req.method, req.path, i),
    ensures
        dispatched(routes, req, config) == handler_output(
            routes[i].handler,
            req,
            lookup(bindings(routes[i].pattern, segments(req.path))),
            config,
        ),
{
    lemma_first_match_is(routes, req.method, req.path, i);
}

/// A request that no registered route takes gets the not-found reply.
pub proof fn lemma_dispatch_without_match_is_not_found(
    routes: Seq<RouteView<Endpoint>>,
    req: RequestView,
    config: ConfigView,
)
    requires
        no_route_accepts(routes, req.method, req.path),
    ensures
        dispatched(routes, req, config) == not_found_reply(),
{
    lemma_first_match(routes, req.method, req.path);
}

/// Calls the handler of `endpoint`.
pub fn handle(endpoint: Endpoint, req: &Request, params: &Params, config: &Config) -> (r: Reply)
    ensures
        r@ == handler_output(endpoint, req@, params@, config@),
{
    match endpoint {
        Endpoint::Root => Reply { response: root(), task: None },
        Endpoint::FinalizeLogin => match finalize_login(req) {
            Ok(login) => Reply { response: login.response, task: Some(login.task) },
            Err(error) => Reply { response: surface(error), task: None },
        },
        Endpoint::FormField => match form_field(req, params) {
            Ok(response) => Reply { response, task: None },
            Err(error) => Reply { response: surface(error), task: None },
        },
        Endpoint::WorkerVersion => match worker_version(config) {
            Ok(response) => Reply { response, task: None },
            Err(error) => Reply { response: surface(error), task: None },
        },
    }
}

impl Router<Endpoint> {
    /// Answers a request: finds its route, calls the handler, and turns a
    /// handler's error into a response. No handler is called for a request
    /// that no route takes.
    pub fn dispatch(&self, req: &Request, config: &Config) -> (r: Reply)
        ensures
            r@ == dispatched(self@, req@, config@),
    {
        match self.resolve(req.method, req.path.as_str()) {
            Some(found) => {
                proof {
                    lemma_first_match_is(self@, req@.method, req@.path, found.index as int);
                }
                match self.handler(found.index) {
                    Some(endpoint) => handle(*endpoint, req, &found.params, config),
                    None => Reply { response: Response::not_found(), task: None },
                }
            },
            None => {
                proof {
                    lemma_first_match(self@, req@.method, req@.path);
                }
                Reply { response: Response::not_found(), task: None }
            },
        }
    }
}

/// The routes of the site, in the order in which they are tried.
pub open spec fn site_routes() -> Seq<RouteView<Endpoint>> {
    seq![
        RouteView { method: Method::Get, pattern: parse_pattern("/"@), handler: Endpoint::Root },
        RouteView {
            method: Method::Get,
            pattern: parse_pattern("/finalize_login"@),
            handler: Endpoint::FinalizeLogin,
        },
        RouteView {
            method: Method::Post,
            pattern: parse_pattern("/form/:field"@),
            handler: Endpoint::FormField,
        },
        RouteView {
            method: Method::Get,
            pattern: parse_pattern("/worker-version"@),
            handler: Endpoint::WorkerVersion,
        },
    ]
}

/// The router of the site.
pub fn site_router() -> (r: Router<Endpoint>)
    ensures
        r@ == site_routes(),
{
    let mut r: Router<Endpoint> = Router::new();
    r.register(Method::Get, "/", Endpoint::Root);
    r.register(Method::Get, "/finalize_login", Endpoint::FinalizeLogin);
    r.register(Method::Post, "/form/:field", Endpoint::FormField);
    r.register(Method::Get, "/worker-version", Endpoint::WorkerVersion);
    assert(r@ =~= site_routes());
    r
}

/// The segments of the four paths of the site, and of a path under `/form/`.
proof fn lemma_site_paths(name: Seq<char>)
    requires
        !name.contains('/'),
    ensures
        segments("/"@) == seq![Seq::<char>::empty()],
        segments("/finalize_login"@) == seq!["finalize_login"@],
        segments("/worker-version"@) == seq!["worker-version"@],
        segments("/form/:field"@) == seq!["form"@, ":field"@],
        segments("/form/"@ + name) == seq!["form"@, name],
{
    reveal_strlit("/");
    reveal_strlit("/finalize_login");
    reveal_strlit("finalize_login");
    reveal_strlit("/worker-version");
    reveal_strlit("worker-version");
    reveal_strlit("/form/:field");
    reveal_strlit("/form/");
    reveal_strlit("form");
    reveal_strlit(":field");
    assert("/"@.drop_first() == Seq::<char>::empty());
    assert("/finalize_login"@.drop_first() == "finalize_login"@);
    assert("/worker-version"@.drop_first() == "worker-version"@);
    lemma_split_without_separator("finalize_login"@, '/');
    lemma_split_without_separator("worker-version"@, '/');
    lemma_split_without_separator("form"@, '/');
    lemma_split_without_separator(":field"@, '/');
    lemma_split_without_separator(name, '/');
    assert("/form/:field"@.drop_first() == "form"@.push('/') + ":field"@);
    lemma_split_at_separator("form"@, ":field"@, '/');
    assert(seq!["form"@] + seq![":field"@] == seq!["form"@, ":field"@]);
    assert(("/form/"@ + name).drop_first() == "form"@.push('/') + name);
    lemma_split_at_separator("form"@, name, '/');
    assert(seq!["form"@] + seq![name] == seq!["form"@, name]);
}

/// The patterns of the four routes of the site.
proof fn lemma_site_patterns()
    ensures
        parse_pattern("/"@) == seq![SegmentView::Literal(Seq::<char>::empty())],
        parse_pattern("/finalize_login"@) == seq![SegmentView::Literal("finalize_login"@)],
        parse_pattern("/worker-version"@) == seq![SegmentView::Literal("worker-version"@)],
        parse_pattern("/form/:field"@) == seq![
            SegmentView::Literal("form"@),
            SegmentView::Param(field_key()),
        ],
{
    lemma_site_paths(Seq::<char>::empty());
    reveal_strlit("finalize_login");
    reveal_strlit("worker-version");
    reveal_strlit("form");
    reveal_strlit(":field");
    reveal_strlit("field");
    assert(":field"@.drop_first() == "field"@);
    assert(parse_pattern("/"@) =~= seq![SegmentView::Literal(Seq::<char>::empty())]);
    assert(parse_pattern("/finalize_login"@) =~= seq![SegmentView::Literal("finalize_login"@)]);
    assert(parse_pattern("/worker-version"@) =~= seq![SegmentView::Literal("worker-version"@)]);
    assert(parse_pattern("/form/:field"@) =~= seq![
        SegmentView::Literal("form"@),
        SegmentView::Param(field_key()),
    ]);
}

/// A GET of `/` is answered with the greeting, whatever the query and the
/// body of the request hold.
pub proof fn lemma_root_always_greets(req: RequestView, config: ConfigView)
    requires
        req.method == Method::Get,
        req.path == "/"@,
    ensures
        dispatched(site_routes(), req, config) == (ReplyView {
            response: ok_response(greeting()),
            task: None,
        }),
{
    lemma_site_paths(Seq::<char>::empty());
    lemma_site_patterns();
    assert(is_first_match(site_routes(), req.method, req.path, 0));
    lemma_dispatch_reaches_the_handler(site_routes(), req, config, 0);
}

/// A GET of `/finalize_login` goes to the login handler.
pub proof fn lemma_login_route(req: RequestView, config: ConfigView)
    requires
        req.method == Method::Get,
        req.path == "/finalize_login"@,
    ensures
        dispatched(site_routes(), req, config) == handler_output(
            Endpoint::FinalizeLogin,
            req,
            Map::empty(),
            config,
        ),
{
    lemma_site_paths(Seq::<char>::empty());
    lemma_site_patterns();
    reveal_strlit("finalize_login");
    let routes = site_routes();
    assert(!route_accepts(routes[0], req.method, req.path)) by {
        assert(!segment_accepts(routes[0].pattern[0], segments(req.path)[0]));
    }
    assert(route_accepts(routes[1], req.method, req.path));
    assert(is_first_match(routes, req.method, req.path, 1));
    lemma_dispatch_reaches_the_handler(routes, req, config, 1);
}

/// A POST of `/form/` followed by a name goes to the form handler, with
/// the name bound to the parameter `field`.
pub proof fn lemma_form_route(req: RequestView, config: ConfigView, name: Seq<char>)
    requires
        req.method == Method::Post,
        req.path == "/form/"@ + name,
        !name.contains('/'),
    ensures
        dispatched(site_routes(), req, config) == handler_output(
            Endpoint::FormField,
            req,
            Map::<Seq<char>, Seq<char>>::empty().insert(field_key(), name),
            config,
        ),
{
    lemma_site_paths(name);
    lemma_site_patterns();
    let routes = site_routes();
    let parts = segments(req.path);
    let pattern = routes[2].pattern;
    assert(route_accepts(routes[2], req.method, req.path));
    assert(is_first_match(routes, req.method, req.path, 2));
    lemma_dispatch_reaches_the_handler(routes, req, config, 2);
    assert(pattern.drop_last() == seq![SegmentView::Literal("form"@)]);
    assert(pattern.drop_last().drop_last() == Seq::<SegmentView>::empty());
    reveal_with_fuel(bindings, 3);
    assert(bindings(pattern, parts) == seq![(field_key(), name)]);
    let bound = seq![(field_key(), name)];
    assert(bound.drop_last() == Seq::<(Seq<char>, Seq<char>)>::empty());
    assert(bound.last() == (field_key(), name));
    assert(lookup(bound.drop_last()) == Map::<Seq<char>, Seq<char>>::empty());
    assert(lookup(bound) == Map::<Seq<char>, Seq<char>>::empty().insert(field_key(), name));
}

/// A GET of `/worker-version` goes to the version handler.
pub proof fn lemma_version_route(req: RequestView, config: ConfigView)
    requires
        req.method == Method::Get,
        req.path == "/worker-version"@,
    ensures
        dispatched(site_routes(), req, config) == plain_reply(version_outcome(config)),
{
    lemma_site_paths(Seq::<char>::empty());
    lemma_site_patterns();
    reveal_strlit("finalize_login");
    reveal_strlit("worker-version");
    let routes = site_routes();
    assert(!route_accepts(routes[0], req.method, req.path)) by {
        assert(!segment_accepts(routes[0].pattern[0], segments(req.path)[0]));
    }
    assert(!route_accepts(routes[1], req.method, req.path)) by {
        assert("finalize_login"@[0] != "worker-version"@[0]);
        assert(!segment_accepts(routes[1].pattern[0], segments(req.path)[0]));
    }
    assert(route_accepts(routes[3], req.method, req.path));
    assert(is_first_match(routes, req.method, req.path, 3));
    lemma_dispatch_reaches_the_handler(routes, req, config, 3);
}

/// A request with a method other than GET and POST is not found, whatever
/// its path.
pub proof fn lemma_other_methods_are_not_found(req: RequestView, config: ConfigView)
    requires
        req.method != Method::Get,
        req.method != Method::Post,
    ensures
        dispatched(site_routes(), req, config) == not_found_reply(),
{
    assert(no_route_accepts(site_routes(), req.method, req.path));
    lemma_dispatch_without_match_is_not_found(site_routes(), req, config);
}

} // verus!
