//! The table of routes. Routes are tried in the order in which they were
//! registered, and the first whose method and pattern match is taken.

use crate::method::Method;
use crate::pattern::{accepts, bindings, parse_pattern, path_segments, segments, Pattern, SegmentView};
use crate::request::Params;
use crate::text::texts;
use vstd::prelude::*;

verus! {

/// A route: requests with this method whose path matches the pattern go to
/// the handler.
pub struct Route<H> {
    pub method: Method,
    pub pattern: Pattern,
    pub handler: H,
}

/// A route as contracts see it.
pub struct RouteView<H> {
    pub method: Method,
    pub pattern: Seq<SegmentView>,
    pub handler: H,
}

impl<H> View for Route<H> {
    type V = RouteView<H>;

    open spec fn view(&self) -> RouteView<H> {
        RouteView { method: self.method, pattern: self.pattern@, handler: self.handler }
    }
}

/// Whether a route takes requests with this method and path.
pub open spec fn route_accepts<H>(route: RouteView<H>, method: Method, path: Seq<char>) -> bool {
    route.method == method && accepts(route.pattern, segments(path))
}

/// Route `i` takes the request and no route registered before it does.
pub open spec fn is_first_match<H>(
    routes: Seq<RouteView<H>>,
    method: Method,
    path: Seq<char>,
    i: int,
) -> bool {
    &&& 0 <= i < routes.len()
    &&& route_accepts(routes[i], method, path)
    &&& forall|j: int| 0 <= j < i ==> !route_accepts(#[trigger] routes[j], method, path)
}

/// No route takes the request.
pub open spec fn no_route_accepts<H>(routes: Seq<RouteView<H>>, method: Method, path: Seq<char>) -> bool {
    forall|j: int| 0 <= j < routes.len() ==> !route_accepts(#[trigger] routes[j], method, path)
}

/// At most one route is the first match.
pub proof fn lemma_first_match_is_unique<H>(
    routes: Seq<RouteView<H>>,
    method: Method,
    path: Seq<char>,
    i: int,
    j: int,
)
    requires
        is_first_match(routes, method, path, i),
        is_first_match(routes, method, path, j),
    ensures
        i == j,
{
    if i < j {
        assert(!route_accepts(routes[i], method, path));
    } else if j < i {
        assert(!route_accepts(routes[j], method, path));
    }
}

/// The place of the route that a request goes to: the first route in the
/// order of registration that takes it.
pub open spec fn first_match<H>(routes: Seq<RouteView<H>>, method: Method, path: Seq<char>) -> Option<
    int,
>
    decreases routes.len(),
{
    if routes.len() == 0 {
        None
    } else {
        match first_match(routes.drop_last(), method, path) {
            Some(i) => Some(i),
            None => if route_accepts(routes.last(), method, path) {
                Some(routes.len() - 1)
            } else {
                None
            },
        }
    }
}

/// `first_match` finds the first route that takes the request, and finds
/// none exactly when no route takes it.
pub proof fn lemma_first_match<H>(routes: Seq<RouteView<H>>, method: Method, path: Seq<char>)
    ensures
        match first_match(routes, method, path) {
            Some(i) => is_first_match(routes, method, path, i),
            None => no_route_accepts(routes, method, path),
        },
    decreases routes.len(),
{
    if routes.len() > 0 {
        let shorter = routes.drop_last();
        lemma_first_match(shorter, method, path);
        match first_match(shorter, method, path) {
            Some(i) => {
                assert(shorter[i] == routes[i]);
                assert forall|j: int| 0 <= j < i implies !route_accepts(
                    #[trigger] routes[j],
                    method,
                    path,
                ) by {
                    assert(shorter[j] == routes[j]);
                }
            },
            None => {
                assert forall|j: int| 0 <= j < routes.len() - 1 implies !route_accepts(
                    #[trigger] routes[j],
                    method,
                    path,
                ) by {
                    assert(shorter[j] == routes[j]);
                }
            },
        }
    }
}

/// A route that takes the request, with none before it that does, is the
/// one that `first_match` finds.
pub proof fn lemma_first_match_is<H>(
    routes: Seq<RouteView<H>>,
    method: Method,
    path: Seq<char>,
    i: int,
)
    requires
        is_first_match(routes, method, path, i),
    ensures
        first_match(routes, method, path) == Some(i),
{
    lemma_first_match(routes, method, path);
    match first_match(routes, method, path) {
        Some(j) => {
            lemma_first_match_is_unique(routes, method, path, i, j);
        },
        None => {
            assert(!route_accepts(routes[i], method, path));
        },
    }
}

/// A route that was found for a request.
#[derive(Clone, Debug, PartialEq, Eq)]
pub struct Match {
    /// The place of the route in the order of registration.
    pub index: usize,
    /// The parameters that its pattern bound on the path.
    pub params: Params,
}

/// A table of routes to handlers of type `H`.
pub struct Router<H> {
    routes: Vec<Route<H>>,
}

impl<H> View for Router<H> {
    type V = Seq<RouteView<H>>;

    closed spec fn view(&self) -> Seq<RouteView<H>> {
        self.routes@.map_values(|route: Route<H>| route@)
    }
}

impl<H> Router<H> {
    /// A table without routes.
    pub fn new() -> (r: Self)
        ensures
            r@ == Seq::<RouteView<H>>::empty(),
    {
        let r = Router { routes: Vec::new() };
        assert(r@ =~= Seq::<RouteView<H>>::empty());
        r
    }

    /// Adds a route behind those registered so far.
    pub fn register(&mut self, method: Method, pattern: &str, handler: H)
        ensures
            final(self)@ == old(self)@.push(
                RouteView { method, pattern: parse_pattern(pattern@), handler },
            ),
    {
        let ghost before = self@;
        let route = Route { method, pattern: Pattern::parse(pattern), handler };
        self.routes.push(route);
        assert(self@ =~= before.push(
            RouteView { method, pattern: parse_pattern(pattern@), handler },
        ));
    }

    /// How many routes are registered.
    pub fn len(&self) -> (n: usize)
        ensures
            n == self@.len(),
    {
        self.routes.len()
    }

    /// The handler of route `index`, where there is such a route.
    pub fn handler(&self, index: usize) -> (r: Option<&H>)
        ensures
            match r {
                Some(handler) => index < self@.len() && *handler == self@[index as int].handler,
                None => index >= self@.len(),
            },
    {
        if index < self.routes.len() {
            Some(&self.routes[index].handler)
        } else {
            None
        }
    }

    /// Finds the route for a request: the first registered route with this
    /// method whose pattern matches the path, together with the parameters
    /// that the pattern binds. `None` where no route matches.
    pub fn resolve(&self, method: Method, path: &str) -> (r: Option<Match>)
        ensures
            match r {
                Some(found) => is_first_match(self@, method, path@, found.index as int)
                    && found.params.entries() == bindings(
                    self@[found.index as int].pattern,
                    segments(path@),
                ),
                None => no_route_accepts(self@, method, path@),
            },
    {
        let parts = path_segments(path);
        let mut i: usize = 0;
        while i < self.routes.len()
            invariant
                i <= self.routes.len(),
                texts(parts@) == segments(path@),
                forall|j: int| 0 <= j < i ==> !route_accepts(#[trigger] self@[j], method, path@),
            decreases self.routes.len() - i,
        {
            let route = &self.routes[i];
            assert(self@[i as int] == route@);
            if route.method == method {
                match route.pattern.bind_parts(&parts) {
                    Some(params) => {
                        return Some(Match { index: i, params });
                    },
                    None => {},
                }
            }
            i += 1;
        }
        None
    }
}

} // verus!
