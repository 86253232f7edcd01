//! The router: a table from route keys to handlers, and a fallback for every
//! request that the table does not hold.

use crate::codec::DecodeError;
use crate::handlers::{no_route_message, outcome_view, Handler, HandlerView};
use crate::method::{lemma_named_ignores_case, Method};
use crate::request::{Request, RequestView};
use crate::response::{Response, ResponseView, STATUS_NOT_FOUND, TEXT_PLAIN};
use crate::text::{same_ignoring_case, str_eq};
use vstd::prelude::*;

verus! {

/// Why a route was not added.
#[derive(Clone, Copy, Debug, PartialEq, Eq)]
pub enum RouteError {
    /// The table already holds a handler under that method and path.
    AlreadyRegistered,
}

struct Route {
    method: Method,
    path: String,
    handler: Handler,
}

impl Route {
    spec fn key(self) -> (Method, Seq<char>) {
        (self.method, self.path@)
    }
}

/// No two routes have the same key.
spec fn distinct_keys(routes: Seq<Route>) -> bool {
    forall|i: int, j: int|
        0 <= i < j < routes.len() ==> (#[trigger] routes[i]).key() != (#[trigger] routes[j]).key()
}

/// The table that a list of routes stands for.
spec fn table(routes: Seq<Route>) -> Map<(Method, Seq<char>), HandlerView>
    decreases routes.len(),
{
    if routes.len() == 0 {
        Map::empty()
    } else {
        table(routes.drop_last()).insert(routes.last().key(), routes.last().handler@)
    }
}

/// The keys of the table are the keys of the routes.
proof fn lemma_table_keys(routes: Seq<Route>, key: (Method, Seq<char>))
    ensures
        table(routes).contains_key(key) <==> exists|i: int|
            0 <= i < routes.len() && (#[trigger] routes[i]).key() == key,
    decreases routes.len(),
{
    if routes.len() > 0 {
        let front = routes.drop_last();
        lemma_table_keys(front, key);
        if exists|i: int| 0 <= i < routes.len() && (#[trigger] routes[i]).key() == key {
            let i = choose|i: int| 0 <= i < routes.len() && (#[trigger] routes[i]).key() == key;
            if i < front.len() {
                assert(front[i].key() == key);
            }
        }
    }
}

/// Where keys are distinct, the table maps each route's key to its handler.
proof fn lemma_table_entry(routes: Seq<Route>, i: int)
    requires
        distinct_keys(routes),
        0 <= i < routes.len(),
    ensures
        table(routes).contains_key(routes[i].key()),
        table(routes)[routes[i].key()] == routes[i].handler@,
    decreases routes.len(),
{
    let front = routes.drop_last();
    if i < front.len() {
        assert(distinct_keys(front));
        lemma_table_entry(front, i);
    }
}

/// A table of routes with a fallback.
pub struct Router {
    routes: Vec<Route>,
    fallback: Handler,
}

/// A router as a mathematical value: a map from route keys to handlers, and
/// the handler of every other request.
pub struct RouterView {
    pub routes: Map<(Method, Seq<char>), HandlerView>,
    pub fallback: HandlerView,
}

impl RouterView {
    /// The handler registered under the method and path, the fallback where
    /// there is none.
    pub open spec fn lookup(self, method: Method, path: Seq<char>) -> HandlerView {
        if self.routes.contains_key((method, path)) {
            self.routes[(method, path)]
        } else {
            self.fallback
        }
    }

    /// The handler of a request with the given method name and path. The
    /// name is read without regard to case; a name that spells no method of
    /// a route key has the fallback, whatever the path.
    pub open spec fn selected(self, method: Seq<char>, path: Seq<char>) -> HandlerView {
        match Method::named(method) {
            Some(m) => self.lookup(m, path),
            None => self.fallback,
        }
    }

    /// Some route has the request's method and path.
    pub open spec fn has_route(self, request: RequestView) -> bool {
        Method::named(request.method) matches Some(m) && self.routes.contains_key(
            (m, request.path),
        )
    }

    /// What the router answers to a request.
    pub open spec fn dispatch(self, request: RequestView) -> Result<ResponseView, DecodeError> {
        self.selected(request.method, request.path).response(request.uri)
    }
}

/// A request that some route matches is answered by that route's handler; any
/// other request is answered by the fallback.
pub proof fn lemma_dispatch_cases(router: RouterView, request: RequestView)
    ensures
        router.has_route(request) ==> router.dispatch(request) == router.routes[(
            Method::named(request.method)->0,
            request.path,
        )].response(request.uri),
        !router.has_route(request) ==> router.dispatch(request) == router.fallback.response(
            request.uri,
        ),
{
}

/// Dispatch reads the method without regard to case: two requests that
/// differ only in the case of the method's letters have the same answer.
pub proof fn lemma_dispatch_ignores_method_case(
    router: RouterView,
    first: RequestView,
    second: RequestView,
)
    requires
        same_ignoring_case(first.method, second.method),
        first.path == second.path,
        first.uri == second.uri,
    ensures
        router.dispatch(first) == router.dispatch(second),
{
    lemma_named_ignores_case(first.method, second.method);
}

/// Where the fallback is the catch-all, a request that no route matches is
/// answered "not found", with the request's URI in the body.
pub proof fn lemma_unmatched_not_found(router: RouterView, request: RequestView)
    requires
        router.fallback == HandlerView::NotFound,
        !router.has_route(request),
    ensures
        router.dispatch(request) == Ok::<ResponseView, DecodeError>(
            ResponseView::text(
                STATUS_NOT_FOUND as int,
                TEXT_PLAIN@,
                no_route_message(request.uri),
            ),
        ),
{
}

/// Keys are unique: a handler registered under a key is the one found there,
/// and registering it leaves every other key as it was.
pub proof fn lemma_insert_lookup(
    router: RouterView,
    method: Method,
    path: Seq<char>,
    handler: HandlerView,
    other_method: Method,
    other_path: Seq<char>,
)
    ensures
        ({
            let after = RouterView {
                routes: router.routes.insert((method, path), handler),
                fallback: router.fallback,
            };
            &&& after.lookup(method, path) == handler
            &&& (other_method, other_path) != (method, path) ==> after.lookup(
                other_method,
                other_path,
            ) == router.lookup(other_method, other_path)
        }),
{
}

impl View for Router {
    type V = RouterView;

    closed spec fn view(&self) -> RouterView {
        RouterView { routes: table(self.routes@), fallback: self.fallback@ }
    }
}

impl Router {
    #[verifier::type_invariant]
    spec fn well_formed(self) -> bool {
        distinct_keys(self.routes@)
    }

    /// A router with no route, whose fallback answers "not found".
    pub fn new() -> (router: Router)
        ensures
            router@ == (RouterView { routes: Map::empty(), fallback: HandlerView::NotFound }),
    {
        Router { routes: Vec::new(), fallback: Handler::NotFound }
    }

    fn find(&self, method: Method, path: &str) -> (found: Option<usize>)
        ensures
            match found {
                Some(i) => i < self.routes.len() && self.routes[i as int].key() == (method, path@),
                None => !self@.routes.contains_key((method, path@)),
            },
    {
        let mut i: usize = 0;
        while i < self.routes.len()
            invariant
                i <= self.routes.len(),
                forall|j: int| 0 <= j < i ==> (#[trigger] self.routes[j]).key() != (method, path@),
            decreases self.routes.len() - i,
        {
            if self.routes[i].method == method && str_eq(self.routes[i].path.as_str(), path) {
                return Some(i);
            }
            i += 1;
        }
        proof {
            lemma_table_keys(self.routes@, (method, path@));
        }
        None
    }

    /// Tells whether a handler is registered under the method and path.
    pub fn contains(&self, method: Method, path: &str) -> (found: bool)
        ensures
            found == self@.routes.contains_key((method, path@)),
    {
        let found = self.find(method, path);
        proof {
            lemma_table_keys(self.routes@, (method, path@));
        }
        found.is_some()
    }

    /// Registers `handler` under the method and path, unless a handler is
    /// registered there already; then the router stays as it is.
    pub fn add(&mut self, method: Method, path: &str, handler: Handler) -> (r: Result<
        (),
        RouteError,
    >)
        ensures
            match r {
                Ok(()) => {
                    &&& !old(self)@.routes.contains_key((method, path@))
                    &&& final(self)@ == (RouterView {
                        routes: old(self)@.routes.insert((method, path@), handler@),
                        fallback: old(self)@.fallback,
                    })
                },
                Err(RouteError::AlreadyRegistered) => {
                    &&& old(self)@.routes.contains_key((method, path@))
                    &&& final(self)@ == old(self)@
                },
            },
    {
        if self.contains(method, path) {
            Err(RouteError::AlreadyRegistered)
        } else {
            self.insert(method, path, handler);
            Ok(())
        }
    }

    /// Registers `handler` under a key that the table does not hold yet.
    pub(crate) fn insert(&mut self, method: Method, path: &str, handler: Handler)
        requires
            !old(self)@.routes.contains_key((method, path@)),
        ensures
            final(self)@ == (RouterView {
                routes: old(self)@.routes.insert((method, path@), handler@),
                fallback: old(self)@.fallback,
            }),
    {
        proof {
            use_type_invariant(&*self);
            lemma_table_keys(self.routes@, (method, path@));
        }
        let ghost before = self.routes@;
        let route = Route { method, path: path.to_owned(), handler };
        let mut routes: Vec<Route> = Vec::new();
        std::mem::swap(&mut self.routes, &mut routes);
        routes.push(route);
        proof {
            assert(routes@.drop_last() =~= before);
        }
        std::mem::swap(&mut self.routes, &mut routes);
    }

    /// Installs `handler` as the handler of every request that no route
    /// matches.
    pub fn set_fallback(&mut self, handler: Handler)
        ensures
            final(self)@ == (RouterView { routes: old(self)@.routes, fallback: handler@ }),
    {
        proof {
            use_type_invariant(&*self);
        }
        self.fallback = handler;
    }

    /// Picks the handler of a request with the given method name and path.
    pub fn select(&self, method: &str, path: &str) -> (handler: &Handler)
        ensures
            handler@ == self@.selected(method@, path@),
    {
        match Method::parse(method) {
            Some(m) => match self.find(m, path) {
                Some(i) => {
                    proof {
                        use_type_invariant(self);
                        lemma_table_entry(self.routes@, i as int);
                    }
                    &self.routes[i].handler
                },
                None => &self.fallback,
            },
            None => &self.fallback,
        }
    }

    /// Answers a request: picks its handler and runs it on the request's URI.
    pub fn dispatch(&self, request: &Request) -> (r: Result<Response, DecodeError>)
        ensures
            outcome_view(r) == self@.dispatch(request@),
            r matches Ok(response) ==> response@.well_formed(),
    {
        let handler = self.select(request.method.as_str(), request.path.as_str());
        handler.respond(request.uri.as_str())
    }
}

} // verus!
