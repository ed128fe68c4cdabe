//! The route table: exact path match only, first registered match
//! wins, with an optional default handler.

use vstd::prelude::*;

use crate::find::{contains_str, first_index_of, lemma_first_index_of_is, str_eq};
use crate::query::{Query, QueryModel};
use crate::response::{Response, ResponseModel};

verus! {

/// The capability to answer one request: a handler computes a response
/// from the matched path and the decoded query.
///
/// `spec_handle` is the handler's own description of that computation;
/// an implementation proves that `handle` returns exactly the response
/// the description names.  An unverified implementation outside this
/// crate is believed, not checked.
pub trait Handler: Sized {
    /// The response this handler computes for a path and a query.
    ///
    /// The default says nothing of the response: an implementation
    /// that keeps it promises nothing a caller could use, so a proved
    /// implementation states its own.
    open spec fn spec_handle(&self, path: Seq<char>, query: QueryModel) -> ResponseModel {
        vstd::pervasive::arbitrary()
    }

    /// Compute the response for a request to `path` carrying `query`.
    fn handle(&self, path: &str, query: &Query) -> (r: Response)
        ensures
            r@ == self.spec_handle(path@, query@),
    ;
}

/// An ordered route table: pattern and handler pairs in registration
/// order, plus an optional default handler.  Lookup is by exact path
/// match only — no wildcards, no prefixes, no trailing-slash
/// normalization — and the first registered match wins.
pub struct Router<H> {
    routes: Vec<(String, H)>,
    default_handler: Option<H>,
}

impl<H> Router<H> {
    /// The registered routes, in registration order.
    pub closed spec fn spec_routes(&self) -> Seq<(String, H)> {
        self.routes@
    }

    /// The fallback handler, when one was set.
    pub closed spec fn spec_default(&self) -> Option<H> {
        self.default_handler
    }

    /// The registered patterns, in registration order.
    pub open spec fn patterns(&self) -> Seq<Seq<char>> {
        self.spec_routes().map_values(|r: (String, H)| r.0@)
    }

    /// Whether some registered pattern equals `path` exactly.
    pub open spec fn has_route(&self, path: Seq<char>) -> bool {
        contains_str(self.patterns(), path)
    }

    /// The handler a request to `path` resolves to: the handler of the
    /// first route whose pattern equals `path` exactly, else the
    /// default handler when one was set, else none at all.
    pub open spec fn resolved(&self, path: Seq<char>) -> Option<H> {
        if self.has_route(path) {
            Some(self.spec_routes()[first_index_of(self.patterns(), path)].1)
        } else {
            self.spec_default()
        }
    }

    /// An empty route table with no default handler.
    pub fn new() -> (r: Self)
        ensures
            r.spec_routes() == Seq::<(String, H)>::empty(),
            r.spec_default() is None,
    {
        Router { routes: Vec::new(), default_handler: None }
    }

    /// Append a route.  Nothing enforces pattern uniqueness; at lookup
    /// time the first registered match wins.
    pub fn register(self, pattern: &str, handler: H) -> (r: Self)
        ensures
            r.spec_routes().len() == self.spec_routes().len() + 1,
            forall|i: int|
                0 <= i < self.spec_routes().len() ==> r.spec_routes()[i] == self.spec_routes()[i],
            r.spec_routes().last().0@ == pattern@,
            r.spec_routes().last().1 == handler,
            r.patterns() == self.patterns().push(pattern@),
            r.spec_default() == self.spec_default(),
    {
        let mut routes = self.routes;
        routes.push((pattern.to_owned(), handler));
        let r = Router { routes, default_handler: self.default_handler };
        proof {
            assert(r.patterns() =~= self.patterns().push(pattern@));
        }
        r
    }

    /// Store the fallback handler invoked when no pattern matches.
    pub fn set_default(self, handler: H) -> (r: Self)
        ensures
            r.spec_routes() == self.spec_routes(),
            r.spec_default() == Some(handler),
    {
        Router { routes: self.routes, default_handler: Some(handler) }
    }

    /// The handler for the first route whose pattern equals `path`
    /// exactly; when none matches, the default handler when one is set.
    pub fn lookup(&self, path: &str) -> (r: Option<&H>)
        ensures
            match r {
                Some(h) => self.resolved(path@) == Some(*h),
                None => self.resolved(path@) is None,
            },
    {
        let mut i: usize = 0;
        while i < self.routes.len()
            invariant
                i <= self.routes.len(),
                forall|m: int| 0 <= m < i ==> self.patterns()[m] != path@,
            decreases self.routes.len() - i,
        {
            if str_eq(self.routes[i].0.as_str(), path) {
                proof {
                    assert(self.patterns()[i as int] == self.spec_routes()[i as int].0@);
                    lemma_first_index_of_is(self.patterns(), path@, i as int);
                }
                return Some(&self.routes[i].1);
            }
            proof {
                assert(self.patterns()[i as int] == self.spec_routes()[i as int].0@);
            }
            i = i + 1;
        }
        proof {
            if contains_str(self.patterns(), path@) {
                let m = choose|m: int|
                    0 <= m < self.patterns().len() && self.patterns()[m] == path@;
            }
        }
        match &self.default_handler {
            Some(h) => Some(h),
            None => None,
        }
    }
}

impl<H: Handler> Router<H> {
    /// Resolve `path` and invoke the resolved handler once, if any: the
    /// first route whose pattern equals `path`, else the default
    /// handler, else no handler — and then no response at all.
    pub fn dispatch(&self, path: &str, query: &Query) -> (r: Option<Response>)
        ensures
            match self.resolved(path@) {
                Some(h) => r matches Some(resp) && resp@ == h.spec_handle(path@, query@),
                None => r is None,
            },
    {
        match self.lookup(path) {
            Some(h) => Some(h.handle(path, query)),
            None => None,
        }
    }
}

/// First-match-wins: when `path` equals the pattern of route `i` and of
/// no earlier route, a request to `path` resolves to route `i`'s
/// handler and to no other — even when a later route repeats the same
/// pattern, and whether or not a default handler is set.
pub proof fn lemma_first_match_wins<H>(r: Router<H>, path: Seq<char>, i: int)
    requires
        0 <= i < r.spec_routes().len(),
        r.patterns()[i] == path,
        forall|j: int| 0 <= j < i ==> r.patterns()[j] != path,
    ensures
        r.resolved(path) == Some(r.spec_routes()[i].1),
{
    assert(contains_str(r.patterns(), path));
    lemma_first_index_of_is(r.patterns(), path, i);
}

/// When two routes carry an identical pattern, a request to that
/// pattern is answered by the earlier one's handler: the later
/// registration is never consulted.
pub proof fn lemma_duplicate_pattern_ignored<H>(r: Router<H>, i: int, j: int)
    requires
        0 <= i < j < r.spec_routes().len(),
        r.patterns()[i] == r.patterns()[j],
        forall|m: int| 0 <= m < i ==> r.patterns()[m] != r.patterns()[i],
    ensures
        r.resolved(r.patterns()[j]) == Some(r.spec_routes()[i].1),
{
    lemma_first_match_wins(r, r.patterns()[i], i);
}

/// A request to a path that no registered pattern equals resolves to
/// the default handler when one is set, and to no handler at all when
/// none is.
pub proof fn lemma_unmatched_path<H>(r: Router<H>, path: Seq<char>)
    requires
        forall|j: int| 0 <= j < r.spec_routes().len() ==> r.patterns()[j] != path,
    ensures
        r.resolved(path) == r.spec_default(),
{
    if contains_str(r.patterns(), path) {
        let m = choose|m: int| 0 <= m < r.patterns().len() && r.patterns()[m] == path;
    }
}

} // verus!
