//! The per-connection pipeline from raw request buffer to serialized
//! response, and the configuration a server is built from.

use vstd::prelude::*;
use vstd::utf8::{decode_utf8, valid_utf8};

use crate::query::query_of_pairs;
use crate::request::{requested_target, spec_target};
use crate::response::wire;
use crate::router::{lemma_unmatched_path, lemma_first_match_wins, Handler, Router};
use crate::target::{bytes_to_str, decode_target, url_parses, url_path_of, url_query_pairs_of};

verus! {

/// What one request buffer is answered with: the wire form of the
/// response computed by the resolved handler, or nothing at all when
/// the target is not valid UTF-8, when url's parser rejects it, or
/// when no route matches and no default handler is set.
pub open spec fn spec_response_for<H: Handler>(router: Router<H>, buffer: Seq<u8>) -> Option<
    Seq<char>,
> {
    let target_bytes = spec_target(buffer);
    if !valid_utf8(target_bytes) {
        None
    } else {
        let target = decode_utf8(target_bytes);
        if !url_parses(target) {
            None
        } else {
            let path = url_path_of(target);
            let query = query_of_pairs(url_query_pairs_of(target));
            match router.resolved(path) {
                Some(h) => Some(wire(h.spec_handle(path, query))),
                None => None,
            }
        }
    }
}

/// Answer one connection's raw request buffer: parse the request line,
/// decode the target, resolve the route, invoke the resolved handler
/// once, and serialize its response.  `None` means the connection is to
/// be closed with nothing written — a routing miss without a default
/// handler, or a request whose target cannot be decoded.
pub fn handle_request<H: Handler>(router: &Router<H>, buffer: &[u8]) -> (r: Option<String>)
    ensures
        r is Some == spec_response_for(*router, buffer@) is Some,
        r matches Some(s) ==> Some(s@) == spec_response_for(*router, buffer@),
{
    let target_bytes = requested_target(buffer);
    match bytes_to_str(target_bytes.as_slice()) {
        None => None,
        Some(target) => match decode_target(target) {
            None => None,
            Some((path, query)) => match router.dispatch(path.as_str(), &query) {
                None => None,
                Some(resp) => Some(resp.to_http_string()),
            },
        },
    }
}

/// A decodable request whose path equals the pattern of route `i` and
/// of no earlier route is answered with route `i`'s handler's response
/// and with no other.
pub proof fn lemma_matched_route_answers<H: Handler>(router: Router<H>, buffer: Seq<u8>, i: int)
    requires
        valid_utf8(spec_target(buffer)),
        url_parses(decode_utf8(spec_target(buffer))),
        0 <= i < router.spec_routes().len(),
        router.patterns()[i] == url_path_of(decode_utf8(spec_target(buffer))),
        forall|j: int|
            0 <= j < i ==> router.patterns()[j] != url_path_of(decode_utf8(spec_target(buffer))),
    ensures
        ({
            let target = decode_utf8(spec_target(buffer));
            spec_response_for(router, buffer) == Some(
                wire(
                    router.spec_routes()[i].1.spec_handle(
                        url_path_of(target),
                        query_of_pairs(url_query_pairs_of(target)),
                    ),
                ),
            )
        }),
{
    lemma_first_match_wins(router, url_path_of(decode_utf8(spec_target(buffer))), i);
}

/// A decodable request to an unregistered path, on a router with a
/// default handler, is answered with the default handler's response.
pub proof fn lemma_unmatched_uses_default<H: Handler>(router: Router<H>, buffer: Seq<u8>, d: H)
    requires
        valid_utf8(spec_target(buffer)),
        url_parses(decode_utf8(spec_target(buffer))),
        forall|j: int|
            0 <= j < router.spec_routes().len() ==> router.patterns()[j] != url_path_of(
                decode_utf8(spec_target(buffer)),
            ),
        router.spec_default() == Some(d),
    ensures
        ({
            let target = decode_utf8(spec_target(buffer));
            spec_response_for(router, buffer) == Some(
                wire(
                    d.spec_handle(
                        url_path_of(target),
                        query_of_pairs(url_query_pairs_of(target)),
                    ),
                ),
            )
        }),
{
    lemma_unmatched_path(router, url_path_of(decode_utf8(spec_target(buffer))));
}

/// A request to an unregistered path, on a router with no default
/// handler, is answered with nothing at all: the connection closes
/// with zero bytes written.
pub proof fn lemma_unmatched_writes_nothing<H: Handler>(router: Router<H>, buffer: Seq<u8>)
    requires
        forall|j: int|
            0 <= j < router.spec_routes().len() ==> router.patterns()[j] != url_path_of(
                decode_utf8(spec_target(buffer)),
            ),
        router.spec_default() is None,
    ensures
        spec_response_for(router, buffer) is None,
{
    if valid_utf8(spec_target(buffer)) && url_parses(decode_utf8(spec_target(buffer))) {
        lemma_unmatched_path(router, url_path_of(decode_utf8(spec_target(buffer))));
    }
}

/// Configuration a server embedding this library is built from: the
/// route table, the bounded worker count, the optional per-connection
/// read timeout, and the size of the single fixed read buffer.  It is
/// assembled before the server starts and stays immutable afterwards.
///
/// A request larger than the read buffer is silently truncated to it,
/// and with no read timeout set a slow client can hold a worker
/// indefinitely: both are deliberate boundary conditions of this
/// design, not defects the library papers over.
pub struct ServerConfig<H> {
    router: Router<H>,
    worker_count: u32,
    read_timeout_ms: Option<u64>,
    buffer_size: usize,
}

impl<H> ServerConfig<H> {
    /// The route table requests are dispatched against.
    pub closed spec fn spec_router(&self) -> Router<H> {
        self.router
    }

    /// The fixed number of connections processed concurrently.
    pub closed spec fn spec_worker_count(&self) -> u32 {
        self.worker_count
    }

    /// The per-connection read timeout, in milliseconds, when one is set.
    pub closed spec fn spec_read_timeout_ms(&self) -> Option<u64> {
        self.read_timeout_ms
    }

    /// The size of the single fixed read buffer.
    pub closed spec fn spec_buffer_size(&self) -> usize {
        self.buffer_size
    }

    /// A well-formed configuration bounds concurrency by at least one
    /// worker and reads into a non-empty buffer.
    pub open spec fn wf(&self) -> bool {
        self.spec_worker_count() >= 1 && self.spec_buffer_size() >= 1
    }

    /// A configuration around `router` with the defaults: four workers,
    /// no read timeout, a 4096-byte read buffer.
    pub fn new(router: Router<H>) -> (c: Self)
        ensures
            c.spec_router() == router,
            c.spec_worker_count() == 4u32,
            c.spec_read_timeout_ms() is None,
            c.spec_buffer_size() == 4096usize,
            c.wf(),
    {
        ServerConfig { router, worker_count: 4, read_timeout_ms: None, buffer_size: 4096 }
    }

    /// Bound concurrency by `n` workers.
    pub fn workers(self, n: u32) -> (c: Self)
        requires
            n >= 1,
        ensures
            c.spec_router() == self.spec_router(),
            c.spec_worker_count() == n,
            c.spec_read_timeout_ms() == self.spec_read_timeout_ms(),
            c.spec_buffer_size() == self.spec_buffer_size(),
            self.wf() ==> c.wf(),
    {
        ServerConfig { worker_count: n, ..self }
    }

    /// Set the maximum time a single read may take, in milliseconds.
    pub fn read_timeout(self, ms: u64) -> (c: Self)
        ensures
            c.spec_router() == self.spec_router(),
            c.spec_worker_count() == self.spec_worker_count(),
            c.spec_read_timeout_ms() == Some(ms),
            c.spec_buffer_size() == self.spec_buffer_size(),
            self.wf() ==> c.wf(),
    {
        ServerConfig { read_timeout_ms: Some(ms), ..self }
    }

    /// Set the size of the read buffer; a longer request is truncated.
    pub fn read_buffer(self, n: usize) -> (c: Self)
        requires
            n >= 1,
        ensures
            c.spec_router() == self.spec_router(),
            c.spec_worker_count() == self.spec_worker_count(),
            c.spec_read_timeout_ms() == self.spec_read_timeout_ms(),
            c.spec_buffer_size() == n,
            self.wf() ==> c.wf(),
    {
        ServerConfig { buffer_size: n, ..self }
    }

    /// The route table requests are dispatched against.
    pub fn router(&self) -> (r: &Router<H>)
        ensures
            *r == self.spec_router(),
    {
        &self.router
    }

    /// The fixed number of connections processed concurrently.
    pub fn worker_count(&self) -> (n: u32)
        ensures
            n == self.spec_worker_count(),
    {
        self.worker_count
    }

    /// The per-connection read timeout, in milliseconds, when one is set.
    pub fn read_timeout_ms(&self) -> (t: Option<u64>)
        ensures
            t == self.spec_read_timeout_ms(),
    {
        self.read_timeout_ms
    }

    /// The size of the single fixed read buffer.
    pub fn buffer_size(&self) -> (n: usize)
        ensures
            n == self.spec_buffer_size(),
    {
        self.buffer_size
    }
}

} // verus!
