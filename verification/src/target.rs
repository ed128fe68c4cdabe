//! Decoding a request target into its path and query pairs, through
//! url's general-purpose parser.

use vstd::prelude::*;
use vstd::utf8::{decode_utf8, valid_utf8};

use crate::query::{distinct_keys, query_of_pairs, Query};

verus! {

/// Whether url's parser accepts the fixed placeholder base
/// `http://localhost` followed by this target string.  Named result of
/// `url::Url::parse`: acceptance depends on the target alone.
pub uninterp spec fn url_parses(target: Seq<char>) -> bool;

/// The path component that url's parser extracts from the placeholder
/// base followed by this target, as a percent-encoded string.  Named
/// result of `url::Url::path`: it depends on the target alone.
pub uninterp spec fn url_path_of(target: Seq<char>) -> Seq<char>;

/// The query pairs that url's parser decodes from the placeholder base
/// followed by this target, percent-escapes and `+`-as-space resolved,
/// in encounter order.  Named result of `url::Url::query_pairs`: it
/// depends on the target alone.
pub uninterp spec fn url_query_pairs_of(target: Seq<char>) -> Seq<(Seq<char>, Seq<char>)>;

/// Relies on `core::str::from_utf8`: it succeeds exactly on valid
/// UTF-8, and the string it returns is the decoding of those bytes.
#[verifier::external_body]
pub(crate) fn bytes_to_str(bytes: &[u8]) -> (r: Option<&str>)
    ensures
        r is Some <==> valid_utf8(bytes@),
        r matches Some(s) ==> s@ == decode_utf8(bytes@),
{
    core::str::from_utf8(bytes).ok()
}

/// Relies on `url::Url::parse` applied to `http://localhost` followed
/// by the target, and on `url::Url::path` and `url::Url::query_pairs`
/// of the parsed value: whether the URL parses, which path it carries,
/// and which decoded query pairs, are each functions of the target
/// string alone.
#[verifier::external_body]
fn split_target(target: &str) -> (r: Option<(String, Vec<(String, String)>)>)
    ensures
        r is Some <==> url_parses(target@),
        r matches Some(pq) ==> pq.0@ == url_path_of(target@) && pq.1.deep_view()
            == url_query_pairs_of(target@),
{
    let full = format!("http://localhost{}", target);
    match url::Url::parse(&full) {
        Ok(u) => {
            let path = u.path().to_string();
            let pairs = u.query_pairs().map(|(k, v)| (k.into_owned(), v.into_owned())).collect();
            Some((path, pairs))
        },
        Err(_) => None,
    }
}

/// Split a request target into its path and its decoded query mapping,
/// by way of url's general-purpose parser under a placeholder scheme
/// and host that callers never observe.  A malformed target yields
/// `None` rather than a crash; the caller fails the single connection.
pub fn decode_target(target: &str) -> (r: Option<(String, Query)>)
    ensures
        r is Some <==> url_parses(target@),
        r matches Some(pq) ==> pq.0@ == url_path_of(target@) && pq.1@ == query_of_pairs(
            url_query_pairs_of(target@),
        ) && distinct_keys(pq.1@),
{
    match split_target(target) {
        Some((path, pairs)) => Some((path, Query::from_pairs(pairs))),
        None => None,
    }
}

} // verus!
