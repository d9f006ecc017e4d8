//! Trusted boundary to the `url` crate: syntactic validation of absolute
//! URLs and resolution of relative references against a base, with standard
//! URL-join semantics.

use vstd::prelude::*;

verus! {

/// Whether the `url` crate parses `s` as an absolute URL.
pub uninterp spec fn url_ok(s: Seq<char>) -> bool;

/// Whether `id` resolves as a relative reference against the absolute URL
/// parsed from `base`.
pub uninterp spec fn join_ok(base: Seq<char>, id: Seq<char>) -> bool;

/// The serialization of the URL obtained by resolving `id` as a relative
/// reference against the absolute URL parsed from `base`.
pub uninterp spec fn join_of(base: Seq<char>, id: Seq<char>) -> Seq<char>;

/// Relies on url::Url::parse: whether it succeeds depends on the input
/// string alone.
#[verifier::external_body]
pub(crate) fn parse_ok(s: &str) -> (r: bool)
    ensures
        r == url_ok(s@),
{
    url::Url::parse(s).is_ok()
}

/// Relies on url::Url::parse, url::Url::join and url::Url's serialization:
/// each is a function of the input strings alone, and `join` resolves its
/// argument as a relative reference against the parsed base.
#[verifier::external_body]
pub(crate) fn join_url(base: &str, id: &str) -> (r: Option<String>)
    ensures
        r is Some <==> join_ok(base@, id@),
        (r matches Some(joined) ==> joined@ == join_of(base@, id@)),
{
    match url::Url::parse(base) {
        Ok(b) => match b.join(id) {
            Ok(j) => Some(j.to_string()),
            Err(_) => None,
        },
        Err(_) => None,
    }
}

} // verus!
