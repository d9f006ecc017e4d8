//! Resolution client state: the validated service address, the account
//! identifier, and the pre-computed resolution endpoint. The network round
//! trip itself is the transport's concern and happens outside this crate;
//! the compute halves of a call — building the batch and deciding what a
//! single-link call returns — live here.

use vstd::prelude::*;

use crate::codec::{to_owned_opt, wire_of, FetchLinksV2};
use crate::entities::{opt_str_view, LinkInfo, LinkToFetch};
use crate::errors::Error;
use crate::urls::{join_of, join_ok, join_url};

verus! {

/// A client bound to one service address and one account identifier.
/// Immutable after construction; the resolution endpoint is computed once,
/// at construction time.
pub struct Client {
    pub host: String,
    pub api_endpoint: String,
    pub user: String,
}

impl Client {
    /// Builds a client for the well-known production address.
    pub fn connect(user_id: &str) -> (r: Result<Client, Error>)
        ensures
            r is Ok <==> join_ok("https://urlfreezer.com"@, "/api/fetch_links_v2"@),
            (r matches Ok(c) ==> {
                &&& c.host@ == "https://urlfreezer.com"@
                &&& c.user@ == user_id@
                &&& c.api_endpoint@ == join_of("https://urlfreezer.com"@, "/api/fetch_links_v2"@)
            }),
            (r matches Err(e) ==> e is InvalidHost),
    {
        Self::connect_host("https://urlfreezer.com", user_id)
    }

    /// Validates `host` as an absolute URL and joins it once with the fixed
    /// resolution path; a host that cannot be parsed or joined is rejected
    /// before any network call could be attempted.
    pub fn connect_host(host: &str, user_id: &str) -> (r: Result<Client, Error>)
        ensures
            r is Ok <==> join_ok(host@, "/api/fetch_links_v2"@),
            (r matches Ok(c) ==> {
                &&& c.host@ == host@
                &&& c.user@ == user_id@
                &&& c.api_endpoint@ == join_of(host@, "/api/fetch_links_v2"@)
            }),
            (r matches Err(e) ==> e is InvalidHost),
    {
        match join_url(host, "/api/fetch_links_v2") {
            Some(endpoint) => Ok(
                Client { host: host.to_owned(), api_endpoint: endpoint, user: user_id.to_owned() },
            ),
            None => Err(Error::InvalidHost),
        }
    }

    /// Builds the one request batch of a resolution call: all given links
    /// at once, under this client's account identifier, so that any number
    /// of links costs a single round trip.
    pub fn request(&self, links: &[LinkToFetch], page: Option<&str>) -> (r: FetchLinksV2)
        ensures
            r@.user == self.user@,
            r@.page == opt_str_view(page),
            r@.links.len() == links@.len(),
            forall|i: int| 0 <= i < links@.len() ==> r@.links[i] == wire_of(#[trigger] links@[i]@),
    {
        FetchLinksV2::new(self.user.clone(), links, to_owned_opt(page))
    }
}

/// The decision of a single-link call: the first entry of the batch result,
/// or `None` — not an error — when the service returned an empty list.
pub fn first_link(links: Vec<LinkInfo>) -> (r: Option<LinkInfo>)
    ensures
        r is Some <==> links@.len() > 0,
        (r matches Some(info) ==> info@ == links@[0]@),
{
    let mut links = links;
    if links.len() == 0 {
        None
    } else {
        Some(links.remove(0))
    }
}

} // verus!
