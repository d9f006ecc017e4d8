//! Wire codec: the outgoing request envelope, the incoming response
//! envelope, decoding of wire action names, and resolution of each returned
//! relative link id against the response's base URL.

use vstd::prelude::*;

use crate::entities::{
    action_name, opt_str_view, opt_string_view, LinkAction, LinkInfo, LinkInfoView, LinkToFetch,
    LinkToFetchView,
};
use crate::errors::Error;
use crate::urls::{join_of, join_ok, join_url, parse_ok, url_ok};

verus! {

/// The wire form of one link in the outgoing request.
pub struct FetchLinkData {
    pub link: String,
    pub link_label: Option<String>,
}

/// Abstract value of a `FetchLinkData`.
pub struct FetchLinkDataView {
    pub link: Seq<char>,
    pub link_label: Option<Seq<char>>,
}

impl View for FetchLinkData {
    type V = FetchLinkDataView;

    open spec fn view(&self) -> FetchLinkDataView {
        FetchLinkDataView { link: self.link@, link_label: opt_string_view(self.link_label) }
    }
}

impl DeepView for FetchLinkData {
    type V = FetchLinkDataView;

    open spec fn deep_view(&self) -> FetchLinkDataView {
        self.view()
    }
}

/// The wire form of a request entry: a lossless field copy.
pub open spec fn wire_of(l: LinkToFetchView) -> FetchLinkDataView {
    FetchLinkDataView { link: l.link, link_label: l.label }
}

/// The request entry a wire entry came from.
pub open spec fn unwired(w: FetchLinkDataView) -> LinkToFetchView {
    LinkToFetchView { link: w.link, label: w.link_label }
}

/// The wire form of a request entry loses nothing: the entry can be read
/// back from it unchanged.
pub proof fn lemma_wire_lossless(l: LinkToFetchView)
    ensures
        unwired(wire_of(l)) == l,
{
}

impl FetchLinkData {
    /// Converts a request entry to its wire form: a pure, lossless field
    /// copy.
    pub fn from(l: &LinkToFetch) -> (r: FetchLinkData)
        ensures
            r@ == wire_of(l@),
    {
        FetchLinkData {
            link: l.link.clone(),
            link_label: clone_opt_string(&l.label),
        }
    }
}

/// The outgoing request envelope: the account identifier, the optional page
/// context shared by the whole batch, and the links to resolve, in order.
pub struct FetchLinksV2 {
    pub user: String,
    pub page: Option<String>,
    pub links: Vec<FetchLinkData>,
}

/// Abstract value of a `FetchLinksV2`.
pub struct FetchLinksV2View {
    pub user: Seq<char>,
    pub page: Option<Seq<char>>,
    pub links: Seq<FetchLinkDataView>,
}

impl View for FetchLinksV2 {
    type V = FetchLinksV2View;

    open spec fn view(&self) -> FetchLinksV2View {
        FetchLinksV2View {
            user: self.user@,
            page: opt_string_view(self.page),
            links: self.links.deep_view(),
        }
    }
}

impl FetchLinksV2 {
    /// Builds the request envelope for one batch: every given link, in the
    /// given order, each in its wire form. Pure construction, no validation.
    pub fn new(user: String, links: &[LinkToFetch], page: Option<String>) -> (r: FetchLinksV2)
        ensures
            r@.user == user@,
            r@.page == opt_string_view(page),
            r@.links.len() == links@.len(),
            forall|i: int| 0 <= i < links@.len() ==> r@.links[i] == wire_of(#[trigger] links@[i]@),
    {
        let mut wire: Vec<FetchLinkData> = Vec::new();
        let mut i: usize = 0;
        while i < links.len()
            invariant
                i <= links@.len(),
                wire.deep_view().len() == i as int,
                forall|j: int| 0 <= j < i ==> wire.deep_view()[j] == wire_of(#[trigger] links@[j]@),
            decreases links@.len() - i,
        {
            wire.push(FetchLinkData::from(&links[i]));
            i = i + 1;
        }
        FetchLinksV2 { user, page, links: wire }
    }
}

/// One resolved entry of the response: the echoed link and label, the
/// relative identifier to resolve against the response base, and the action.
pub struct LinkMatchV2 {
    pub link: String,
    pub link_label: Option<String>,
    pub link_id: String,
    pub action: LinkAction,
}

/// Abstract value of a `LinkMatchV2`.
pub struct LinkMatchV2View {
    pub link: Seq<char>,
    pub link_label: Option<Seq<char>>,
    pub link_id: Seq<char>,
    pub action: LinkAction,
}

impl View for LinkMatchV2 {
    type V = LinkMatchV2View;

    open spec fn view(&self) -> LinkMatchV2View {
        LinkMatchV2View {
            link: self.link@,
            link_label: opt_string_view(self.link_label),
            link_id: self.link_id@,
            action: self.action,
        }
    }
}

impl DeepView for LinkMatchV2 {
    type V = LinkMatchV2View;

    open spec fn deep_view(&self) -> LinkMatchV2View {
        self.view()
    }
}

/// The incoming response envelope: the resolved entries, in order, and the
/// absolute base URL against which every `link_id` must be resolved.
pub struct FetchedLinksV2 {
    pub links: Vec<LinkMatchV2>,
    pub base: String,
}

/// Abstract value of a `FetchedLinksV2`.
pub struct FetchedLinksV2View {
    pub links: Seq<LinkMatchV2View>,
    pub base: Seq<char>,
}

impl View for FetchedLinksV2 {
    type V = FetchedLinksV2View;

    open spec fn view(&self) -> FetchedLinksV2View {
        FetchedLinksV2View { links: self.links.deep_view(), base: self.base@ }
    }
}

/// The action denoted by a wire action name, if any: the protocol admits
/// exactly the two enumerated names.
pub open spec fn decoded_action(s: Seq<char>) -> Option<LinkAction> {
    if s == action_name(LinkAction::Redirect) {
        Some(LinkAction::Redirect)
    } else if s == action_name(LinkAction::Content) {
        Some(LinkAction::Content)
    } else {
        None
    }
}

/// Decodes a wire action name; an unrecognized value is a protocol error.
pub fn decode_action(s: &str) -> (r: Result<LinkAction, Error>)
    ensures
        r is Ok <==> decoded_action(s@) is Some,
        (r matches Ok(a) ==> decoded_action(s@) == Some(a)),
        (r matches Err(e) ==> e is ProtocolDecode),
{
    if str_eq(s, "Redirect") {
        Ok(LinkAction::Redirect)
    } else if str_eq(s, "Content") {
        Ok(LinkAction::Content)
    } else {
        Err(Error::ProtocolDecode(s.to_owned()))
    }
}

/// Decoding the rendered name of an action gives back that action.
pub proof fn lemma_action_name_round_trip(a: LinkAction)
    ensures
        decoded_action(action_name(a)) == Some(a),
{
    reveal_strlit("Redirect");
    reveal_strlit("Content");
    assert(action_name(LinkAction::Redirect).len() == 8);
    assert(action_name(LinkAction::Content).len() == 7);
    match a {
        LinkAction::Redirect => {
            assert(decoded_action(action_name(a)) == Some(a));
        },
        LinkAction::Content => {
            assert(action_name(LinkAction::Content) != action_name(LinkAction::Redirect));
            assert(decoded_action(action_name(a)) == Some(a));
        },
    }
}

/// The resolved output entry owed for one response entry: every field is
/// determined by the response base, the caller's page context, and the
/// entry itself.
pub open spec fn resolved_match(
    base: Seq<char>,
    page: Option<Seq<char>>,
    m: LinkMatchV2View,
) -> LinkInfoView {
    LinkInfoView {
        original: m.link,
        page: page,
        label: m.link_label,
        link: join_of(base, m.link_id),
        action: m.action,
    }
}

impl LinkInfo {
    /// Resolves one response entry against the response base: the only
    /// place URL-joining lives. Fails when `link_id` cannot be joined
    /// against `base`.
    pub fn new(base: &str, page: Option<&str>, m: &LinkMatchV2) -> (r: Result<LinkInfo, Error>)
        ensures
            r is Ok <==> join_ok(base@, m.link_id@),
            (r matches Ok(info) ==> info@ == resolved_match(base@, opt_str_view(page), m@)),
            (r matches Err(e) ==> e is UrlParse),
    {
        match join_url(base, m.link_id.as_str()) {
            Some(resolved) => Ok(
                LinkInfo {
                    original: m.link.clone(),
                    page: to_owned_opt(page),
                    label: clone_opt_string(&m.link_label),
                    link: resolved,
                    action: m.action,
                },
            ),
            None => Err(Error::UrlParse),
        }
    }
}

/// The whole batch result owed for a response: one resolved entry per
/// response entry, by position.
pub open spec fn resolved_batch(
    value: FetchedLinksV2View,
    page: Option<Seq<char>>,
    out: Seq<LinkInfoView>,
) -> bool {
    &&& out.len() == value.links.len()
    &&& forall|i: int|
        0 <= i < out.len() ==> out[i] == resolved_match(value.base, page, #[trigger] value.links[i])
}

/// Maps a decoded response to the caller's output entries: fails when the
/// base is not a valid absolute URL or some link id cannot be joined
/// against it; otherwise returns one entry per response entry, in order.
pub fn resolve_batch(value: &FetchedLinksV2, page: Option<&str>) -> (r: Result<
    Vec<LinkInfo>,
    Error,
>)
    ensures
        r is Ok <==> (url_ok(value.base@) && (forall|i: int|
            0 <= i < value.links@.len() ==> join_ok(value.base@, (#[trigger] value.links@[i]).link_id@))),
        (r matches Ok(out) ==> resolved_batch(value@, opt_str_view(page), out.deep_view())),
        (r matches Err(e) ==> e is UrlParse),
{
    if !parse_ok(value.base.as_str()) {
        return Err(Error::UrlParse);
    }
    let mut out: Vec<LinkInfo> = Vec::new();
    let mut i: usize = 0;
    while i < value.links.len()
        invariant
            i <= value.links@.len(),
            url_ok(value.base@),
            out.deep_view().len() == i as int,
            forall|j: int|
                0 <= j < i ==> join_ok(value.base@, (#[trigger] value.links@[j]).link_id@),
            forall|j: int|
                0 <= j < i ==> out.deep_view()[j] == resolved_match(
                    value.base@,
                    opt_str_view(page),
                    #[trigger] value.links@[j]@,
                ),
        decreases value.links@.len() - i,
    {
        match LinkInfo::new(value.base.as_str(), page, &value.links[i]) {
            Ok(info) => {
                out.push(info);
            },
            Err(e) => {
                return Err(e);
            },
        }
        i = i + 1;
    }
    Ok(out)
}

/// Resolution is deterministic: two batch results owed for the same
/// response and page context are equal, element by element.
pub proof fn lemma_resolution_deterministic(
    value: FetchedLinksV2View,
    page: Option<Seq<char>>,
    out1: Seq<LinkInfoView>,
    out2: Seq<LinkInfoView>,
)
    requires
        resolved_batch(value, page, out1),
        resolved_batch(value, page, out2),
    ensures
        out1 =~= out2,
{
    assert forall|i: int| 0 <= i < out1.len() implies out1[i] == out2[i] by {
        assert(out1[i] == resolved_match(value.base, page, value.links[i]));
        assert(out2[i] == resolved_match(value.base, page, value.links[i]));
    }
}

/// Clones an optional owned string, keeping its abstract value.
pub(crate) fn clone_opt_string(o: &Option<String>) -> (r: Option<String>)
    ensures
        opt_string_view(r) == opt_string_view(*o),
{
    match o {
        Some(s) => Some(s.clone()),
        None => None,
    }
}

/// Turns an optional borrowed string into an owned one, keeping its
/// abstract value.
pub(crate) fn to_owned_opt(o: Option<&str>) -> (r: Option<String>)
    ensures
        opt_string_view(r) == opt_str_view(o),
{
    match o {
        Some(s) => Some(s.to_owned()),
        None => None,
    }
}

/// Compares two string slices by their character sequences.
fn str_eq(a: &str, b: &str) -> (r: bool)
    ensures
        r == (a@ == b@),
{
    let x: String = a.to_owned();
    let y: String = b.to_owned();
    x == y
}

} // verus!
