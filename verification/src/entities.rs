//! The request/response vocabulary: what a caller submits and what it gets
//! back after a successful resolution round trip.

use vstd::prelude::*;

verus! {

/// How a consumer should treat a resolved link: follow it as an HTTP
/// redirect target, or fetch it directly as page content.
#[derive(Clone, Copy, Debug, PartialEq, Eq, Structural)]
pub enum LinkAction {
    Redirect,
    Content,
}

/// The enumerated name of an action, as it appears on the wire and in
/// CSV output.
pub open spec fn action_name(a: LinkAction) -> Seq<char> {
    match a {
        LinkAction::Redirect => "Redirect"@,
        LinkAction::Content => "Content"@,
    }
}

impl LinkAction {
    /// Renders the action as its enumerated name, exactly `"Redirect"` or
    /// `"Content"`.
    pub fn name(&self) -> (r: String)
        ensures
            r@ == action_name(*self),
    {
        match self {
            LinkAction::Redirect => "Redirect".to_owned(),
            LinkAction::Content => "Content".to_owned(),
        }
    }
}

/// One link a caller wants resolved: the original URL and an optional
/// free-text label that the service echoes back unchanged.
pub struct LinkToFetch {
    pub link: String,
    pub label: Option<String>,
}

/// Abstract value of a `LinkToFetch`.
pub struct LinkToFetchView {
    pub link: Seq<char>,
    pub label: Option<Seq<char>>,
}

/// Abstract value of an optional owned string.
pub open spec fn opt_string_view(o: Option<String>) -> Option<Seq<char>> {
    match o {
        Some(s) => Some(s@),
        None => None,
    }
}

/// Abstract value of an optional borrowed string.
pub open spec fn opt_str_view(o: Option<&str>) -> Option<Seq<char>> {
    match o {
        Some(s) => Some(s@),
        None => None,
    }
}

impl View for LinkToFetch {
    type V = LinkToFetchView;

    open spec fn view(&self) -> LinkToFetchView {
        LinkToFetchView { link: self.link@, label: opt_string_view(self.label) }
    }
}

impl LinkToFetch {
    /// Builds a request entry. Nothing is trimmed or validated: an empty
    /// link is forwarded to the service as-is.
    pub fn new(link: &str, label: Option<&str>) -> (r: LinkToFetch)
        ensures
            r@.link == link@,
            r@.label == opt_str_view(label),
    {
        LinkToFetch {
            link: link.to_owned(),
            label: match label {
                Some(l) => Some(l.to_owned()),
                None => None,
            },
        }
    }
}

/// The fully resolved output unit for one submitted link.
pub struct LinkInfo {
    /// The URL exactly as submitted.
    pub original: String,
    /// The page context supplied by the caller; not echoed by the service.
    pub page: Option<String>,
    /// The label echoed by the service.
    pub label: Option<String>,
    /// The resolved absolute URL: the response base joined with the link id.
    pub link: String,
    /// How the resolved link should be used.
    pub action: LinkAction,
}

/// Abstract value of a `LinkInfo`.
pub struct LinkInfoView {
    pub original: Seq<char>,
    pub page: Option<Seq<char>>,
    pub label: Option<Seq<char>>,
    pub link: Seq<char>,
    pub action: LinkAction,
}

impl View for LinkInfo {
    type V = LinkInfoView;

    open spec fn view(&self) -> LinkInfoView {
        LinkInfoView {
            original: self.original@,
            page: opt_string_view(self.page),
            label: opt_string_view(self.label),
            link: self.link@,
            action: self.action,
        }
    }
}

impl DeepView for LinkInfo {
    type V = LinkInfoView;

    open spec fn deep_view(&self) -> LinkInfoView {
        self.view()
    }
}

} // verus!
