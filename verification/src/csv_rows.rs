//! Row mapping of the CSV batch adapter: how one input row becomes a
//! single-link resolution request, and how a resolved entry becomes one
//! output row. The surrounding streaming loop and the CSV encoding itself
//! are I/O plumbing and live outside this crate.

use vstd::prelude::*;

use crate::entities::{action_name, opt_string_view, LinkInfo, LinkToFetch};

verus! {

/// One input row: `page`, `link`, `label`, where an empty string encodes
/// "absent".
pub struct CsvInRow {
    pub page: String,
    pub link: String,
    pub label: String,
}

/// Abstract value of a `CsvInRow`.
pub struct CsvInRowView {
    pub page: Seq<char>,
    pub link: Seq<char>,
    pub label: Seq<char>,
}

impl View for CsvInRow {
    type V = CsvInRowView;

    open spec fn view(&self) -> CsvInRowView {
        CsvInRowView { page: self.page@, link: self.link@, label: self.label@ }
    }
}

/// One output row: the input's page and label verbatim, the input link as
/// `original`, the resolved absolute URL, and the action's enumerated name.
pub struct CsvOutRow {
    pub page: String,
    pub original: String,
    pub label: String,
    pub link: String,
    pub action: String,
}

/// Abstract value of a `CsvOutRow`.
pub struct CsvOutRowView {
    pub page: Seq<char>,
    pub original: Seq<char>,
    pub label: Seq<char>,
    pub link: Seq<char>,
    pub action: Seq<char>,
}

impl View for CsvOutRow {
    type V = CsvOutRowView;

    open spec fn view(&self) -> CsvOutRowView {
        CsvOutRowView {
            page: self.page@,
            original: self.original@,
            label: self.label@,
            link: self.link@,
            action: self.action@,
        }
    }
}

/// The optional value encoded by a row field: an empty string means absent.
pub open spec fn field_opt(s: Seq<char>) -> Option<Seq<char>> {
    if s.len() == 0 {
        None
    } else {
        Some(s)
    }
}

impl CsvInRow {
    /// Maps this row to its single-link resolution request: the link to
    /// fetch with the row's label, and the row's page context, empty
    /// strings standing for "absent".
    pub fn to_request(&self) -> (r: (LinkToFetch, Option<String>))
        ensures
            r.0@.link == self.link@,
            r.0@.label == field_opt(self.label@),
            opt_string_view(r.1) == field_opt(self.page@),
    {
        let label: Option<&str> = if self.label.as_str().is_empty() {
            None
        } else {
            Some(self.label.as_str())
        };
        let page: Option<String> = if self.page.as_str().is_empty() {
            None
        } else {
            Some(self.page.clone())
        };
        (LinkToFetch::new(self.link.as_str(), label), page)
    }
}

impl CsvOutRow {
    /// Builds the output row for a resolved input row: `page` and `label`
    /// come from the input verbatim, `original` is the input link, `link`
    /// is the resolved absolute URL, and `action` is the action's
    /// enumerated name.
    pub fn from(row: CsvInRow, info: LinkInfo) -> (r: CsvOutRow)
        ensures
            r@.page == row@.page,
            r@.original == row@.link,
            r@.label == row@.label,
            r@.link == info@.link,
            r@.action == action_name(info@.action),
    {
        CsvOutRow {
            page: row.page,
            original: row.link,
            label: row.label,
            link: info.link,
            action: info.action.name(),
        }
    }
}

} // verus!
