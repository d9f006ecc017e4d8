//! Client-side logic for a remote link-freezing service: request batching,
//! response-to-entity mapping with relative-URL resolution, and the row
//! mapping of a CSV-driven batch adapter.
//!
//! The network transport itself (HTTP, blocking or suspending) lives outside
//! this crate; everything here works on plain values and is verified.

mod client;
mod codec;
mod csv_rows;
mod entities;
mod errors;
mod json;
mod urls;

pub use client::{first_link, Client};
pub use codec::{
    decode_action, decoded_action, lemma_action_name_round_trip, lemma_resolution_deterministic,
    lemma_wire_lossless, resolve_batch, resolved_batch, resolved_match, unwired, wire_of,
    FetchLinkData, FetchLinkDataView, FetchLinksV2, FetchLinksV2View, FetchedLinksV2,
    FetchedLinksV2View, LinkMatchV2, LinkMatchV2View,
};
pub use csv_rows::{field_opt, CsvInRow, CsvInRowView, CsvOutRow, CsvOutRowView};
pub use entities::{
    action_name, opt_str_view, opt_string_view, LinkAction, LinkInfo, LinkInfoView, LinkToFetch,
    LinkToFetchView,
};
pub use errors::Error;
pub use json::{
    escape_byte, hex_digit, json_escaped, json_link, json_links, json_opt_string, json_request,
    json_string,
};
pub use urls::{join_of, join_ok, url_ok};
