//! Tests for the request batching, wire decoding, URL resolution and CSV
//! row mapping of the link-resolution client.

use urlfreezer_client::{
    decode_action, first_link, resolve_batch, Client, CsvInRow, CsvOutRow, Error, FetchLinksV2,
    FetchedLinksV2, LinkAction, LinkInfo, LinkMatchV2, LinkToFetch,
};

fn match_entry(link: &str, label: Option<&str>, link_id: &str, action: LinkAction) -> LinkMatchV2 {
    LinkMatchV2 {
        link: link.to_owned(),
        link_label: label.map(|l| l.to_owned()),
        link_id: link_id.to_owned(),
        action,
    }
}

#[test]
fn link_to_fetch_copies_fields() {
    let l = LinkToFetch::new("http://exp.com/bla", Some("nana"));
    assert_eq!(l.link, "http://exp.com/bla");
    assert_eq!(l.label.as_deref(), Some("nana"));

    let bare = LinkToFetch::new("", None);
    assert_eq!(bare.link, "");
    assert_eq!(bare.label, None);
}

#[test]
fn action_names_are_the_enumerated_names() {
    assert_eq!(LinkAction::Redirect.name(), "Redirect");
    assert_eq!(LinkAction::Content.name(), "Content");
}

#[test]
fn action_name_round_trips_through_decode() {
    assert_eq!(decode_action(&LinkAction::Redirect.name()), Ok(LinkAction::Redirect));
    assert_eq!(decode_action(&LinkAction::Content.name()), Ok(LinkAction::Content));
}

#[test]
fn unrecognized_action_is_a_protocol_error() {
    match decode_action("Follow") {
        Err(Error::ProtocolDecode(text)) => assert_eq!(text, "Follow"),
        other => panic!("expected a protocol error, got {:?}", other),
    }
    assert!(matches!(decode_action(""), Err(Error::ProtocolDecode(_))));
    assert!(matches!(decode_action("redirect"), Err(Error::ProtocolDecode(_))));
}

#[test]
fn batch_request_echoes_links_in_order() {
    let links = [
        LinkToFetch::new("http://a.example/1", Some("first")),
        LinkToFetch::new("http://a.example/2", None),
    ];
    let batch = FetchLinksV2::new("user-7".to_owned(), &links, Some("http://a.example".to_owned()));
    assert_eq!(batch.user, "user-7");
    assert_eq!(batch.page.as_deref(), Some("http://a.example"));
    assert_eq!(batch.links.len(), 2);
    assert_eq!(batch.links[0].link, "http://a.example/1");
    assert_eq!(batch.links[0].link_label.as_deref(), Some("first"));
    assert_eq!(batch.links[1].link, "http://a.example/2");
    assert_eq!(batch.links[1].link_label, None);
}

#[test]
fn request_serializes_to_the_json_envelope() {
    let links = [LinkToFetch::new("http://exp.com/bla", Some("nana"))];
    let batch = FetchLinksV2::new(
        "nothing".to_owned(),
        &links,
        Some("http://local.com/page.html".to_owned()),
    );
    let body = String::from_utf8(batch.to_json()).unwrap();
    assert_eq!(
        body,
        "{\"user\":\"nothing\",\"page\":\"http://local.com/page.html\",\"links\":[{\"link\":\"http://exp.com/bla\",\"link_label\":\"nana\"}]}"
    );
}

#[test]
fn request_serialization_escapes_and_separates() {
    let links = [
        LinkToFetch::new("http://exp.com/a\"b\\c", None),
        LinkToFetch::new("http://exp.com/d", Some("tab\there")),
    ];
    let batch = FetchLinksV2::new("u".to_owned(), &links, None);
    let body = String::from_utf8(batch.to_json()).unwrap();
    let expected = String::from("{\"user\":\"u\",\"page\":null,\"links\":[{\"link\":\"http://exp.com/a\\\"b\\\\c\",\"link_label\":null},{\"link\":\"http://exp.com/d\",\"link_label\":\"tab\\u0009here\"}]}");
    assert_eq!(body, expected);
}

#[test]
fn connect_host_precomputes_the_endpoint() {
    let client = Client::connect_host("https://example.com", "nothing").unwrap();
    assert_eq!(client.host, "https://example.com");
    assert_eq!(client.user, "nothing");
    assert_eq!(client.api_endpoint, "https://example.com/api/fetch_links_v2");
}

#[test]
fn malformed_host_is_rejected_at_construction() {
    assert!(matches!(Client::connect_host("not a url", "nothing"), Err(Error::InvalidHost)));
}

#[test]
fn client_request_carries_the_client_user() {
    let client = Client::connect_host("https://example.com", "acct").unwrap();
    let links = [LinkToFetch::new("http://exp.com/bla", Some("nana"))];
    let batch = client.request(&links, None);
    assert_eq!(batch.user, "acct");
    assert_eq!(batch.page, None);
    assert_eq!(batch.links.len(), 1);
    assert_eq!(batch.links[0].link, "http://exp.com/bla");
}

#[test]
fn link_id_resolves_against_the_base() {
    let m = match_entry("http://exp.com/bla", None, "ASXDAERERE", LinkAction::Content);
    let info = LinkInfo::new("https://example.com", None, &m).unwrap();
    assert_eq!(info.link, "https://example.com/ASXDAERERE");
}

#[test]
fn batch_resolution_is_one_to_one_and_in_order() {
    let value = FetchedLinksV2 {
        links: vec![
            match_entry("http://exp.com/a", Some("la"), "IDA", LinkAction::Redirect),
            match_entry("http://exp.com/b", None, "IDB", LinkAction::Content),
            match_entry("http://exp.com/c", Some("lc"), "IDC", LinkAction::Redirect),
        ],
        base: "https://example.com".to_owned(),
    };
    let out = resolve_batch(&value, Some("http://local.com/page.html")).unwrap();
    assert_eq!(out.len(), 3);
    assert_eq!(out[0].original, "http://exp.com/a");
    assert_eq!(out[0].label.as_deref(), Some("la"));
    assert_eq!(out[0].link, "https://example.com/IDA");
    assert_eq!(out[0].action, LinkAction::Redirect);
    assert_eq!(out[1].original, "http://exp.com/b");
    assert_eq!(out[1].label, None);
    assert_eq!(out[1].link, "https://example.com/IDB");
    assert_eq!(out[1].action, LinkAction::Content);
    assert_eq!(out[2].original, "http://exp.com/c");
    assert_eq!(out[2].link, "https://example.com/IDC");
    for info in &out {
        assert_eq!(info.page.as_deref(), Some("http://local.com/page.html"));
    }
}

#[test]
fn empty_response_list_is_none_not_an_error() {
    let value = FetchedLinksV2 { links: vec![], base: "https://example.com".to_owned() };
    let out = resolve_batch(&value, None).unwrap();
    assert_eq!(out.len(), 0);
    assert!(first_link(out).is_none());
}

#[test]
fn first_link_takes_the_first_entry() {
    let value = FetchedLinksV2 {
        links: vec![
            match_entry("http://exp.com/a", None, "IDA", LinkAction::Redirect),
            match_entry("http://exp.com/b", None, "IDB", LinkAction::Content),
        ],
        base: "https://example.com".to_owned(),
    };
    let out = resolve_batch(&value, None).unwrap();
    let first = first_link(out).unwrap();
    assert_eq!(first.original, "http://exp.com/a");
    assert_eq!(first.link, "https://example.com/IDA");
}

#[test]
fn invalid_base_fails_with_url_parse_error() {
    let value = FetchedLinksV2 {
        links: vec![match_entry("http://exp.com/bla", None, "X", LinkAction::Redirect)],
        base: "not a url".to_owned(),
    };
    assert!(matches!(resolve_batch(&value, None), Err(Error::UrlParse)));

    let empty = FetchedLinksV2 { links: vec![], base: "not a url".to_owned() };
    assert!(matches!(resolve_batch(&empty, None), Err(Error::UrlParse)));
}

#[test]
fn unjoinable_link_id_fails_with_url_parse_error() {
    let value = FetchedLinksV2 {
        links: vec![match_entry("http://exp.com/bla", None, "anything", LinkAction::Redirect)],
        base: "mailto:someone@example.com".to_owned(),
    };
    assert!(matches!(resolve_batch(&value, None), Err(Error::UrlParse)));
}

#[test]
fn identical_input_gives_identical_output() {
    let make = || FetchedLinksV2 {
        links: vec![
            match_entry("http://exp.com/bla", Some("nana"), "ASXDAERERE", LinkAction::Redirect),
            match_entry("http://exp.com/foo", None, "QQQQ", LinkAction::Content),
        ],
        base: "https://example.com".to_owned(),
    };
    let out1 = resolve_batch(&make(), Some("http://local.com/page.html")).unwrap();
    let out2 = resolve_batch(&make(), Some("http://local.com/page.html")).unwrap();
    assert_eq!(out1.len(), out2.len());
    for (a, b) in out1.iter().zip(out2.iter()) {
        assert_eq!(a.original, b.original);
        assert_eq!(a.page, b.page);
        assert_eq!(a.label, b.label);
        assert_eq!(a.link, b.link);
        assert_eq!(a.action, b.action);
    }
}

#[test]
fn fetch_link_mapping_matches_the_service_echo() {
    // The whole single-link flow around one round trip: build the request,
    // then map the service's echo back to the resolved entry.
    let client = Client::connect_host("https://example.com", "nothing").unwrap();
    let links = [LinkToFetch::new("http://exp.com/bla", Some("nana"))];
    let batch = client.request(&links, Some("http://local.com/page.html"));
    assert_eq!(batch.links.len(), 1);

    let value = FetchedLinksV2 {
        links: vec![match_entry(
            "http://exp.com/bla",
            Some("nana"),
            "ASXDAERERE",
            LinkAction::Redirect,
        )],
        base: "https://example.com".to_owned(),
    };
    let out = resolve_batch(&value, Some("http://local.com/page.html")).unwrap();
    let data = first_link(out).expect("there is some info");
    assert_eq!(&data.original, "http://exp.com/bla");
    assert_eq!(data.page.as_deref(), Some("http://local.com/page.html"));
    assert_eq!(data.label.as_deref(), Some("nana"));
    assert_eq!(data.link, "https://example.com/ASXDAERERE");
    assert_eq!(data.action, LinkAction::Redirect);
}

#[test]
fn csv_row_round_trip() {
    let row = CsvInRow {
        page: "http://local.com/page.html".to_owned(),
        link: "http://exp.com/bla".to_owned(),
        label: "nana".to_owned(),
    };
    let (to_fetch, page) = row.to_request();
    assert_eq!(to_fetch.link, "http://exp.com/bla");
    assert_eq!(to_fetch.label.as_deref(), Some("nana"));
    assert_eq!(page.as_deref(), Some("http://local.com/page.html"));

    let m = match_entry("http://exp.com/bla", Some("nana"), "ASXDAERERE", LinkAction::Redirect);
    let info = LinkInfo::new("https://example.com", page.as_deref(), &m).unwrap();
    let out = CsvOutRow::from(row, info);
    assert_eq!(out.page, "http://local.com/page.html");
    assert_eq!(out.original, "http://exp.com/bla");
    assert_eq!(out.label, "nana");
    assert_eq!(out.link, "https://example.com/ASXDAERERE");
    assert_eq!(out.action, "Redirect");
}

#[test]
fn empty_csv_fields_mean_absent() {
    let row = CsvInRow {
        page: "".to_owned(),
        link: "http://exp.com/bla".to_owned(),
        label: "".to_owned(),
    };
    let (to_fetch, page) = row.to_request();
    assert_eq!(to_fetch.link, "http://exp.com/bla");
    assert_eq!(to_fetch.label, None);
    assert_eq!(page, None);
}
