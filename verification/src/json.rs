//! Serialization of the outgoing request envelope to its JSON wire form,
//! specified byte by byte: string fields are escaped as JSON strings over
//! their UTF-8 encodings, an absent optional field is `null`, and the links
//! appear in request order.

use vstd::prelude::*;

use vstd::string::StringSliceAdditionalSpecFns;
use vstd::utf8::encode_utf8;

use crate::codec::{FetchLinkData, FetchLinkDataView, FetchLinksV2, FetchLinksV2View};

verus! {

/// The lower-case hexadecimal digit for a value below sixteen.
pub open spec fn hex_digit(n: u8) -> u8 {
    if n < 10 {
        (0x30 + n) as u8
    } else {
        (0x57 + n) as u8
    }
}

/// How one byte of a string appears inside a JSON string literal: quote and
/// backslash are escaped, a control byte becomes a universal escape, and
/// every other byte (including every UTF-8 continuation byte) stands as is.
pub open spec fn escape_byte(b: u8) -> Seq<u8> {
    if b == 0x22 {
        seq![0x5cu8, 0x22u8]
    } else if b == 0x5c {
        seq![0x5cu8, 0x5cu8]
    } else if b < 0x20 {
        seq![0x5cu8, 0x75u8, 0x30u8, 0x30u8, hex_digit((b / 16) as u8), hex_digit((b % 16) as u8)]
    } else {
        seq![b]
    }
}

/// A byte sequence escaped for the inside of a JSON string literal.
pub open spec fn json_escaped(s: Seq<u8>) -> Seq<u8>
    decreases s.len(),
{
    if s.len() == 0 {
        Seq::empty()
    } else {
        json_escaped(s.drop_last()) + escape_byte(s.last())
    }
}

/// A character sequence as a quoted JSON string literal over its UTF-8
/// encoding.
pub open spec fn json_string(s: Seq<char>) -> Seq<u8> {
    seq![0x22u8] + json_escaped(encode_utf8(s)) + seq![0x22u8]
}

/// An optional string field: a JSON string, or `null` when absent.
pub open spec fn json_opt_string(o: Option<Seq<char>>) -> Seq<u8> {
    match o {
        Some(s) => json_string(s),
        None => encode_utf8("null"@),
    }
}

/// One link of the request, as a JSON object with its two wire fields.
pub open spec fn json_link(l: FetchLinkDataView) -> Seq<u8> {
    encode_utf8("{\"link\":"@) + json_string(l.link) + encode_utf8(",\"link_label\":"@)
        + json_opt_string(l.link_label) + encode_utf8("}"@)
}

/// The links of the request, in order, separated by commas.
pub open spec fn json_links(ls: Seq<FetchLinkDataView>) -> Seq<u8>
    decreases ls.len(),
{
    if ls.len() == 0 {
        Seq::empty()
    } else if ls.len() == 1 {
        json_link(ls[0])
    } else {
        json_links(ls.drop_last()) + encode_utf8(","@) + json_link(ls.last())
    }
}

/// The whole outgoing envelope, exactly as it goes on the wire.
pub open spec fn json_request(b: FetchLinksV2View) -> Seq<u8> {
    encode_utf8("{\"user\":"@) + json_string(b.user) + encode_utf8(",\"page\":"@)
        + json_opt_string(b.page) + encode_utf8(",\"links\":["@) + json_links(b.links)
        + encode_utf8("]}"@)
}

/// Appends one byte, escaped for the inside of a JSON string literal.
fn push_escaped_byte(out: &mut Vec<u8>, b: u8)
    ensures
        final(out)@ == old(out)@ + escape_byte(b),
{
    if b == 0x22 {
        out.push(0x5c);
        out.push(0x22);
        assert(out@ =~= old(out)@ + escape_byte(b));
    } else if b == 0x5c {
        out.push(0x5c);
        out.push(0x5c);
        assert(out@ =~= old(out)@ + escape_byte(b));
    } else if b < 0x20 {
        out.push(0x5c);
        out.push(0x75);
        out.push(0x30);
        out.push(0x30);
        out.push(hex_digit_of(b / 16));
        out.push(hex_digit_of(b % 16));
        assert(out@ =~= old(out)@ + escape_byte(b));
    } else {
        out.push(b);
        assert(out@ =~= old(out)@ + escape_byte(b));
    }
}

/// The lower-case hexadecimal digit for a value below sixteen.
fn hex_digit_of(n: u8) -> (r: u8)
    requires
        n < 16,
    ensures
        r == hex_digit(n),
{
    if n < 10 {
        0x30 + n
    } else {
        0x57 + n
    }
}

/// Appends a byte sequence unchanged.
fn append_bytes(out: &mut Vec<u8>, bytes: &[u8])
    ensures
        final(out)@ == old(out)@ + bytes@,
{
    let mut i: usize = 0;
    proof {
        assert(out@ =~= old(out)@ + bytes@.take(0));
    }
    while i < bytes.len()
        invariant
            i <= bytes@.len(),
            out@ == old(out)@ + bytes@.take(i as int),
        decreases bytes@.len() - i,
    {
        out.push(bytes[i]);
        proof {
            assert(old(out)@ + bytes@.take(i as int + 1) =~= (old(out)@ + bytes@.take(
                i as int,
            )).push(bytes@[i as int]));
        }
        i = i + 1;
    }
    proof {
        assert(bytes@.take(bytes@.len() as int) =~= bytes@);
    }
}

/// Appends the bytes of a string literal piece of the envelope.
fn append_piece(out: &mut Vec<u8>, piece: &str)
    ensures
        final(out)@ == old(out)@ + encode_utf8(piece@),
{
    append_bytes(out, piece.as_bytes());
}

/// Appends a byte sequence escaped for the inside of a JSON string literal.
fn append_escaped(out: &mut Vec<u8>, bytes: &[u8])
    ensures
        final(out)@ == old(out)@ + json_escaped(bytes@),
{
    let mut i: usize = 0;
    proof {
        assert(out@ =~= old(out)@ + json_escaped(bytes@.take(0)));
    }
    while i < bytes.len()
        invariant
            i <= bytes@.len(),
            out@ == old(out)@ + json_escaped(bytes@.take(i as int)),
        decreases bytes@.len() - i,
    {
        proof {
            assert(bytes@.take(i as int + 1).drop_last() =~= bytes@.take(i as int));
            assert(bytes@.take(i as int + 1).last() == bytes@[i as int]);
        }
        push_escaped_byte(out, bytes[i]);
        proof {
            assert(old(out)@ + json_escaped(bytes@.take(i as int + 1)) =~= (old(out)@
                + json_escaped(bytes@.take(i as int))) + escape_byte(bytes@[i as int]));
        }
        i = i + 1;
    }
    proof {
        assert(bytes@.take(bytes@.len() as int) =~= bytes@);
    }
}

/// Appends a string field as a quoted JSON string literal.
fn append_json_string(out: &mut Vec<u8>, s: &str)
    ensures
        final(out)@ == old(out)@ + json_string(s@),
{
    out.push(0x22);
    append_escaped(out, s.as_bytes());
    out.push(0x22);
    proof {
        assert(out@ =~= old(out)@ + json_string(s@));
    }
}

/// Appends an optional string field: a JSON string, or `null` when absent.
fn append_json_opt_string(out: &mut Vec<u8>, o: &Option<String>)
    ensures
        final(out)@ == old(out)@ + json_opt_string(crate::entities::opt_string_view(*o)),
{
    match o {
        Some(s) => append_json_string(out, s.as_str()),
        None => append_piece(out, "null"),
    }
}

/// Appends one link of the request as a JSON object.
fn append_json_link(out: &mut Vec<u8>, l: &FetchLinkData)
    ensures
        final(out)@ == old(out)@ + json_link(l@),
{
    append_piece(out, "{\"link\":");
    append_json_string(out, l.link.as_str());
    append_piece(out, ",\"link_label\":");
    append_json_opt_string(out, &l.link_label);
    append_piece(out, "}");
    proof {
        assert(out@ =~= old(out)@ + json_link(l@));
    }
}

impl FetchLinksV2 {
    /// Serializes the request envelope to its JSON wire form.
    pub fn to_json(&self) -> (r: Vec<u8>)
        ensures
            r@ == json_request(self@),
    {
        let mut out: Vec<u8> = Vec::new();
        append_piece(&mut out, "{\"user\":");
        append_json_string(&mut out, self.user.as_str());
        append_piece(&mut out, ",\"page\":");
        append_json_opt_string(&mut out, &self.page);
        append_piece(&mut out, ",\"links\":[");
        let ghost head = out@;
        let mut i: usize = 0;
        proof {
            assert(out@ =~= head + json_links(self.links.deep_view().take(0)));
        }
        while i < self.links.len()
            invariant
                i <= self.links@.len(),
                self.links.deep_view().len() == self.links@.len(),
                out@ == head + json_links(self.links.deep_view().take(i as int)),
            decreases self.links@.len() - i,
        {
            proof {
                assert(self.links.deep_view().take(i as int + 1).drop_last()
                    =~= self.links.deep_view().take(i as int));
                assert(self.links.deep_view().take(i as int + 1).last() == self.links@[
                    i as int
                ]@);
            }
            if i > 0 {
                append_piece(&mut out, ",");
            }
            append_json_link(&mut out, &self.links[i]);
            proof {
                let dv = self.links.deep_view();
                if i == 0 {
                    assert(json_links(dv.take(1)) == json_link(dv.take(1)[0]));
                    assert(out@ =~= head + json_links(dv.take(i as int + 1)));
                } else {
                    assert(out@ =~= head + json_links(dv.take(i as int + 1)));
                }
            }
            i = i + 1;
        }
        proof {
            assert(self.links.deep_view().take(self.links@.len() as int)
                =~= self.links.deep_view());
            assert(out@ =~= head + json_links(self@.links));
        }
        append_piece(&mut out, "]}");
        proof {
            assert(out@ =~= json_request(self@));
        }
        out
    }
}

} // verus!
