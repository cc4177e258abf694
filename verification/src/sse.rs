//! Reading the text pieces of a streamed reply out of the server-sent-events
//! chunks that the model service sends.

use vstd::prelude::*;
use vstd::utf8::{decode_utf8, valid_utf8};

use crate::text::{lines, split_lines, starts_with, strip_leading, trim_start_matches};

verus! {

/// The text that `String::from_utf8_lossy` makes of `bytes`.
pub uninterp spec fn utf8_lossy(bytes: Seq<u8>) -> Seq<char>;

/// The string that serde_json finds at the JSON Pointer `pointer` in the JSON
/// document `json`; none when `json` is not JSON, when nothing is at `pointer`
/// or when what is there is not a string.
pub uninterp spec fn json_string_at(json: Seq<char>, pointer: Seq<char>) -> Option<Seq<char>>;

/// `String::from_utf8_lossy`: the bytes read as UTF-8, with each invalid
/// sequence replaced by U+FFFD. Claimed: the result is the name `utf8_lossy`
/// of the bytes, and for valid UTF-8 it is their decoding.
#[verifier::external_body]
fn decode_lossy(bytes: &[u8]) -> (text: String)
    ensures
        text@ == utf8_lossy(bytes@),
        valid_utf8(bytes@) ==> text@ == decode_utf8(bytes@),
{
    String::from_utf8_lossy(bytes).into_owned()
}

/// `serde_json::from_str::<serde_json::Value>`, then `Value::pointer` and
/// `Value::as_str` on what it parsed. Claimed: the result is the name
/// `json_string_at` of the two arguments; what that name is on given values
/// is not stated.
#[verifier::external_body]
fn lookup_json_string(json: &str, pointer: &str) -> (found: Option<String>)
    ensures
        found.deep_view() == json_string_at(json@, pointer@),
{
    match serde_json::from_str::<serde_json::Value>(json) {
        Ok(value) => match value.pointer(pointer) {
            Some(found) => match found.as_str() {
                Some(text) => Some(text.to_string()),
                None => None,
            },
            None => None,
        },
        Err(_) => None,
    }
}

/// The marker of a data line.
pub open spec fn data_prefix() -> Seq<char> {
    "data: "@
}

/// The payload that ends a stream.
pub open spec fn done_marker() -> Seq<char> {
    "[DONE]"@
}

/// Where a streamed piece of text stands in a payload.
pub open spec fn content_pointer() -> Seq<char> {
    "/choices/0/delta/content"@
}

/// The payload of one line: for a data line, the line without its leading
/// markers, unless that is the end-of-stream marker.
pub open spec fn payload_of(line: Seq<char>) -> Option<Seq<char>> {
    if data_prefix().is_prefix_of(line) {
        let payload = strip_leading(line, data_prefix());
        if payload == done_marker() {
            None
        } else {
            Some(payload)
        }
    } else {
        None
    }
}

/// The payloads of `lines`, in order.
pub open spec fn payloads(lines: Seq<Seq<char>>) -> Seq<Seq<char>>
    decreases lines.len(),
{
    if lines.len() == 0 {
        Seq::empty()
    } else {
        let earlier = payloads(lines.drop_last());
        match payload_of(lines.last()) {
            Some(payload) => earlier.push(payload),
            None => earlier,
        }
    }
}

/// The first text among `found` that is there and not empty.
pub open spec fn first_nonempty(found: Seq<Option<Seq<char>>>) -> Option<Seq<char>>
    decreases found.len(),
{
    if found.len() == 0 {
        None
    } else if found[0] is Some && found[0]->0.len() > 0 {
        found[0]
    } else {
        first_nonempty(found.drop_first())
    }
}

/// What each payload holds at the content pointer, in order.
pub open spec fn lookups(payloads: Seq<Seq<char>>) -> Seq<Option<Seq<char>>> {
    payloads.map_values(|payload: Seq<char>| json_string_at(payload, content_pointer()))
}

/// The first non-empty piece of text that the payloads hold, in order.
pub open spec fn first_token(payloads: Seq<Seq<char>>) -> Option<Seq<char>> {
    first_nonempty(lookups(payloads))
}

/// The payloads of the data lines of `text`, in order: each data line without
/// its leading `data: ` markers, leaving out the end-of-stream marker.
pub fn sse_payloads(text: &str) -> (out: Vec<String>)
    ensures
        out.deep_view() == payloads(lines(text@)),
{
    let all = split_lines(text);
    let done = String::from_str("[DONE]");
    let mut out: Vec<String> = Vec::new();
    let mut i: usize = 0;
    while i < all.len()
        invariant
            i <= all.len(),
            all.deep_view() == lines(text@),
            done@ == done_marker(),
            out.deep_view() == payloads(all.deep_view().take(i as int)),
        decreases all.len() - i,
    {
        assert(all.deep_view().take(i + 1).drop_last() =~= all.deep_view().take(i as int));
        let line = all[i].as_str();
        if starts_with(line, "data: ") {
            let payload = trim_start_matches(line, "data: ");
            if payload != done {
                out.push(payload);
            }
        }
        i = i + 1;
    }
    assert(all.deep_view().take(all.len() as int) =~= all.deep_view());
    out
}

/// The first text among `found` that is there and not empty: what is kept of
/// the lookups of the payloads, in order.
pub fn first_found(found: &Vec<Option<String>>) -> (token: Option<String>)
    ensures
        token.deep_view() == first_nonempty(found.deep_view()),
{
    let mut i: usize = 0;
    assert(found.deep_view().skip(0) =~= found.deep_view());
    while i < found.len()
        invariant
            i <= found.len(),
            first_nonempty(found.deep_view()) == first_nonempty(found.deep_view().skip(i as int)),
        decreases found.len() - i,
    {
        assert(found.deep_view().skip(i as int).drop_first() =~= found.deep_view().skip(i + 1));
        assert(found.deep_view().skip(i as int)[0] == found@[i as int].deep_view());
        match &found[i] {
            Some(text) => {
                if !text.as_str().is_empty() {
                    return Some(text.clone());
                }
            },
            None => {},
        }
        i = i + 1;
    }
    assert(found.deep_view().skip(found.len() as int) =~= Seq::<Option<Seq<char>>>::empty());
    None
}

/// The first non-empty piece of text that the data lines of `text` carry.
pub fn parse_sse_text(text: &str) -> (token: Option<String>)
    ensures
        token.deep_view() == first_token(payloads(lines(text@))),
{
    let all = sse_payloads(text);
    let mut found: Vec<Option<String>> = Vec::new();
    let mut i: usize = 0;
    while i < all.len()
        invariant
            i <= all.len(),
            found@.len() == i,
            forall|j: int| 0 <= j < i ==> #[trigger] found@[j].deep_view()
                == json_string_at(all@[j]@, content_pointer()),
        decreases all.len() - i,
    {
        found.push(lookup_json_string(all[i].as_str(), "/choices/0/delta/content"));
        i = i + 1;
    }
    assert(found.deep_view() =~= lookups(all.deep_view()));
    first_found(&found)
}

/// The first non-empty piece of text that a chunk of server-sent events
/// carries: the chunk is read as UTF-8 (invalid sequences replaced), split
/// into lines, and the JSON payload of each data line is asked, in order, for
/// a string at `/choices/0/delta/content`.
pub fn parse_sse_chunk(bytes: &[u8]) -> (token: Option<String>)
    ensures
        token.deep_view() == first_token(payloads(lines(utf8_lossy(bytes@)))),
{
    let text = decode_lossy(bytes);
    parse_sse_text(text.as_str())
}


/// The piece of text that one item of the response's byte stream yields: none
/// for an item that failed to arrive (`None` here), else what
/// `parse_sse_chunk` reads from the bytes.
pub fn chunk_token(chunk: Option<&[u8]>) -> (token: Option<String>)
    ensures
        chunk is None ==> token is None,
        chunk matches Some(bytes) ==> token.deep_view() == first_token(
            payloads(lines(utf8_lossy(bytes@))),
        ),
{
    match chunk {
        Some(bytes) => parse_sse_chunk(bytes),
        None => None,
    }
}

} // verus!
