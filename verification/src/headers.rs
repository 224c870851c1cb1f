//! The `Content-Type` header of a request, and whether it announces postcard.

use axum::http::header::{HeaderMap, HeaderValue, CONTENT_TYPE};
use vstd::prelude::*;

use crate::media::{mime_parse, names_postcard, parse_media_type};

verus! {

/// `http::HeaderMap`, seen through `header_lines` alone.
#[verifier::external_type_specification]
#[verifier::external_body]
#[verifier::reject_recursive_types(T)]
pub struct ExHeaderMap<T>(HeaderMap<T>);

/// `http::HeaderValue`, seen through `value_bytes` alone.
#[verifier::external_type_specification]
#[verifier::external_body]
pub struct ExHeaderValue(HeaderValue);

/// What a header map holds: under each header name, in lower case, the values
/// that were stored for it, the first one first, each as its bytes.
pub uninterp spec fn header_lines(headers: HeaderMap<HeaderValue>) -> Map<Seq<char>, Seq<Seq<u8>>>;

/// The bytes that a header value holds.
pub uninterp spec fn value_bytes(value: HeaderValue) -> Seq<u8>;

/// The first value stored under a name, if there is one.
pub open spec fn first_line(lines: Map<Seq<char>, Seq<Seq<u8>>>, name: Seq<char>) -> Option<
    Seq<u8>,
> {
    if lines.contains_key(name) && lines[name].len() > 0 {
        Some(lines[name][0])
    } else {
        None
    }
}

/// A byte that may stand in a header value read as text: a tab, a space or a
/// printable ASCII character.
pub open spec fn visible_ascii(b: u8) -> bool {
    b == 9 || 32 <= b < 127
}

/// Every byte of the value may stand in a text.
pub open spec fn all_visible(bytes: Seq<u8>) -> bool {
    forall|i: int| 0 <= i < bytes.len() ==> visible_ascii(#[trigger] bytes[i])
}

/// ASCII bytes read as characters, one for one.
pub open spec fn as_text(bytes: Seq<u8>) -> Seq<char> {
    Seq::new(bytes.len(), |i: int| bytes[i] as char)
}

/// Whether a `Content-Type` value, given as the header's bytes, announces a
/// postcard body: it is text, it is a media type, and the media type is
/// `application/postcard` or `application/*+postcard`.
pub open spec fn accepts(line: Option<Seq<u8>>) -> bool {
    match line {
        None => false,
        Some(bytes) => all_visible(bytes) && match mime_parse(as_text(bytes)) {
            Some(names) => names_postcard(names),
            None => false,
        },
    }
}

/// Whether the first `Content-Type` value of the headers announces a postcard
/// body. Headers without a `Content-Type` announce none.
pub open spec fn announces_postcard(headers: HeaderMap<HeaderValue>) -> bool {
    accepts(first_line(header_lines(headers), "content-type"@))
}

/// Calls `HeaderMap::get` with `CONTENT_TYPE`. Trusted: the result is the
/// first value stored under `content-type`, and `None` where there is none.
#[verifier::external_body]
fn content_type_value(headers: &HeaderMap) -> (value: Option<&HeaderValue>)
    ensures
        match value {
            Some(v) => first_line(header_lines(*headers), "content-type"@) == Some(
                value_bytes(*v),
            ),
            None => first_line(header_lines(*headers), "content-type"@).is_none(),
        },
{
    headers.get(CONTENT_TYPE)
}

/// Calls `HeaderValue::to_str`. Trusted: the result is `Some` exactly where
/// every byte of the value is a tab, a space or printable ASCII, and then it
/// holds those bytes as characters.
#[verifier::external_body]
fn value_text(value: &HeaderValue) -> (text: Option<&str>)
    ensures
        text.is_some() == all_visible(value_bytes(*value)),
        text matches Some(s) ==> s@ == as_text(value_bytes(*value)),
{
    value.to_str().ok()
}

/// Whether the request's `Content-Type` header announces a postcard body.
pub fn postcard_content_type(headers: &HeaderMap) -> (yes: bool)
    ensures
        yes == announces_postcard(*headers),
{
    let value = match content_type_value(headers) {
        Some(value) => value,
        None => {
            return false;
        },
    };
    let text = match value_text(value) {
        Some(text) => text,
        None => {
            return false;
        },
    };
    match parse_media_type(text) {
        Some(media) => media.is_postcard(),
        None => false,
    }
}

} // verus!
