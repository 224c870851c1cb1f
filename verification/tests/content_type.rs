use axum::http::header::{HeaderMap, HeaderValue, ACCEPT, CONTENT_TYPE};
use axum_postcard::media::eq_ignore_ascii_case;
use axum_postcard::{postcard_content_type, require_postcard_content_type, MediaType};
use axum_postcard::{PostcardRejection, Reply};

fn with_content_type(value: &str) -> HeaderMap {
    let mut headers = HeaderMap::new();
    headers.insert(CONTENT_TYPE, HeaderValue::from_str(value).unwrap());
    headers
}

fn media(type_: &str, subtype: &str, suffix: Option<&str>) -> MediaType {
    MediaType {
        type_: type_.to_owned(),
        subtype: subtype.to_owned(),
        suffix: suffix.map(|s| s.to_owned()),
    }
}

#[test]
fn postcard_content_types() {
    assert!(postcard_content_type(&with_content_type("application/postcard")));
    assert!(postcard_content_type(&with_content_type(
        "application/postcard; charset=utf-8"
    )));
    assert!(postcard_content_type(&with_content_type(
        "application/postcard;charset=utf-8"
    )));
    assert!(postcard_content_type(&with_content_type(
        "application/cloudevents+postcard"
    )));
    assert!(!postcard_content_type(&with_content_type("text/postcard")));
}

#[test]
fn consume_body_to_postcard_requires_postcard_content_type() {
    let checked = require_postcard_content_type(&HeaderMap::new());
    let rejection = checked.unwrap_err();
    assert!(matches!(
        rejection,
        PostcardRejection::MissingPostcardContentType
    ));
    assert_eq!(rejection.status(), 415);
}

#[test]
fn accepted_content_type_lets_the_body_be_read() {
    assert!(require_postcard_content_type(&with_content_type("application/postcard")).is_ok());
    assert!(require_postcard_content_type(&with_content_type("application/json")).is_err());
}

#[test]
fn missing_header_is_not_postcard() {
    assert!(!postcard_content_type(&HeaderMap::new()));
    let mut headers = HeaderMap::new();
    headers.insert(ACCEPT, HeaderValue::from_static("application/postcard"));
    assert!(!postcard_content_type(&headers));
}

#[test]
fn content_type_case_is_ignored() {
    assert!(postcard_content_type(&with_content_type("Application/Postcard")));
    assert!(postcard_content_type(&with_content_type("APPLICATION/X+POSTCARD")));
}

#[test]
fn other_media_types_are_not_postcard() {
    assert!(!postcard_content_type(&with_content_type("application/json")));
    assert!(!postcard_content_type(&with_content_type("application/postcards")));
    assert!(!postcard_content_type(&with_content_type("postcard/application")));
    assert!(!postcard_content_type(&with_content_type("*/*")));
}

#[test]
fn postcard_subtype_with_another_suffix_is_postcard() {
    assert!(postcard_content_type(&with_content_type("application/postcard+json")));
}

#[test]
fn text_that_is_no_media_type_is_not_postcard() {
    assert!(!postcard_content_type(&with_content_type("")));
    assert!(!postcard_content_type(&with_content_type("postcard")));
    assert!(!postcard_content_type(&with_content_type("application/")));
    assert!(!postcard_content_type(&with_content_type("application /postcard")));
    assert!(!postcard_content_type(&with_content_type("application/postcard; charset")));
}

#[test]
fn header_that_is_no_text_is_not_postcard() {
    let mut headers = HeaderMap::new();
    let value = HeaderValue::from_bytes(b"application/postcard; x=\"\xff\"").unwrap();
    headers.insert(CONTENT_TYPE, value);
    assert!(!postcard_content_type(&headers));
}

#[test]
fn first_content_type_decides() {
    let mut headers = HeaderMap::new();
    headers.append(CONTENT_TYPE, HeaderValue::from_static("text/plain"));
    headers.append(CONTENT_TYPE, HeaderValue::from_static("application/postcard"));
    assert!(!postcard_content_type(&headers));

    let mut headers = HeaderMap::new();
    headers.append(CONTENT_TYPE, HeaderValue::from_static("application/postcard"));
    headers.append(CONTENT_TYPE, HeaderValue::from_static("text/plain"));
    assert!(postcard_content_type(&headers));
}

#[test]
fn media_type_names_decide() {
    assert!(media("application", "postcard", None).is_postcard());
    assert!(media("application", "cloudevents", Some("postcard")).is_postcard());
    assert!(media("application", "postcard", Some("json")).is_postcard());
    assert!(media("Application", "PostCard", None).is_postcard());
    assert!(!media("text", "postcard", None).is_postcard());
    assert!(!media("text", "plain", Some("postcard")).is_postcard());
    assert!(!media("application", "json", None).is_postcard());
    assert!(!media("application", "json", Some("post")).is_postcard());
    assert!(!media("", "", None).is_postcard());
}

#[test]
fn names_compare_without_ascii_case() {
    assert!(eq_ignore_ascii_case("", ""));
    assert!(eq_ignore_ascii_case("postcard", "POSTCARD"));
    assert!(eq_ignore_ascii_case("PostCard", "pOSTcARD"));
    assert!(eq_ignore_ascii_case("a-z.0", "A-Z.0"));
    assert!(!eq_ignore_ascii_case("postcard", "postcar"));
    assert!(!eq_ignore_ascii_case("postcard", "postcarb"));
    assert!(!eq_ignore_ascii_case("@", "`"));
    assert!(!eq_ignore_ascii_case("[", "{"));
    assert!(!eq_ignore_ascii_case("\u{e9}", "\u{c9}"));
    assert!(eq_ignore_ascii_case("\u{e9}A", "\u{e9}a"));
}

#[test]
fn missing_content_type_reply() {
    let rejection = PostcardRejection::MissingPostcardContentType;
    assert_eq!(
        rejection.message(),
        "Expected request with `Content-Type: application/postcard`"
    );
    let reply = rejection.into_reply();
    assert_eq!(reply.status, 415);
    assert_eq!(reply.content_type, "text/plain; charset=utf-8");
    assert_eq!(
        reply.body,
        b"Expected request with `Content-Type: application/postcard`".to_vec()
    );
}

#[test]
fn text_reply_holds_the_utf8_bytes() {
    let reply = Reply::text(404, "caf\u{e9}");
    assert_eq!(reply.status, 404);
    assert_eq!(reply.content_type, "text/plain; charset=utf-8");
    assert_eq!(reply.body, vec![b'c', b'a', b'f', 0xc3, 0xa9]);
}

#[test]
fn postcard_reply_holds_the_bytes() {
    let reply = Reply::postcard(vec![3, b'b', b'a', b'r']);
    assert_eq!(reply.status, 200);
    assert_eq!(reply.content_type, "application/postcard");
    assert_eq!(reply.body, b"\x03bar".to_vec());
}

#[test]
fn parameters_and_suffixes_at_the_edges() {
    assert!(postcard_content_type(&with_content_type("application/postcard;")));
    assert!(postcard_content_type(&with_content_type("application/x+postcard;")));
    assert!(postcard_content_type(&with_content_type("application/a+b+postcard")));
    assert!(postcard_content_type(&with_content_type(
        "application/postcard; a=b; c=\"d e\""
    )));
    assert!(postcard_content_type(&with_content_type(
        "application/postcard; charset=UTF-8"
    )));
    assert!(!postcard_content_type(&with_content_type("application/+postcard")));
    assert!(!postcard_content_type(&with_content_type(" application/postcard")));
    assert!(!postcard_content_type(&with_content_type("application/postcard ")));
    assert!(!postcard_content_type(&with_content_type("application//postcard")));
    assert!(!postcard_content_type(&with_content_type("application/postcard;;")));
}
