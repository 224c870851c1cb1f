//! Why a request body was not turned into a value.

use axum::extract::rejection::BytesRejection;
use vstd::prelude::*;
use vstd::string::*;

use crate::reply::Reply;

verus! {

/// `postcard::Error`, carried as it comes; only its text is read, through
/// `postcard_error_display`.
#[verifier::external_type_specification]
#[verifier::external_body]
pub struct ExPostcardError(postcard::Error);

/// axum's `BytesRejection`, carried as it comes; only its text is read,
/// through `bytes_rejection_display`.
#[verifier::external_type_specification]
#[verifier::external_body]
pub struct ExBytesRejection(BytesRejection);

/// The ways in which extracting a `Postcard` fails.
#[derive(Debug)]
pub enum PostcardRejection {
    /// The request has no `Content-Type` that announces postcard.
    MissingPostcardContentType,
    /// The body is not a postcard encoding of the wanted type.
    PostcardError(postcard::Error),
    /// The body could not be buffered.
    Bytes(BytesRejection),
}

impl From<postcard::Error> for PostcardRejection {
    fn from(err: postcard::Error) -> (rejection: PostcardRejection) {
        PostcardRejection::PostcardError(err)
    }
}

impl vstd::std_specs::convert::FromSpecImpl<postcard::Error> for PostcardRejection {
    open spec fn obeys_from_spec() -> bool {
        true
    }

    open spec fn from_spec(err: postcard::Error) -> PostcardRejection {
        PostcardRejection::PostcardError(err)
    }
}

impl From<BytesRejection> for PostcardRejection {
    fn from(err: BytesRejection) -> (rejection: PostcardRejection) {
        PostcardRejection::Bytes(err)
    }
}

impl vstd::std_specs::convert::FromSpecImpl<BytesRejection> for PostcardRejection {
    open spec fn obeys_from_spec() -> bool {
        true
    }

    open spec fn from_spec(err: BytesRejection) -> PostcardRejection {
        PostcardRejection::Bytes(err)
    }
}

/// The text that `postcard` displays for one of its errors.
pub uninterp spec fn postcard_error_display(err: postcard::Error) -> Seq<char>;

/// The text that axum displays for a body that could not be buffered.
pub uninterp spec fn bytes_rejection_display(err: BytesRejection) -> Seq<char>;

/// Calls `to_string` on a `postcard::Error`. Trusted: the text depends on the
/// error alone, and `postcard_error_display` is its name.
#[verifier::external_body]
pub(crate) fn postcard_error_text(err: &postcard::Error) -> (text: String)
    ensures
        text@ == postcard_error_display(*err),
{
    err.to_string()
}

/// Calls `to_string` on a `BytesRejection`. Trusted: the text depends on the
/// rejection alone, and `bytes_rejection_display` is its name.
#[verifier::external_body]
fn bytes_rejection_text(err: &BytesRejection) -> (text: String)
    ensures
        text@ == bytes_rejection_display(*err),
{
    err.to_string()
}

impl PostcardRejection {
    /// The HTTP status that answers each rejection: 415 Unsupported Media
    /// Type, 400 Bad Request, 500 Internal Server Error.
    pub open spec fn spec_status(&self) -> u16 {
        match self {
            PostcardRejection::MissingPostcardContentType => 415,
            PostcardRejection::PostcardError(_) => 400,
            PostcardRejection::Bytes(_) => 500,
        }
    }

    /// The text of the rejection that this library words itself.
    pub open spec fn missing_content_type_text() -> Seq<char> {
        "Expected request with `Content-Type: application/postcard`"@
    }

    /// The text that describes each rejection: this library's own words for
    /// a missing content type, and otherwise the text of the error inside.
    pub open spec fn spec_message(&self) -> Seq<char> {
        match self {
            PostcardRejection::MissingPostcardContentType => Self::missing_content_type_text(),
            PostcardRejection::PostcardError(err) => postcard_error_display(*err),
            PostcardRejection::Bytes(err) => bytes_rejection_display(*err),
        }
    }

    pub fn status(&self) -> (code: u16)
        ensures
            code == self.spec_status(),
    {
        match self {
            PostcardRejection::MissingPostcardContentType => 415,
            PostcardRejection::PostcardError(_) => 400,
            PostcardRejection::Bytes(_) => 500,
        }
    }

    /// The text that describes the rejection. For a postcard error and for a
    /// body that could not be buffered it is the text of that error.
    pub fn message(&self) -> (text: String)
        ensures
            text@ == self.spec_message(),
    {
        match self {
            PostcardRejection::MissingPostcardContentType => {
                "Expected request with `Content-Type: application/postcard`".to_owned()
            },
            PostcardRejection::PostcardError(err) => postcard_error_text(err),
            PostcardRejection::Bytes(err) => bytes_rejection_text(err),
        }
    }

    /// The reply that answers the rejection: its status, and its message as
    /// plain text, encoded as UTF-8.
    pub fn into_reply(self) -> (reply: Reply)
        ensures
            reply.status == self.spec_status(),
            reply.content_type@ == "text/plain; charset=utf-8"@,
            reply.body@ == vstd::utf8::encode_utf8(self.spec_message()),
    {
        let message = self.message();
        Reply::text(self.status(), message.as_str())
    }
}

} // verus!
