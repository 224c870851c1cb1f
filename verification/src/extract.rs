//! The `Postcard` wrapper: from a request to a value, from a value to a reply.

use axum::extract::rejection::BytesRejection;
use axum::http::header::HeaderMap;
use serde::de::DeserializeOwned;
use serde::Serialize;
use vstd::prelude::*;

use crate::headers::{announces_postcard, postcard_content_type};
use crate::rejection::{postcard_error_display, postcard_error_text, PostcardRejection};
use crate::reply::Reply;

verus! {

/// A value that arrives as, or leaves as, a postcard body.
pub struct Postcard<T>(pub T);

/// Calls `postcard::from_bytes`. Trusted; what comes back depends on how `T`
/// reads itself, so nothing is claimed of it.
#[verifier::external_body]
fn decode<T: DeserializeOwned>(bytes: &[u8]) -> (decoded: Result<T, postcard::Error>) {
    postcard::from_bytes(bytes)
}

/// Calls `postcard::to_allocvec`. Trusted; what comes back depends on how `T`
/// writes itself, so nothing is claimed of it.
#[verifier::external_body]
fn encode<T: Serialize>(value: &T) -> (encoded: Result<Vec<u8>, postcard::Error>) {
    postcard::to_allocvec(value)
}

/// The first step of an extraction, before the body is read: a request whose
/// `Content-Type` does not announce postcard is rejected, and its body is
/// left alone.
pub fn require_postcard_content_type(headers: &HeaderMap) -> (checked: Result<
    (),
    PostcardRejection,
>)
    ensures
        announces_postcard(*headers) ==> checked is Ok,
        !announces_postcard(*headers) ==> checked == Err::<(), PostcardRejection>(
            PostcardRejection::MissingPostcardContentType,
        ),
{
    if postcard_content_type(headers) {
        Ok(())
    } else {
        Err(PostcardRejection::MissingPostcardContentType)
    }
}

/// The reply for the outcome of encoding a value: the bytes as a postcard
/// body, or an internal server error with the error's text.
pub fn reply_from_encoded(encoded: Result<Vec<u8>, postcard::Error>) -> (reply: Reply)
    ensures
        match encoded {
            Ok(bytes) => {
                &&& reply.status == 200
                &&& reply.content_type@ == "application/postcard"@
                &&& reply.body == bytes
            },
            Err(err) => {
                &&& reply.status == 500
                &&& reply.content_type@ == "text/plain; charset=utf-8"@
                &&& reply.body@ == vstd::utf8::encode_utf8(postcard_error_display(err))
            },
        },
{
    match encoded {
        Ok(bytes) => Reply::postcard(bytes),
        Err(err) => {
            let message = postcard_error_text(&err);
            Reply::text(500, message.as_str())
        },
    }
}

impl<T> Postcard<T> {
    /// The outcome of an extraction, given the outcome of decoding the body.
    pub fn from_decoded(decoded: Result<T, postcard::Error>) -> (out: Result<
        Postcard<T>,
        PostcardRejection,
    >)
        ensures
            match decoded {
                Ok(value) => out == Ok::<Postcard<T>, PostcardRejection>(Postcard(value)),
                Err(err) => out == Err::<Postcard<T>, PostcardRejection>(
                    PostcardRejection::PostcardError(err),
                ),
            },
    {
        match decoded {
            Ok(value) => Ok(Postcard(value)),
            Err(err) => Err(PostcardRejection::from(err)),
        }
    }

    /// The second step of an extraction, once the body was buffered or
    /// buffering has failed: the body is decoded as a `T`.
    pub fn from_body(body: Result<Vec<u8>, BytesRejection>) -> (out: Result<
        Postcard<T>,
        PostcardRejection,
    >) where T: DeserializeOwned
        ensures
            match body {
                Ok(_) => out is Ok || (out matches Err(e) && e is PostcardError),
                Err(err) => out == Err::<Postcard<T>, PostcardRejection>(
                    PostcardRejection::Bytes(err),
                ),
            },
    {
        match body {
            Ok(bytes) => Self::from_decoded(decode(bytes.as_slice())),
            Err(err) => Err(PostcardRejection::from(err)),
        }
    }

    /// The reply that carries the value: its postcard encoding under
    /// `Content-Type: application/postcard`, or an internal server error where
    /// the value does not encode.
    pub fn into_reply(self) -> (reply: Reply) where T: Serialize
        ensures
            reply.status == 200 || reply.status == 500,
            reply.status == 200 ==> reply.content_type@ == "application/postcard"@,
            reply.status == 500 ==> reply.content_type@ == "text/plain; charset=utf-8"@,
    {
        reply_from_encoded(encode(&self.0))
    }
}

} // verus!
