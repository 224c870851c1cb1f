//! What is sent back: a status, a content type and a body.

use vstd::prelude::*;
use vstd::string::*;

verus! {

/// The parts of a response that this library decides.
#[derive(Debug)]
pub struct Reply {
    pub status: u16,
    pub content_type: &'static str,
    pub body: Vec<u8>,
}

impl Reply {
    /// A reply that carries a text under the given status.
    pub fn text(status: u16, message: &str) -> (reply: Reply)
        ensures
            reply.status == status,
            reply.content_type@ == "text/plain; charset=utf-8"@,
            reply.body@ == message.spec_bytes(),
    {
        Reply { status, content_type: "text/plain; charset=utf-8", body: message.as_bytes_vec() }
    }

    /// A successful reply that carries an encoded value.
    pub fn postcard(body: Vec<u8>) -> (reply: Reply)
        ensures
            reply.status == 200,
            reply.content_type@ == "application/postcard"@,
            reply.body == body,
    {
        Reply { status: 200, content_type: "application/postcard", body }
    }
}

} // verus!
