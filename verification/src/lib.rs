//! Postcard request bodies and responses for axum handlers: which requests
//! carry a postcard body, how a body becomes a value or a rejection, and what
//! reply a value or a rejection turns into.

pub mod extract;
pub mod headers;
pub mod media;
pub mod rejection;
pub mod reply;

pub use extract::{reply_from_encoded, require_postcard_content_type, Postcard};
pub use headers::postcard_content_type;
pub use media::MediaType;
pub use rejection::PostcardRejection;
pub use reply::Reply;
