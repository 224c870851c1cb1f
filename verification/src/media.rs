//! Media types, as far as they decide whether a body is postcard.

use vstd::prelude::*;
use vstd::string::*;

verus! {

/// The names of a media type: `application/cloudevents+postcard` has the type
/// `application`, the subtype `cloudevents` and the suffix `postcard`.
#[derive(Debug)]
pub struct MediaType {
    pub type_: String,
    pub subtype: String,
    pub suffix: Option<String>,
}

/// What a `MediaType` holds, as sequences of characters.
pub struct MediaNames {
    pub type_: Seq<char>,
    pub subtype: Seq<char>,
    pub suffix: Option<Seq<char>>,
}

impl View for MediaType {
    type V = MediaNames;

    open spec fn view(&self) -> MediaNames {
        MediaNames {
            type_: self.type_@,
            subtype: self.subtype@,
            suffix: match self.suffix {
                Some(s) => Some(s@),
                None => None,
            },
        }
    }
}

/// The names that the `mime` crate reads out of a text, or `None` where it
/// refuses the text as a media type.
pub uninterp spec fn mime_parse(text: Seq<char>) -> Option<MediaNames>;

/// The code of a character, with the upper-case ASCII letters moved onto the
/// lower-case ones.
pub open spec fn folded(c: char) -> u32 {
    if 65 <= c as u32 <= 90 {
        (c as u32 + 32) as u32
    } else {
        c as u32
    }
}

/// Two names are the same but for the case of their ASCII letters.
pub open spec fn same_name(a: Seq<char>, b: Seq<char>) -> bool {
    &&& a.len() == b.len()
    &&& forall|i: int| 0 <= i < a.len() ==> folded(#[trigger] a[i]) == folded(b[i])
}

/// The media types that announce a postcard body: `application/postcard`, and
/// `application/*+postcard` for any subtype.
pub open spec fn names_postcard(m: MediaNames) -> bool {
    &&& same_name(m.type_, "application"@)
    &&& (same_name(m.subtype, "postcard"@) || match m.suffix {
        Some(s) => same_name(s, "postcard"@),
        None => false,
    })
}

/// Calls `str::parse::<mime::Mime>` and copies the three names out of the
/// result with `Mime::type_`, `Mime::subtype` and `Mime::suffix`. Trusted: the
/// outcome depends on the text alone, and `mime_parse` is its name.
#[verifier::external_body]
pub(crate) fn parse_media_type(text: &str) -> (parsed: Option<MediaType>)
    ensures
        match parsed {
            Some(m) => mime_parse(text@) == Some(m@),
            None => mime_parse(text@).is_none(),
        },
{
    match text.parse::<mime::Mime>() {
        Ok(m) => Some(MediaType {
            type_: m.type_().as_str().to_owned(),
            subtype: m.subtype().as_str().to_owned(),
            suffix: m.suffix().map(|n| n.as_str().to_owned()),
        }),
        Err(_) => None,
    }
}

fn fold(c: char) -> (code: u32)
    ensures
        code == folded(c),
{
    let code: u32 = c as u32;
    if 65 <= code && code <= 90 {
        code + 32
    } else {
        code
    }
}

/// Compares two names without regard to the case of ASCII letters.
pub fn eq_ignore_ascii_case(a: &str, b: &str) -> (same: bool)
    ensures
        same == same_name(a@, b@),
{
    let n: usize = a.unicode_len();
    if b.unicode_len() != n {
        return false;
    }
    let mut i: usize = 0;
    while i < n
        invariant
            n == a@.len(),
            n == b@.len(),
            i <= n,
            forall|j: int| 0 <= j < i ==> folded(#[trigger] a@[j]) == folded(b@[j]),
        decreases n - i,
    {
        if fold(a.get_char(i)) != fold(b.get_char(i)) {
            return false;
        }
        i = i + 1;
    }
    true
}

impl MediaType {
    /// Whether this media type announces a postcard body.
    pub fn is_postcard(&self) -> (yes: bool)
        ensures
            yes == names_postcard(self@),
    {
        if !eq_ignore_ascii_case(self.type_.as_str(), "application") {
            return false;
        }
        if eq_ignore_ascii_case(self.subtype.as_str(), "postcard") {
            return true;
        }
        match &self.suffix {
            Some(s) => eq_ignore_ascii_case(s.as_str(), "postcard"),
            None => false,
        }
    }
}

} // verus!
