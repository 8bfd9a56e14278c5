use crate::headers::{empty_headers, header_entries};
use http::HeaderMap;
use vstd::multiset::Multiset;
use vstd::prelude::*;

verus! {

/// What a reply carries as its body.
pub enum Body {
    /// No body.
    Empty,
    /// A text body.
    Text(String),
    /// The body of the request being answered, handed back as it came.
    Incoming,
}

/// An HTTP answer: status code, headers and body.
pub struct Reply {
    pub status: u16,
    pub headers: HeaderMap,
    pub body: Body,
}

impl Reply {
    /// The reply has this status, no header and the text `text` as body.
    pub open spec fn is_text(self, status: u16, text: Seq<char>) -> bool {
        &&& self.status == status
        &&& header_entries(self.headers) == Multiset::<(Seq<char>, Seq<u8>)>::empty()
        &&& self.body matches Body::Text(s) && s@ == text
    }

    /// The reply has this status, no header and this body.
    pub open spec fn is_plain(self, status: u16, body: Body) -> bool {
        &&& self.status == status
        &&& header_entries(self.headers) == Multiset::<(Seq<char>, Seq<u8>)>::empty()
        &&& self.body == body
    }

    /// A reply with `status`, no header and `text` as body.
    pub fn text(status: u16, text: String) -> (r: Reply)
        ensures
            r.is_text(status, text@),
    {
        Reply { status, headers: empty_headers(), body: Body::Text(text) }
    }

    /// A reply with `status`, no header and `body`.
    pub fn plain(status: u16, body: Body) -> (r: Reply)
        ensures
            r.is_plain(status, body),
    {
        Reply { status, headers: empty_headers(), body }
    }
}

/// The text an optional string holds.
pub open spec fn option_text(o: Option<String>) -> Option<Seq<char>> {
    match o {
        Some(s) => Some(s@),
        None => None,
    }
}

} // verus!
