use crate::headers::{append_header, ascii_bytes, header_entries, headers_equal, same_headers, valid_header_name, valid_header_value};
use http::HeaderMap;
use vstd::multiset::Multiset;
use vstd::prelude::*;

verus! {

/// An HTTP protocol version.
#[derive(PartialEq, Eq, Structural)]
pub enum HttpVersion {
    Http09,
    Http10,
    Http11,
    Http2,
    Http3,
}

/// How a request follows redirects.
#[derive(PartialEq, Eq, Structural)]
pub enum Redirect {
    Error,
    Follow,
    Manual,
}

/// What the clone checks look at in a request: its head, and which
/// extensions it carries.
pub struct RequestView {
    pub method: String,
    pub version: HttpVersion,
    pub uri: String,
    pub headers: HeaderMap,
    /// How many extensions the request carries.
    pub extension_count: usize,
    /// Whether it carries the edge's request properties.
    pub has_cf: bool,
    /// Whether it carries the marker extension the check inserted.
    pub has_marker: bool,
    /// The redirect mode it carries, if any.
    pub redirect: Option<Redirect>,
    /// Whether it carries an abort signal.
    pub has_abort_signal: bool,
}

/// What the clone checks look at in a response.
pub struct ResponseView {
    pub status: u16,
    pub version: HttpVersion,
    pub headers: HeaderMap,
    pub extension_count: usize,
    pub has_marker: bool,
}

/// The first thing a clone check found that does not hold.
#[derive(PartialEq, Eq, Structural, Debug)]
pub enum CloneMismatch {
    /// The original's method changed.
    OriginalMethod,
    /// The original's version changed.
    OriginalVersion,
    /// The original's URI changed.
    OriginalUri,
    /// The original's headers changed.
    OriginalHeaders,
    /// The original's status changed.
    OriginalStatus,
    /// The original does not carry the extensions it should.
    OriginalExtensions,
    /// The clone's method differs from the original's.
    CloneMethod,
    /// The clone's version differs from the original's.
    CloneVersion,
    /// The clone's URI differs from the original's.
    CloneUri,
    /// The clone's headers differ from the original's.
    CloneHeaders,
    /// The clone's status differs from the original's.
    CloneStatus,
    /// The clone does not carry the extensions it should.
    CloneExtensions,
    /// The two bodies differ.
    Body,
    /// A request made in Rust gave an inner clone.
    RustInnerClone,
}

/// The head a request had before it was cloned.
pub struct RequestHead {
    pub method: String,
    pub version: HttpVersion,
    pub uri: String,
    pub headers: HeaderMap,
}

/// What the request clone check finds, in the order it checks: the
/// original kept its head and its four extensions (edge properties, the
/// marker, a redirect mode, an abort signal); the clone has the original's
/// head and only the two extensions a clone carries over, the same redirect
/// mode and an abort signal.
pub open spec fn request_clone_finding(before: RequestHead, original: RequestView, clone: RequestView) -> Option<CloneMismatch> {
    if original.method@ != before.method@ {
        Some(CloneMismatch::OriginalMethod)
    } else if original.version != before.version {
        Some(CloneMismatch::OriginalVersion)
    } else if original.uri@ != before.uri@ {
        Some(CloneMismatch::OriginalUri)
    } else if !same_headers(original.headers, before.headers) {
        Some(CloneMismatch::OriginalHeaders)
    } else if !(original.extension_count == 4 && original.has_cf && original.has_marker
        && original.redirect is Some && original.has_abort_signal) {
        Some(CloneMismatch::OriginalExtensions)
    } else if clone.method@ != original.method@ {
        Some(CloneMismatch::CloneMethod)
    } else if clone.version != original.version {
        Some(CloneMismatch::CloneVersion)
    } else if clone.uri@ != original.uri@ {
        Some(CloneMismatch::CloneUri)
    } else if !same_headers(clone.headers, original.headers) {
        Some(CloneMismatch::CloneHeaders)
    } else if !(clone.extension_count == 2 && clone.redirect == original.redirect && clone.has_abort_signal) {
        Some(CloneMismatch::CloneExtensions)
    } else {
        None
    }
}

fn same_text(a: &String, b: &String) -> (r: bool)
    ensures
        r == (a@ == b@),
{
    *a == *b
}

/// Checks a request and its clone against what the request had before it
/// was cloned; see `request_clone_finding`.
pub fn check_request_clone(before: &RequestHead, original: &RequestView, clone: &RequestView) -> (r: Option<CloneMismatch>)
    ensures
        r == request_clone_finding(*before, *original, *clone),
        r is None <==> request_clone_faithful(*before, *original, *clone),
{
    proof {
        request_clone_accepted_iff_faithful(*before, *original, *clone);
    }
    if !same_text(&original.method, &before.method) {
        Some(CloneMismatch::OriginalMethod)
    } else if original.version != before.version {
        Some(CloneMismatch::OriginalVersion)
    } else if !same_text(&original.uri, &before.uri) {
        Some(CloneMismatch::OriginalUri)
    } else if !headers_equal(&original.headers, &before.headers) {
        Some(CloneMismatch::OriginalHeaders)
    } else if !(original.extension_count == 4 && original.has_cf && original.has_marker
        && original.redirect.is_some() && original.has_abort_signal) {
        Some(CloneMismatch::OriginalExtensions)
    } else if !same_text(&clone.method, &original.method) {
        Some(CloneMismatch::CloneMethod)
    } else if clone.version != original.version {
        Some(CloneMismatch::CloneVersion)
    } else if !same_text(&clone.uri, &original.uri) {
        Some(CloneMismatch::CloneUri)
    } else if !headers_equal(&clone.headers, &original.headers) {
        Some(CloneMismatch::CloneHeaders)
    } else if !(clone.extension_count == 2 && same_redirect(&clone.redirect, &original.redirect)
        && clone.has_abort_signal) {
        Some(CloneMismatch::CloneExtensions)
    } else {
        None
    }
}

fn same_redirect(a: &Option<Redirect>, b: &Option<Redirect>) -> (r: bool)
    ensures
        r == (*a == *b),
{
    match (a, b) {
        (None, None) => true,
        (Some(x), Some(y)) => *x == *y,
        _ => false,
    }
}

/// The head of the response the response clone check builds: 201, HTTP/3,
/// and the header `foo: bar`.
pub fn probe_response_head() -> (r: (u16, HttpVersion, HeaderMap))
    ensures
        r.0 == 201,
        r.1 == HttpVersion::Http3,
        header_entries(r.2) == Multiset::<(Seq<char>, Seq<u8>)>::empty().insert(("foo"@, ascii_bytes("bar"@))),
{
    let mut headers = crate::headers::empty_headers();
    let name = "foo";
    let value = "bar";
    proof {
        reveal_strlit("foo");
        reveal_strlit("bar");
        assert(valid_header_name(name@));
        assert(valid_header_value(value@));
        assert(crate::headers::lower_name(name@) =~= name@);
    }
    append_header(&mut headers, name, value);
    (201, HttpVersion::Http3, headers)
}

/// What the response clone check finds, in the order it checks: the
/// original kept its status, version, headers and its one extension; the
/// clone has the original's status, version and headers, and no extension.
pub open spec fn response_clone_finding(
    before_status: u16,
    before_version: HttpVersion,
    before_headers: HeaderMap,
    original: ResponseView,
    clone: ResponseView,
) -> Option<CloneMismatch> {
    if original.status != before_status {
        Some(CloneMismatch::OriginalStatus)
    } else if original.version != before_version {
        Some(CloneMismatch::OriginalVersion)
    } else if !same_headers(original.headers, before_headers) {
        Some(CloneMismatch::OriginalHeaders)
    } else if !(original.extension_count == 1 && original.has_marker) {
        Some(CloneMismatch::OriginalExtensions)
    } else if clone.status != original.status {
        Some(CloneMismatch::CloneStatus)
    } else if clone.version != original.version {
        Some(CloneMismatch::CloneVersion)
    } else if !same_headers(clone.headers, original.headers) {
        Some(CloneMismatch::CloneHeaders)
    } else if clone.extension_count != 0 {
        Some(CloneMismatch::CloneExtensions)
    } else {
        None
    }
}

/// Checks a response and its clone against what the response had before it
/// was cloned; see `response_clone_finding`.
pub fn check_response_clone(
    before_status: u16,
    before_version: &HttpVersion,
    before_headers: &HeaderMap,
    original: &ResponseView,
    clone: &ResponseView,
) -> (r: Option<CloneMismatch>)
    ensures
        r == response_clone_finding(before_status, *before_version, *before_headers, *original, *clone),
        r is None <==> response_clone_faithful(before_status, *before_version, *before_headers, *original, *clone),
{
    proof {
        response_clone_accepted_iff_faithful(before_status, *before_version, *before_headers, *original, *clone);
    }
    if original.status != before_status {
        Some(CloneMismatch::OriginalStatus)
    } else if original.version != *before_version {
        Some(CloneMismatch::OriginalVersion)
    } else if !headers_equal(&original.headers, before_headers) {
        Some(CloneMismatch::OriginalHeaders)
    } else if !(original.extension_count == 1 && original.has_marker) {
        Some(CloneMismatch::OriginalExtensions)
    } else if clone.status != original.status {
        Some(CloneMismatch::CloneStatus)
    } else if clone.version != original.version {
        Some(CloneMismatch::CloneVersion)
    } else if !headers_equal(&clone.headers, &original.headers) {
        Some(CloneMismatch::CloneHeaders)
    } else if clone.extension_count != 0 {
        Some(CloneMismatch::CloneExtensions)
    } else {
        None
    }
}

/// Whether two bodies hold the same bytes.
pub fn same_bytes(a: &[u8], b: &[u8]) -> (r: bool)
    ensures
        r == (a@ == b@),
{
    if a.len() != b.len() {
        return false;
    }
    let mut i: usize = 0;
    while i < a.len()
        invariant
            i <= a@.len(),
            a@.len() == b@.len(),
            forall|j: int| 0 <= j < i ==> a@[j] == b@[j],
        decreases a@.len() - i,
    {
        if a[i] != b[i] {
            return false;
        }
        i = i + 1;
    }
    assert(a@ =~= b@);
    true
}

/// The finding of the body comparison that ends each clone check.
pub fn check_bodies(original: &[u8], clone: &[u8]) -> (r: Option<CloneMismatch>)
    ensures
        r is None <==> original@ == clone@,
        r is Some ==> r == Some(CloneMismatch::Body),
{
    if same_bytes(original, clone) {
        None
    } else {
        Some(CloneMismatch::Body)
    }
}

/// What `POST /clone-inner` finds: the request and its inner clone read the
/// same body, and a request made in Rust has no inner clone.
pub fn check_inner_clone(body: &[u8], clone_body: &[u8], rust_request_has_inner_clone: bool) -> (r: Option<CloneMismatch>)
    ensures
        r is None <==> (body@ == clone_body@ && !rust_request_has_inner_clone),
        r matches Some(m) ==> (m == CloneMismatch::Body && body@ != clone_body@)
            || (m == CloneMismatch::RustInnerClone && body@ == clone_body@),
{
    if !same_bytes(body, clone_body) {
        Some(CloneMismatch::Body)
    } else if rust_request_has_inner_clone {
        Some(CloneMismatch::RustInnerClone)
    } else {
        None
    }
}

/// Everything the request clone check asks for: the original kept the head
/// it had before cloning and carries its four extensions; the clone carries
/// the original's method, version, URI and headers, exactly two extensions,
/// the original's redirect mode and an abort signal.
pub open spec fn request_clone_faithful(before: RequestHead, original: RequestView, clone: RequestView) -> bool {
    &&& original.method@ == before.method@
    &&& original.version == before.version
    &&& original.uri@ == before.uri@
    &&& same_headers(original.headers, before.headers)
    &&& original.extension_count == 4
    &&& original.has_cf
    &&& original.has_marker
    &&& original.redirect is Some
    &&& original.has_abort_signal
    &&& clone.method@ == original.method@
    &&& clone.version == original.version
    &&& clone.uri@ == original.uri@
    &&& same_headers(clone.headers, original.headers)
    &&& clone.extension_count == 2
    &&& clone.redirect == original.redirect
    &&& clone.has_abort_signal
}

/// The request clone check finds nothing exactly when every property it
/// asks for holds: in particular a clone whose method, version, URI or
/// headers differ from the original's is never accepted.
pub proof fn request_clone_accepted_iff_faithful(before: RequestHead, original: RequestView, clone: RequestView)
    ensures
        request_clone_finding(before, original, clone) is None <==> {
            &&& original.method@ == before.method@
            &&& original.version == before.version
            &&& original.uri@ == before.uri@
            &&& same_headers(original.headers, before.headers)
            &&& original.extension_count == 4
            &&& original.has_cf
            &&& original.has_marker
            &&& original.redirect is Some
            &&& original.has_abort_signal
            &&& clone.method@ == original.method@
            &&& clone.version == original.version
            &&& clone.uri@ == original.uri@
            &&& same_headers(clone.headers, original.headers)
            &&& clone.extension_count == 2
            &&& clone.redirect == original.redirect
            &&& clone.has_abort_signal
        },
        request_clone_finding(before, original, clone) is None <==> request_clone_faithful(before, original, clone),
{
}

/// When the original passes its own checks and the clone has the
/// original's method and version but another URI, the check names the URI.
pub proof fn request_clone_uri_mismatch_is_named(before: RequestHead, original: RequestView, clone: RequestView)
    requires
        original.method@ == before.method@,
        original.version == before.version,
        original.uri@ == before.uri@,
        same_headers(original.headers, before.headers),
        original.extension_count == 4,
        original.has_cf,
        original.has_marker,
        original.redirect is Some,
        original.has_abort_signal,
        clone.method@ == original.method@,
        clone.version == original.version,
        clone.uri@ != original.uri@,
    ensures
        request_clone_finding(before, original, clone) == Some(CloneMismatch::CloneUri),
{
}

/// Everything the response clone check asks for: the original kept its
/// status, version and headers and carries its one marker extension; the
/// clone carries the original's status, version and headers and no extension.
pub open spec fn response_clone_faithful(
    before_status: u16,
    before_version: HttpVersion,
    before_headers: HeaderMap,
    original: ResponseView,
    clone: ResponseView,
) -> bool {
    &&& original.status == before_status
    &&& original.version == before_version
    &&& same_headers(original.headers, before_headers)
    &&& original.extension_count == 1
    &&& original.has_marker
    &&& clone.status == original.status
    &&& clone.version == original.version
    &&& same_headers(clone.headers, original.headers)
    &&& clone.extension_count == 0
}

/// The response clone check finds nothing exactly when every property it
/// asks for holds: a clone whose status, version or headers differ from the
/// original's, or that carries an extension, is never accepted.
pub proof fn response_clone_accepted_iff_faithful(
    before_status: u16,
    before_version: HttpVersion,
    before_headers: HeaderMap,
    original: ResponseView,
    clone: ResponseView,
)
    ensures
        response_clone_finding(before_status, before_version, before_headers, original, clone) is None <==> {
            &&& original.status == before_status
            &&& original.version == before_version
            &&& same_headers(original.headers, before_headers)
            &&& original.extension_count == 1
            &&& original.has_marker
            &&& clone.status == original.status
            &&& clone.version == original.version
            &&& same_headers(clone.headers, original.headers)
            &&& clone.extension_count == 0
        },
        response_clone_finding(before_status, before_version, before_headers, original, clone) is None
            <==> response_clone_faithful(before_status, before_version, before_headers, original, clone),
{
}

/// When the original passes its own checks and only the clone's status
/// differs from the original's, the check names the status.
pub proof fn response_clone_status_mismatch_is_named(
    before_status: u16,
    before_version: HttpVersion,
    before_headers: HeaderMap,
    original: ResponseView,
    clone: ResponseView,
)
    requires
        original.status == before_status,
        original.version == before_version,
        same_headers(original.headers, before_headers),
        original.extension_count == 1,
        original.has_marker,
        clone.status != original.status,
    ensures
        response_clone_finding(before_status, before_version, before_headers, original, clone)
            == Some(CloneMismatch::CloneStatus),
{
}

} // verus!
