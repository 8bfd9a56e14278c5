use http::HeaderMap;
use worker_sandbox::clone_check::{
    check_bodies, check_inner_clone, check_request_clone, check_response_clone,
    probe_response_head, CloneMismatch, HttpVersion, Redirect, RequestHead, RequestView,
    ResponseView,
};

fn headers() -> HeaderMap {
    let mut h = HeaderMap::new();
    h.append("accept", "*/*".parse().unwrap());
    h
}

fn head() -> RequestHead {
    RequestHead {
        method: "POST".to_string(),
        version: HttpVersion::Http3,
        uri: "https://example.com/clone".to_string(),
        headers: headers(),
    }
}

fn original() -> RequestView {
    RequestView {
        method: "POST".to_string(),
        version: HttpVersion::Http3,
        uri: "https://example.com/clone".to_string(),
        headers: headers(),
        extension_count: 4,
        has_cf: true,
        has_marker: true,
        redirect: Some(Redirect::Follow),
        has_abort_signal: true,
    }
}

fn clone() -> RequestView {
    RequestView { extension_count: 2, has_cf: false, has_marker: false, ..original() }
}

#[test]
fn a_faithful_request_clone_passes() {
    assert_eq!(check_request_clone(&head(), &original(), &clone()), None);
}

#[test]
fn request_clone_mismatches_are_named() {
    let changed = RequestView { method: "GET".to_string(), ..original() };
    assert_eq!(check_request_clone(&head(), &changed, &clone()), Some(CloneMismatch::OriginalMethod));
    let few = RequestView { extension_count: 3, ..original() };
    assert_eq!(check_request_clone(&head(), &few, &clone()), Some(CloneMismatch::OriginalExtensions));
    let mut other = HeaderMap::new();
    other.append("accept", "text/plain".parse().unwrap());
    let c = RequestView { headers: other, ..clone() };
    assert_eq!(check_request_clone(&head(), &original(), &c), Some(CloneMismatch::CloneHeaders));
    let c = RequestView { redirect: Some(Redirect::Manual), ..clone() };
    assert_eq!(check_request_clone(&head(), &original(), &c), Some(CloneMismatch::CloneExtensions));
    let c = RequestView { version: HttpVersion::Http11, ..clone() };
    assert_eq!(check_request_clone(&head(), &original(), &c), Some(CloneMismatch::CloneVersion));
}

#[test]
fn response_clone_check() {
    let (status, version, h) = probe_response_head();
    assert_eq!(status, 201);
    assert!(version == HttpVersion::Http3);
    assert_eq!(h.get("foo").unwrap(), "bar");
    let orig = ResponseView { status: 201, version: HttpVersion::Http3, headers: h.clone(), extension_count: 1, has_marker: true };
    let cl = ResponseView { status: 201, version: HttpVersion::Http3, headers: h.clone(), extension_count: 0, has_marker: false };
    assert_eq!(check_response_clone(201, &HttpVersion::Http3, &h, &orig, &cl), None);
    let cl2 = ResponseView { extension_count: 1, has_marker: true, headers: h.clone(), ..cl };
    assert_eq!(check_response_clone(201, &HttpVersion::Http3, &h, &orig, &cl2), Some(CloneMismatch::CloneExtensions));
    let bad = ResponseView { status: 200, version: HttpVersion::Http3, headers: h.clone(), extension_count: 1, has_marker: true };
    assert_eq!(check_response_clone(201, &HttpVersion::Http3, &h, &bad, &orig), Some(CloneMismatch::OriginalStatus));
}

#[test]
fn bodies_must_match() {
    assert_eq!(check_bodies(b"abc", b"abc"), None);
    assert_eq!(check_bodies(b"abc", b"abd"), Some(CloneMismatch::Body));
    assert_eq!(check_bodies(b"abc", b"ab"), Some(CloneMismatch::Body));
    assert_eq!(check_inner_clone(b"x", b"x", false), None);
    assert_eq!(check_inner_clone(b"x", b"x", true), Some(CloneMismatch::RustInnerClone));
    assert_eq!(check_inner_clone(b"x", b"y", false), Some(CloneMismatch::Body));
}
