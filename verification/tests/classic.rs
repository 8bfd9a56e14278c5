use worker_sandbox::classic_routes::{
    body_text_reply, durable_call, fetch_targets, formdata_name_reply, hello_reply, kv_entry,
    proxy_url, two_statuses_reply, user_id_or_default, user_test_reply,
};
use worker_sandbox::durable::{MissingBinding, StubId, StubTarget};
use worker_sandbox::routes::OutboundMethod;
use worker_sandbox::reply::{Body, Reply};

fn text_of(r: &Reply) -> (u16, String) {
    match &r.body {
        Body::Text(s) => (r.status, s.clone()),
        _ => panic!("not a text body"),
    }
}

#[test]
fn hello() {
    assert_eq!(text_of(&hello_reply()), (200, "hello, world.".to_string()));
}

#[test]
fn formdata_needs_a_name() {
    assert_eq!(text_of(&formdata_name_reply(None)), (400, "Bad Request".to_string()));
    assert_eq!(
        text_of(&formdata_name_reply(Some("Field(\"ann\")".to_string()))),
        (200, "key: `name`: Field(\"ann\")".to_string())
    );
}

#[test]
fn user_test_allows_only_get() {
    assert_eq!(text_of(&user_test_reply(false, Some("1".to_string()))), (405, "Method Not Allowed".to_string()));
    assert_eq!(text_of(&user_test_reply(true, Some("1".to_string()))), (200, "TEST user id: 1".to_string()));
    assert_eq!(text_of(&user_test_reply(true, None)), (500, "Error".to_string()));
}

#[test]
fn async_body_echo() {
    assert_eq!(text_of(&body_text_reply("hi".to_string())), (200, "Request body: hi".to_string()));
}

#[test]
fn two_statuses() {
    assert_eq!(
        text_of(&two_statuses_reply(200, 404)),
        (200, "received responses with codes 200 and 404".to_string())
    );
}

#[test]
fn proxy_drops_the_leading_slash() {
    assert_eq!(proxy_url("/https://example.com/a"), Some("https://example.com/a".to_string()));
    assert_eq!(proxy_url("/"), Some(String::new()));
    assert_eq!(proxy_url("https://x"), None);
    assert_eq!(proxy_url(""), None);
}

#[test]
fn user_id_defaults_to_not_found() {
    assert_eq!(user_id_or_default(Some("7".to_string())), "7");
    assert_eq!(user_id_or_default(None), "not found");
}

#[test]
fn classic_outbound_and_bindings() {
    let (a, b) = fetch_targets();
    assert!(a.method == OutboundMethod::Post && a.url == "https://example.com");
    assert!(b.method == OutboundMethod::Get && b.url == "https://example.com");
    let c = durable_call();
    assert_eq!(c.binding, "COUNTER");
    assert!(matches!(c.id, StubId::Named(ref n) if n == "A"));
    assert!(matches!(c.target, StubTarget::Url(ref u) if u == "/"));
    assert!(matches!(c.on_missing, MissingBinding::Propagate));
    assert_eq!(kv_entry(), ("another-key".to_string(), "another-value".to_string()));
}
