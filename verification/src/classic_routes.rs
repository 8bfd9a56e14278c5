//! The routes of the first sandbox worker, which answers with plain text.
use crate::decimal::{decimal, push_decimal};
use crate::durable::{MissingBinding, StubCall, StubId, StubTarget};
use crate::reply::{option_text, Reply};
use crate::routes::{account_or_default, Outbound, OutboundMethod};
use vstd::prelude::*;

verus! {

/// Answers `GET /request`.
pub fn hello_reply() -> (r: Reply)
    ensures
        r.is_text(200, "hello, world."@),
{
    Reply::text(200, "hello, world.".to_owned())
}

/// Answers `/formdata-name`: 400 when the form has no `name` field, else
/// the written form of that field's entry.
pub fn formdata_name_reply(entry: Option<String>) -> (r: Reply)
    ensures
        entry matches Some(e) ==> r.is_text(200, "key: `name`: "@ + e@),
        entry is None ==> r.is_text(400, "Bad Request"@),
{
    match entry {
        Some(e) => {
            let mut text = "key: `name`: ".to_owned();
            text.append(e.as_str());
            Reply::text(200, text)
        },
        None => Reply::text(400, "Bad Request".to_owned()),
    }
}

/// Answers `/user/:id/test`: only `GET` is allowed; the id is echoed when
/// the route gave one.
pub fn user_test_reply(is_get: bool, id: Option<String>) -> (r: Reply)
    ensures
        !is_get ==> r.is_text(405, "Method Not Allowed"@),
        is_get && id is Some ==> r.is_text(200, "TEST user id: "@ + option_text(id).unwrap()),
        is_get && id is None ==> r.is_text(500, "Error"@),
{
    if !is_get {
        return Reply::text(405, "Method Not Allowed".to_owned());
    }
    match id {
        Some(i) => {
            let mut text = "TEST user id: ".to_owned();
            text.append(i.as_str());
            Reply::text(200, text)
        },
        None => Reply::text(500, "Error".to_owned()),
    }
}

/// Answers `/async` with the request's body text.
pub fn body_text_reply(body: String) -> (r: Reply)
    ensures
        r.is_text(200, "Request body: "@ + body@),
{
    let mut text = "Request body: ".to_owned();
    text.append(body.as_str());
    Reply::text(200, text)
}

/// Answers `/fetch` once both outbound requests were answered.
pub fn two_statuses_reply(first: u16, second: u16) -> (r: Reply)
    ensures
        r.is_text(
            200,
            "received responses with codes "@ + decimal(first as nat) + " and "@ + decimal(second as nat),
        ),
{
    let mut text = "received responses with codes ".to_owned();
    push_decimal(&mut text, first as u64);
    text.append(" and ");
    push_decimal(&mut text, second as u64);
    Reply::text(200, text)
}

/// The URL `/proxy_request/*url` forwards to: the captured path without its
/// leading `/`, or nothing when it has none.
pub fn proxy_url(captured: &str) -> (r: Option<String>)
    ensures
        captured@.len() > 0 && captured@[0] == '/' ==> (r matches Some(u) && u@ == captured@.drop_first()),
        !(captured@.len() > 0 && captured@[0] == '/') ==> r is None,
{
    let n: usize = captured.unicode_len();
    if n > 0 && captured.get_char(0) == '/' {
        let rest = captured.substring_char(1, n);
        assert(rest@ =~= captured@.drop_first());
        Some(rest.to_owned())
    } else {
        None
    }
}

/// The id `/user/:id` reports: the captured id, or "not found".
pub fn user_id_or_default(id: Option<String>) -> (r: String)
    ensures
        r@ == account_or_default(option_text(id)),
        id matches Some(i) ==> r@ == i@,
        id is None ==> r@ == "not found"@,
{
    match id {
        Some(i) => i,
        None => "not found".to_owned(),
    }
}

/// The two requests `/fetch` sends: a `POST` and a `GET` to the example site.
pub fn fetch_targets() -> (r: (Outbound, Outbound))
    ensures
        r.0.method == OutboundMethod::Post,
        r.0.url@ == "https://example.com"@,
        r.1.method == OutboundMethod::Get,
        r.1.url@ == "https://example.com"@,
{
    (
        Outbound { method: OutboundMethod::Post, url: "https://example.com".to_owned() },
        Outbound { method: OutboundMethod::Get, url: "https://example.com".to_owned() },
    )
}

/// How `/durable` reaches the counter: the object named "A" in the `COUNTER`
/// namespace, fetched at `/`.
pub fn durable_call() -> (c: StubCall)
    ensures
        c.binding@ == "COUNTER"@,
        c.id matches StubId::Named(n) && n@ == "A"@,
        c.target matches StubTarget::Url(u) && u@ == "/"@,
        c.on_missing is Propagate,
{
    StubCall {
        binding: "COUNTER".to_owned(),
        id: StubId::Named("A".to_owned()),
        target: StubTarget::Url("/".to_owned()),
        on_missing: MissingBinding::Propagate,
    }
}

/// The entry `/kv` stores.
pub fn kv_entry() -> (r: (String, String))
    ensures
        r.0@ == "another-key"@,
        r.1@ == "another-value"@,
{
    ("another-key".to_owned(), "another-value".to_owned())
}

} // verus!
