use crate::decimal::{decimal, parse_u64, parsed_u64, push_decimal, push_signed_decimal, signed_decimal};
use crate::headers::{
    append_header, ascii_bytes, header_entries, valid_header_name, valid_header_value, MAX_HEADERS,
};
use crate::reply::{option_text, Body, Reply};
use http::HeaderMap;
use vstd::multiset::Multiset;
use vstd::prelude::*;
use vstd::string::StringSliceAdditionalSpecFns;

verus! {

/// What the request summary says of a request: its path, where it was
/// received from and within which region.
pub open spec fn request_summary(path: Seq<char>, coordinates: Seq<char>, region: Option<Seq<char>>) -> Seq<char> {
    let within = match region {
        Some(r) => r,
        None => "unknown region"@,
    };
    "req at: "@ + path + ", located at: "@ + coordinates + ", within: "@ + within
}

/// Answers `GET /request`: where the request went and where it came from.
/// `coordinates` is the written form of the latitude and longitude pair the
/// edge reported (zero, zero when it reported none); `region` the region it
/// reported, if any.
pub fn handle_a_request(path: &str, coordinates: &str, region: Option<String>) -> (r: Reply)
    ensures
        r.is_text(200, request_summary(path@, coordinates@, option_text(region))),
        region matches Some(g) ==> r.is_text(
            200,
            "req at: "@ + path@ + ", located at: "@ + coordinates@ + ", within: "@ + g@,
        ),
        region is None ==> r.is_text(
            200,
            "req at: "@ + path@ + ", located at: "@ + coordinates@ + ", within: "@ + "unknown region"@,
        ),
{
    let mut text = String::new();
    text.append("req at: ");
    text.append(path);
    text.append(", located at: ");
    text.append(coordinates);
    text.append(", within: ");
    match &region {
        Some(name) => text.append(name.as_str()),
        None => text.append("unknown region"),
    }
    assert(text@ =~= request_summary(path@, coordinates@, option_text(region)));
    Reply::text(200, text)
}

/// Answers `GET /body`.
pub fn body_reply() -> (r: Reply)
    ensures
        r.is_text(200, "body"@),
{
    Reply::text(200, "body".to_owned())
}

/// Answers `GET /status-code`: "I'm a teapot" with an empty body.
pub fn teapot_reply() -> (r: Reply)
    ensures
        r.is_plain(418, Body::Empty),
{
    Reply::plain(418, Body::Empty)
}

/// Answers `POST /headers`: the request's own headers, with `hello: World!`
/// added to them.
pub fn echo_headers(headers: HeaderMap) -> (r: Reply)
    requires
        header_entries(headers).len() < MAX_HEADERS,
    ensures
        r.status == 200,
        header_entries(r.headers) == header_entries(headers).insert(
            (seq!['h', 'e', 'l', 'l', 'o'], ascii_bytes("World!"@)),
        ),
        r.body matches Body::Text(s) && s@ == "returned your headers to you."@,
{
    let mut headers = headers;
    let name = "Hello";
    let value = "World!";
    proof {
        reveal_strlit("Hello");
        reveal_strlit("World!");
        assert(valid_header_name(name@));
        assert(valid_header_value(value@));
    }
    append_header(&mut headers, name, value);
    proof {
        assert(crate::headers::lower_name(name@) =~= seq!['h', 'e', 'l', 'l', 'o']);
    }
    Reply { status: 200, headers, body: Body::Text("returned your headers to you.".to_owned()) }
}

/// Answers `POST /echo`: the request's body, handed back.
pub fn echo_body_reply() -> (r: Reply)
    ensures
        r.is_plain(200, Body::Incoming),
{
    Reply::plain(200, Body::Incoming)
}

/// Answers `GET /fetch` once the outbound request was answered with `status`.
pub fn fetched_status_reply(status: u16) -> (r: Reply)
    ensures
        r.is_text(200, "received response with status code "@ + decimal(status as nat)),
{
    let mut text = "received response with status code ".to_owned();
    push_decimal(&mut text, status as u64);
    Reply::text(200, text)
}

/// Answers `GET /fetch-cancelled` when the aborted fetch failed with `message`.
pub fn fetch_error_reply(message: String) -> (r: Reply)
    ensures
        r.is_text(200, message@),
{
    Reply::text(200, message)
}

/// What `GET /wait/:delay` does first.
pub enum WaitStep {
    /// Sleep this many milliseconds, then answer with `waited_reply`.
    Sleep(u64),
    /// Answer at once.
    Answer(Reply),
}

/// Starts `GET /wait/:delay`: a delay that reads as a number of milliseconds
/// is slept through; anything else is refused with 400.
pub fn wait_step(delay: &str) -> (step: WaitStep)
    ensures
        parsed_u64(delay@) matches Some(ms) ==> step == WaitStep::Sleep(ms),
        parsed_u64(delay@) is None ==> (step matches WaitStep::Answer(r) && r.is_text(400, "invalid delay"@)),
{
    match parse_u64(delay) {
        Some(ms) => WaitStep::Sleep(ms),
        None => WaitStep::Answer(Reply::text(400, "invalid delay".to_owned())),
    }
}

/// Answers `GET /wait/:delay` once the delay has passed.
pub fn waited_reply() -> (r: Reply)
    ensures
        r.is_text(200, "Waited!"@),
{
    Reply::text(200, "Waited!".to_owned())
}

/// Answers `GET /user/:id/test`.
pub fn user_test_reply(id: Option<String>) -> (r: Reply)
    ensures
        id matches Some(i) ==> r.is_text(200, "TEST user id: "@ + i@),
        id is None ==> r.is_text(500, "error"@),
{
    match id {
        Some(i) => {
            let mut text = "TEST user id: ".to_owned();
            text.append(i.as_str());
            Reply::text(200, text)
        },
        None => Reply::text(500, "error".to_owned()),
    }
}

/// The account id as written in the zone answers.
pub open spec fn account_or_default(id: Option<Seq<char>>) -> Seq<char> {
    match id {
        Some(i) => i,
        None => "not found"@,
    }
}

fn push_account(text: &mut String, id: &Option<String>)
    ensures
        final(text)@ == old(text)@ + account_or_default(option_text(*id)),
        id matches Some(i) ==> final(text)@ == old(text)@ + i@,
        id is None ==> final(text)@ == old(text)@ + "not found"@,
{
    match id {
        Some(i) => text.append(i.as_str()),
        None => text.append("not found"),
    }
}

/// Answers `POST /account/:id/zones`.
pub fn create_zone_reply(id: Option<String>) -> (r: Reply)
    ensures
        r.is_text(200, "Create new zone for Account: "@ + account_or_default(option_text(id))),
        id matches Some(i) ==> r.is_text(200, "Create new zone for Account: "@ + i@),
        id is None ==> r.is_text(200, "Create new zone for Account: "@ + "not found"@),
{
    let mut text = "Create new zone for Account: ".to_owned();
    push_account(&mut text, &id);
    Reply::text(200, text)
}

/// Answers `GET /account/:id/zones`.
pub fn list_zones_reply(id: Option<String>) -> (r: Reply)
    ensures
        r.is_text(
            200,
            "Account id: "@ + account_or_default(option_text(id))
                + "..... You get a zone, you get a zone!"@,
        ),
        id matches Some(i) ==> r.is_text(200, "Account id: "@ + i@ + "..... You get a zone, you get a zone!"@),
        id is None ==> r.is_text(
            200,
            "Account id: "@ + "not found"@ + "..... You get a zone, you get a zone!"@,
        ),
{
    let mut text = "Account id: ".to_owned();
    push_account(&mut text, &id);
    text.append("..... You get a zone, you get a zone!");
    Reply::text(200, text)
}

/// A to-do item as the JSON placeholder service describes it.
pub struct ApiData {
    pub user_id: i32,
    pub title: String,
    pub completed: bool,
}

/// How `Display` writes a `bool`.
pub open spec fn bool_text(b: bool) -> Seq<char> {
    if b {
        "true"@
    } else {
        "false"@
    }
}

/// Appends the written form of `b` to `out`.
pub fn push_bool(out: &mut String, b: bool)
    ensures
        final(out)@ == old(out)@ + bool_text(b),
{
    if b {
        out.append("true");
    } else {
        out.append("false");
    }
}

/// What the summary of a fetched to-do item says.
pub open spec fn api_data_summary(data: ApiData) -> Seq<char> {
    "API Returned user: "@ + signed_decimal(data.user_id as int) + " with title: "@ + data.title@
        + " and completed: "@ + bool_text(data.completed)
}

/// Answers `GET /fetch_json` once the to-do item has been fetched and read.
pub fn api_data_reply(data: &ApiData) -> (r: Reply)
    ensures
        r.is_text(200, api_data_summary(*data)),
        r.is_text(
            200,
            "API Returned user: "@ + signed_decimal(data.user_id as int) + " with title: "@ + data.title@
                + " and completed: "@ + (if data.completed { "true"@ } else { "false"@ }),
        ),
{
    let mut text = "API Returned user: ".to_owned();
    push_signed_decimal(&mut text, data.user_id);
    text.append(" with title: ");
    text.append(data.title.as_str());
    text.append(" and completed: ");
    push_bool(&mut text, data.completed);
    assert(text@ =~= api_data_summary(*data));
    Reply::text(200, text)
}

/// The bytes of `title` in reverse order, as `POST /api-data` writes the
/// title back.
pub fn reversed_title(title: &str) -> (r: Vec<u8>)
    ensures
        r@ == title.spec_bytes().reverse(),
{
    let bytes = title.as_bytes();
    let n: usize = bytes.len();
    let mut out: Vec<u8> = Vec::new();
    let mut i: usize = n;
    while i > 0
        invariant
            i <= n,
            n == bytes@.len(),
            bytes@ == title.spec_bytes(),
            out@ =~= bytes@.subrange(i as int, n as int).reverse(),
        decreases i,
    {
        i = i - 1;
        out.push(bytes[i]);
        assert(out@ =~= bytes@.subrange(i as int, n as int).reverse());
    }
    out
}

/// The key and value `POST /kv/:key/:value` stores: both, when both were given.
pub fn kv_entry(key: Option<String>, value: Option<String>) -> (r: Option<(String, String)>)
    ensures
        r matches Some(kv) ==> key == Some(kv.0) && value == Some(kv.1),
        r is None <==> (key is None || value is None),
{
    match (key, value) {
        (Some(k), Some(v)) => Some((k, v)),
        _ => None,
    }
}

/// Answers `POST /kv/:key/:value` with the JSON listing of the namespace.
pub fn kv_list_reply(listing: String) -> (r: Reply)
    ensures
        r.status == 200,
        header_entries(r.headers) == Multiset::<(Seq<char>, Seq<u8>)>::empty().insert(
            ("content-type"@, ascii_bytes("application/json"@)),
        ),
        r.body matches Body::Text(s) && s@ == listing@,
{
    let mut headers = crate::headers::empty_headers();
    let name = "content-type";
    let value = "application/json";
    proof {
        reveal_strlit("content-type");
        reveal_strlit("application/json");
        assert(valid_header_name(name@));
        assert(valid_header_value(value@));
        assert(crate::headers::lower_name(name@) =~= name@);
    }
    append_header(&mut headers, name, value);
    Reply { status: 200, headers, body: Body::Text(listing) }
}


/// Answers `PUT /`: an empty body under the header `x-testing: 123`.
pub fn put_root_reply() -> (r: Reply)
    ensures
        r.status == 200,
        header_entries(r.headers) == Multiset::<(Seq<char>, Seq<u8>)>::empty().insert(
            ("x-testing"@, ascii_bytes("123"@)),
        ),
        r.body == Body::Empty,
{
    let mut headers = crate::headers::empty_headers();
    let name = "x-testing";
    let value = "123";
    proof {
        reveal_strlit("x-testing");
        reveal_strlit("123");
        assert(valid_header_name(name@));
        assert(valid_header_value(value@));
        assert(crate::headers::lower_name(name@) =~= name@);
    }
    append_header(&mut headers, name, value);
    Reply { status: 200, headers, body: Body::Empty }
}

/// Answers any request no other route took: 404, with the unmatched path as body.
pub fn catchall_reply(path: String) -> (r: Reply)
    ensures
        r.is_text(404, path@),
{
    Reply::text(404, path)
}

/// Answers `GET /secret` and `GET /var` with the value the environment holds.
pub fn binding_value_reply(value: String) -> (r: Reply)
    ensures
        r.is_text(200, value@),
{
    Reply::text(200, value)
}

/// The method of an outbound request.
#[derive(PartialEq, Eq, Structural)]
pub enum OutboundMethod {
    Get,
    Post,
}

/// A request this worker sends out: method and URL, with an empty body.
pub struct Outbound {
    pub method: OutboundMethod,
    pub url: String,
}

/// The request `GET /fetch` sends.
pub fn fetch_target() -> (o: Outbound)
    ensures
        o.method == OutboundMethod::Post,
        o.url@ == "https://example.com"@,
{
    Outbound { method: OutboundMethod::Post, url: "https://example.com".to_owned() }
}

/// The request `GET /fetch-cancelled` sends and then aborts.
pub fn cancelled_fetch_target() -> (o: Outbound)
    ensures
        o.method == OutboundMethod::Get,
        o.url@ == "https://cloudflare.com"@,
{
    Outbound { method: OutboundMethod::Get, url: "https://cloudflare.com".to_owned() }
}

/// The request `GET /fetch_json` sends to read a to-do item.
pub fn todo_target() -> (o: Outbound)
    ensures
        o.method == OutboundMethod::Get,
        o.url@ == "https://jsonplaceholder.typicode.com/todos/1"@,
{
    Outbound {
        method: OutboundMethod::Get,
        url: "https://jsonplaceholder.typicode.com/todos/1".to_owned(),
    }
}

/// The request `GET /proxy_request` forwards; its answer is handed back as it came.
pub fn proxy_target() -> (o: Outbound)
    ensures
        o.method == OutboundMethod::Get,
        o.url@
            == "https://developer.mozilla.org/en-US/docs/Web/HTTP/Headers/Content-Encoding/contributors.txt"@,
{
    Outbound {
        method: OutboundMethod::Get,
        url: "https://developer.mozilla.org/en-US/docs/Web/HTTP/Headers/Content-Encoding/contributors.txt".to_owned(),
    }
}

/// The request summary ends with the whole region name: it is the summary
/// with an empty region, followed by every character of the region.
pub proof fn request_summary_keeps_region(path: Seq<char>, coordinates: Seq<char>, region: Seq<char>)
    ensures
        request_summary(path, coordinates, Some(region))
            == "req at: "@ + path + ", located at: "@ + coordinates + ", within: "@ + region,
        request_summary(path, coordinates, Some(region))
            == request_summary(path, coordinates, Some(Seq::<char>::empty())) + region,
        request_summary(path, coordinates, None) == request_summary(path, coordinates, Some("unknown region"@)),
{
    assert(request_summary(path, coordinates, Some(Seq::<char>::empty()))
        =~= "req at: "@ + path + ", located at: "@ + coordinates + ", within: "@);
    assert(request_summary(path, coordinates, Some(region))
        =~= request_summary(path, coordinates, Some(Seq::<char>::empty())) + region);
}

/// A given account id is written as it is, in full; only a missing one is
/// written "not found".
pub proof fn account_text_is_the_id(id: Seq<char>)
    ensures
        account_or_default(Some(id)) == id,
        account_or_default(None) == "not found"@,
{
}

/// The to-do summary writes the whole title, in the same place, whatever the
/// item's completion: the title follows "API Returned user: ", the user id
/// and " with title: ", and the flag is written last.
pub proof fn api_data_summary_writes_title(data: ApiData)
    ensures
        api_data_summary(data) == "API Returned user: "@ + signed_decimal(data.user_id as int) + " with title: "@
            + data.title@ + " and completed: "@ + (if data.completed { "true"@ } else { "false"@ }),
        ({
            let start = ("API Returned user: "@ + signed_decimal(data.user_id as int) + " with title: "@).len();
            api_data_summary(data).subrange(start as int, (start + data.title@.len()) as int) == data.title@
        }),
{
    let head = "API Returned user: "@ + signed_decimal(data.user_id as int) + " with title: "@;
    let tail = " and completed: "@ + bool_text(data.completed);
    assert(api_data_summary(data) =~= head + data.title@ + tail);
    assert((head + data.title@ + tail).subrange(head.len() as int, (head.len() + data.title@.len()) as int) =~= data.title@);
}

} // verus!
