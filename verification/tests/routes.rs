use http::HeaderMap;
use worker_sandbox::decimal::{decimal_string, parse_u64, push_signed_decimal};
use worker_sandbox::headers::has_header_room;
use worker_sandbox::reply::{Body, Reply};
use worker_sandbox::routes::{
    api_data_reply, binding_value_reply, body_reply, cancelled_fetch_target, catchall_reply,
    create_zone_reply, echo_body_reply, echo_headers, fetch_error_reply, fetch_target,
    fetched_status_reply, handle_a_request, kv_entry, kv_list_reply, list_zones_reply,
    proxy_target, put_root_reply, reversed_title, teapot_reply, todo_target, user_test_reply,
    wait_step, waited_reply, ApiData, OutboundMethod, WaitStep,
};

fn text_of(r: &Reply) -> &str {
    match &r.body {
        Body::Text(s) => s.as_str(),
        _ => panic!("not a text body"),
    }
}

#[test]
fn request_summary_names_path_place_and_region() {
    let r = handle_a_request("/request", "(1.5, -2.0)", Some("Texas".to_string()));
    assert_eq!(r.status, 200);
    assert_eq!(text_of(&r), "req at: /request, located at: (1.5, -2.0), within: Texas");
    assert!(r.headers.is_empty());
}

#[test]
fn request_summary_without_region() {
    let r = handle_a_request("/request", "(0.0, 0.0)", None);
    assert_eq!(text_of(&r), "req at: /request, located at: (0.0, 0.0), within: unknown region");
}

#[test]
fn body_and_teapot() {
    let r = body_reply();
    assert_eq!((r.status, text_of(&r)), (200, "body"));
    let t = teapot_reply();
    assert_eq!(t.status, 418);
    assert!(matches!(t.body, Body::Empty));
}

#[test]
fn headers_are_returned_with_hello_added() {
    let mut h = HeaderMap::new();
    h.append("x-one", "1".parse().unwrap());
    h.append("x-one", "2".parse().unwrap());
    assert!(has_header_room(&h));
    let r = echo_headers(h);
    assert_eq!(r.status, 200);
    assert_eq!(text_of(&r), "returned your headers to you.");
    assert_eq!(r.headers.len(), 3);
    assert_eq!(r.headers.get("hello").unwrap(), "World!");
    let ones: Vec<_> = r.headers.get_all("x-one").iter().collect();
    assert_eq!(ones, vec!["1", "2"]);
}

#[test]
fn header_room_is_bounded() {
    let mut h = HeaderMap::new();
    for _ in 0..4095 {
        h.append("x-many", "v".parse().unwrap());
    }
    assert!(has_header_room(&h));
    h.append("x-many", "v".parse().unwrap());
    assert!(!has_header_room(&h));
}

#[test]
fn echo_keeps_the_request_body() {
    let r = echo_body_reply();
    assert_eq!(r.status, 200);
    assert!(matches!(r.body, Body::Incoming));
}

#[test]
fn fetched_status_is_written_in_decimal() {
    let r = fetched_status_reply(200);
    assert_eq!(text_of(&r), "received response with status code 200");
    let r = fetched_status_reply(7);
    assert_eq!(text_of(&r), "received response with status code 7");
}

#[test]
fn cancelled_fetch_error_is_the_body() {
    let r = fetch_error_reply("The operation was aborted".to_string());
    assert_eq!((r.status, text_of(&r)), (200, "The operation was aborted"));
}

#[test]
fn wait_sleeps_for_a_number() {
    match wait_step("1500") {
        WaitStep::Sleep(ms) => assert_eq!(ms, 1500),
        WaitStep::Answer(_) => panic!("should sleep"),
    }
    match wait_step("+7") {
        WaitStep::Sleep(ms) => assert_eq!(ms, 7),
        WaitStep::Answer(_) => panic!("should sleep"),
    }
    let r = waited_reply();
    assert_eq!((r.status, text_of(&r)), (200, "Waited!"));
}

#[test]
fn wait_refuses_what_is_not_a_number() {
    for bad in ["", "+", "-1", "12a", "abc", " 5", "18446744073709551616"] {
        match wait_step(bad) {
            WaitStep::Answer(r) => assert_eq!((r.status, text_of(&r)), (400, "invalid delay")),
            WaitStep::Sleep(_) => panic!("{bad} should be refused"),
        }
    }
}

#[test]
fn parse_agrees_with_std() {
    for s in ["0", "007", "+42", "18446744073709551615", "18446744073709551616", "", "+", "-0", "1_000", "٣"] {
        assert_eq!(parse_u64(s), s.parse::<u64>().ok(), "{s}");
    }
}

#[test]
fn decimal_agrees_with_display() {
    for n in [0u64, 9, 10, 99, 100, 12345, u64::MAX] {
        assert_eq!(decimal_string(n), n.to_string());
    }
    for n in [0i32, -1, 5, -120, i32::MIN, i32::MAX] {
        let mut s = String::new();
        push_signed_decimal(&mut s, n);
        assert_eq!(s, n.to_string());
    }
}

#[test]
fn user_test_echoes_the_id() {
    let r = user_test_reply(Some("42".to_string()));
    assert_eq!((r.status, text_of(&r)), (200, "TEST user id: 42"));
    let r = user_test_reply(None);
    assert_eq!((r.status, text_of(&r)), (500, "error"));
}

#[test]
fn zone_answers() {
    let r = create_zone_reply(Some("acc".to_string()));
    assert_eq!(text_of(&r), "Create new zone for Account: acc");
    let r = create_zone_reply(None);
    assert_eq!(text_of(&r), "Create new zone for Account: not found");
    let r = list_zones_reply(Some("acc".to_string()));
    assert_eq!(text_of(&r), "Account id: acc..... You get a zone, you get a zone!");
    let r = list_zones_reply(None);
    assert_eq!(text_of(&r), "Account id: not found..... You get a zone, you get a zone!");
}

#[test]
fn todo_summary() {
    let data = ApiData { user_id: 1, title: "delectus aut autem".to_string(), completed: false };
    let r = api_data_reply(&data);
    assert_eq!(
        text_of(&r),
        "API Returned user: 1 with title: delectus aut autem and completed: false"
    );
    let data = ApiData { user_id: -3, title: String::new(), completed: true };
    assert_eq!(text_of(&api_data_reply(&data)), "API Returned user: -3 with title:  and completed: true");
}

#[test]
fn title_is_reversed_bytewise() {
    assert_eq!(reversed_title("abc"), b"cba".to_vec());
    assert_eq!(reversed_title(""), Vec::<u8>::new());
    assert_eq!(reversed_title("é"), vec![0xa9, 0xc3]);
}

#[test]
fn kv_stores_only_a_full_pair() {
    let kv = kv_entry(Some("k".to_string()), Some("v".to_string()));
    assert_eq!(kv, Some(("k".to_string(), "v".to_string())));
    assert_eq!(kv_entry(Some("k".to_string()), None), None);
    assert_eq!(kv_entry(None, Some("v".to_string())), None);
    let r = kv_list_reply("{\"keys\":[]}".to_string());
    assert_eq!(r.status, 200);
    assert_eq!(r.headers.get("content-type").unwrap(), "application/json");
    assert_eq!(text_of(&r), "{\"keys\":[]}");
}

#[test]
fn put_root_sets_the_testing_header() {
    let r = put_root_reply();
    assert_eq!(r.status, 200);
    assert_eq!(r.headers.len(), 1);
    assert_eq!(r.headers.get("x-testing").unwrap(), "123");
    assert!(matches!(r.body, Body::Empty));
}

#[test]
fn catchall_is_not_found() {
    let r = catchall_reply("nope/here".to_string());
    assert_eq!((r.status, text_of(&r)), (404, "nope/here"));
}

#[test]
fn bindings_are_answered_as_text() {
    let r = binding_value_reply("shh".to_string());
    assert_eq!((r.status, text_of(&r)), (200, "shh"));
}

#[test]
fn outbound_targets() {
    let f = fetch_target();
    assert!(f.method == OutboundMethod::Post);
    assert_eq!(f.url, "https://example.com");
    let c = cancelled_fetch_target();
    assert!(c.method == OutboundMethod::Get);
    assert_eq!(c.url, "https://cloudflare.com");
    assert_eq!(todo_target().url, "https://jsonplaceholder.typicode.com/todos/1");
    assert_eq!(
        proxy_target().url,
        "https://developer.mozilla.org/en-US/docs/Web/HTTP/Headers/Content-Encoding/contributors.txt"
    );
}
