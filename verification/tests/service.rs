use hello_service::response::index;
use hello_service::response::MyResponse;
use hello_service::routing::handle_request;
use hello_service::text::str_eq;

#[test]
fn post_root_empty_body_returns_hello() {
    let r = handle_request("POST", "/", b"").expect("POST / must be answered");
    assert_eq!(r.status, 200);
    assert_eq!(r.content_type, "vmlx/data; charset=utf-8");
    assert_eq!(r.body, "Hello from MyResponse!");
}

#[test]
fn post_root_json_body_same_response() {
    let json = b"{\"key\": [1, 2, 3], \"nested\": {\"flag\": null}}";
    let r = handle_request("POST", "/", json).expect("POST / must be answered");
    assert_eq!(r.status, 200);
    assert_eq!(r.content_type, "vmlx/data; charset=utf-8");
    assert_eq!(r.body, "Hello from MyResponse!");
}

#[test]
fn repeated_requests_identical() {
    let first = handle_request("POST", "/", b"one").expect("POST / must be answered");
    let second = handle_request("POST", "/", b"one").expect("POST / must be answered");
    assert_eq!(first.status, second.status);
    assert_eq!(first.content_type, second.content_type);
    assert_eq!(first.body, second.body);
}

#[test]
fn get_root_left_to_default() {
    assert!(handle_request("GET", "/", b"").is_none());
}

#[test]
fn other_methods_left_to_default() {
    assert!(handle_request("PUT", "/", b"").is_none());
    assert!(handle_request("DELETE", "/", b"").is_none());
    assert!(handle_request("post", "/", b"").is_none());
}

#[test]
fn other_paths_left_to_default() {
    assert!(handle_request("POST", "/other", b"").is_none());
    assert!(handle_request("POST", "", b"").is_none());
    assert!(handle_request("POST", "//", b"").is_none());
}

#[test]
fn index_builds_greeting() {
    let payload = index();
    assert_eq!(payload.message, "Hello from MyResponse!");
}

#[test]
fn respond_to_keeps_message() {
    let payload = MyResponse { message: String::from("another body") };
    let reply = payload.respond_to();
    assert_eq!(reply.status, 200);
    assert_eq!(reply.content_type, "vmlx/data; charset=utf-8");
    assert_eq!(reply.body, "another body");
}

#[test]
fn str_eq_exact_match_only() {
    assert!(str_eq("POST", "POST"));
    assert!(!str_eq("POST", "GET"));
    assert!(!str_eq("POST", "POS"));
    assert!(!str_eq("POS", "POST"));
    assert!(!str_eq("POST", "post"));
    assert!(str_eq("", ""));
    assert!(str_eq("p\u{00e4}th/\u{20ac}", "p\u{00e4}th/\u{20ac}"));
    assert!(!str_eq("p\u{00e4}th", "path"));
}
