use sthp::frontend::{decide_request, RequestDecision};

#[test]
fn connect_opens_tunnel() {
    assert_eq!(decide_request(b"CONNECT"), RequestDecision::OpenTunnel);
}

#[test]
fn other_methods_get_empty_success() {
    assert_eq!(decide_request(b"GET"), RequestDecision::EmptyOk);
    assert_eq!(decide_request(b"POST"), RequestDecision::EmptyOk);
    assert_eq!(decide_request(b"HEAD"), RequestDecision::EmptyOk);
    assert_eq!(decide_request(b"OPTIONS"), RequestDecision::EmptyOk);
    assert_eq!(decide_request(b""), RequestDecision::EmptyOk);
}

#[test]
fn near_matches_do_not_open_a_tunnel() {
    assert_eq!(decide_request(b"connect"), RequestDecision::EmptyOk);
    assert_eq!(decide_request(b"CONNECTX"), RequestDecision::EmptyOk);
    assert_eq!(decide_request(b"CONNEC"), RequestDecision::EmptyOk);
}
