use http_wire::error::RequestError;
use http_wire::handler::{handle_request, parse_header_block};
use http_wire::headers::Headers;
use http_wire::parse::{Header, Method};
use http_wire::response::{route, Status};

fn lines(raw: &[&str]) -> Vec<String> {
    raw.iter().map(|s| s.to_string()).collect()
}

#[test]
fn routing_root_yields_ok_empty_headers_empty_body() {
    for method in [Method::GET, Method::POST, Method::PUT, Method::DELETE] {
        let mut headers = Headers::new();
        headers.insert(Header::UserAgent, "ignored".to_string());
        let resp = route(method, "/", &headers).unwrap();
        assert!(matches!(resp.status, Status::Okay));
        assert!(resp.headers.get(Header::ContentType).is_none());
        assert!(resp.headers.get(Header::ContentLength).is_none());
        assert!(resp.headers.get(Header::UserAgent).is_none());
        assert_eq!(resp.body, "");
    }
}

#[test]
fn routing_user_agent_echoes_header_value_with_exact_length() {
    let mut headers = Headers::new();
    headers.insert(Header::UserAgent, "foobar/1.2.3".to_string());
    let resp = route(Method::GET, "/user-agent", &headers).unwrap();
    assert!(matches!(resp.status, Status::Okay));
    assert_eq!(resp.headers.get(Header::ContentType).unwrap().as_str(), "text/plain");
    assert_eq!(resp.headers.get(Header::ContentLength).unwrap().as_str(), "12");
    assert_eq!(resp.body, "foobar/1.2.3");
}

#[test]
fn routing_user_agent_without_header_is_missing_required_header() {
    let headers = Headers::new();
    let r = route(Method::GET, "/user-agent", &headers);
    assert!(matches!(r, Err(RequestError::MissingRequiredHeader)));
}

#[test]
fn routing_echo_returns_suffix_with_exact_byte_length() {
    let headers = Headers::new();

    let resp = route(Method::GET, "/echo/abc", &headers).unwrap();
    assert_eq!(resp.body, "abc");
    assert_eq!(resp.headers.get(Header::ContentLength).unwrap().as_str(), "3");

    // the suffix may be empty or hold further slashes
    let resp = route(Method::GET, "/echo/", &headers).unwrap();
    assert_eq!(resp.body, "");
    assert_eq!(resp.headers.get(Header::ContentLength).unwrap().as_str(), "0");

    let resp = route(Method::GET, "/echo/a/b/c", &headers).unwrap();
    assert_eq!(resp.body, "a/b/c");
    assert_eq!(resp.headers.get(Header::ContentLength).unwrap().as_str(), "5");

    // Content-Length counts bytes, not characters
    let resp = route(Method::GET, "/echo/é", &headers).unwrap();
    assert_eq!(resp.body, "é");
    assert_eq!(resp.headers.get(Header::ContentLength).unwrap().as_str(), "2");
}

#[test]
fn routing_echo_multi_digit_content_length() {
    let headers = Headers::new();
    let path = format!("/echo/{}", "a".repeat(120));
    let resp = route(Method::GET, &path, &headers).unwrap();
    assert_eq!(resp.headers.get(Header::ContentLength).unwrap().as_str(), "120");
    assert_eq!(resp.body.len(), 120);
}

#[test]
fn routing_unknown_paths_yields_not_found_with_empty_body() {
    let headers = Headers::new();
    for path in ["/nope", "/echo", "/user-agent/extra", "//", "/index.html"] {
        let resp = route(Method::GET, path, &headers).unwrap();
        assert!(matches!(resp.status, Status::NotFound));
        assert_eq!(resp.body, "");
        assert!(resp.headers.get(Header::ContentType).is_none());
        assert!(resp.headers.get(Header::ContentLength).is_none());
    }
}

#[test]
fn status_reason_phrases_are_exact() {
    assert_eq!(Status::Okay.reason_phrase(), "200 OK");
    assert_eq!(Status::NotFound.reason_phrase(), "404 Not Found");
}

#[test]
fn header_block_skips_unknown_lines_silently() {
    let hs = parse_header_block(&lines(&[
        "Accept: */*",
        "X-Custom: whatever",
        "User-Agent: tester",
    ]));
    assert_eq!(hs.get(Header::UserAgent).unwrap().as_str(), "tester");
    assert!(hs.get(Header::ContentType).is_none());
    assert!(hs.get(Header::ContentLength).is_none());
}

#[test]
fn header_block_stops_at_blank_line() {
    let hs = parse_header_block(&lines(&["User-Agent: a", "", "Content-Type: text/plain"]));
    assert_eq!(hs.get(Header::UserAgent).unwrap().as_str(), "a");
    assert!(hs.get(Header::ContentType).is_none());
}

#[test]
fn header_block_later_line_replaces_earlier_value() {
    let hs = parse_header_block(&lines(&["User-Agent: first", "User-Agent: second"]));
    assert_eq!(hs.get(Header::UserAgent).unwrap().as_str(), "second");
}

#[test]
fn echo_request_produces_exact_wire_bytes() {
    let out = handle_request("GET /echo/abc HTTP/1.1", &lines(&[])).unwrap();
    assert_eq!(
        out,
        "HTTP/1.1 200 OK\r\nContent-Type: text/plain\r\nContent-Length: 3\r\n\r\nabc"
    );
}

#[test]
fn unknown_path_produces_exact_not_found_bytes() {
    let out = handle_request("GET /nope HTTP/1.1", &lines(&["User-Agent: x"])).unwrap();
    assert_eq!(out, "HTTP/1.1 404 Not Found\r\n\r\n");
}

#[test]
fn user_agent_request_produces_exact_wire_bytes() {
    let out = handle_request(
        "GET /user-agent HTTP/1.1",
        &lines(&["Host: localhost", "User-Agent: foobar/1.0"]),
    )
    .unwrap();
    assert_eq!(
        out,
        "HTTP/1.1 200 OK\r\nContent-Type: text/plain\r\nContent-Length: 10\r\n\r\nfoobar/1.0"
    );
}

#[test]
fn custom_header_among_valid_ones_does_not_abort_the_request() {
    let out = handle_request(
        "GET /user-agent HTTP/1.1",
        &lines(&["X-Custom: whatever", "User-Agent: z"]),
    )
    .unwrap();
    assert_eq!(
        out,
        "HTTP/1.1 200 OK\r\nContent-Type: text/plain\r\nContent-Length: 1\r\n\r\nz"
    );
}

#[test]
fn missing_user_agent_writes_no_response() {
    let r = handle_request("GET /user-agent HTTP/1.1", &lines(&["Host: h"]));
    assert!(matches!(r, Err(RequestError::MissingRequiredHeader)));
}

#[test]
fn malformed_request_line_is_rejected() {
    let r = handle_request("BREW / HTTP/1.1", &lines(&[]));
    assert!(matches!(r, Err(RequestError::MalformedRequestLine)));

    let r = handle_request("GET", &lines(&[]));
    assert!(matches!(r, Err(RequestError::MalformedRequestLine)));
}

#[test]
fn separate_requests_share_no_state() {
    let first = handle_request(
        "GET /echo/abc HTTP/1.1",
        &lines(&["User-Agent: leaky"]),
    )
    .unwrap();
    assert_eq!(
        first,
        "HTTP/1.1 200 OK\r\nContent-Type: text/plain\r\nContent-Length: 3\r\n\r\nabc"
    );

    // a second, independent request sees nothing of the first
    let second = handle_request("GET / HTTP/1.1", &lines(&[])).unwrap();
    assert_eq!(second, "HTTP/1.1 200 OK\r\n\r\n");

    let third = handle_request("GET /user-agent HTTP/1.1", &lines(&[]));
    assert!(matches!(third, Err(RequestError::MissingRequiredHeader)));
}
