use http_wire::error::ParseError;
use http_wire::parse::{parse_header_value, Header, Method, RequestLine};

#[test]
fn test_parse_method() {
    let data = "GET / HTTP/1.1\r\n";
    let result = Method::parse(data);

    assert!(matches!(result, Ok((_, Method::GET))));
}

#[test]
fn test_parse_request_line() {
    let data = "GET / HTTP/1.1\r\n\r\n";
    let result = RequestLine::parse(data);

    let (rest, request) = result.expect("parse request");

    // Everything should be consumed
    assert_eq!(rest, "");

    assert!(matches!(request.method, Method::GET));
    assert_eq!(request.path, "/".to_owned());
}

#[test]
fn all_four_methods_parse_and_consume_their_token() {
    let (rest, m) = Method::parse("GET / HTTP/1.1").unwrap();
    assert!(matches!(m, Method::GET));
    assert_eq!(rest, " / HTTP/1.1");

    let (rest, m) = Method::parse("POST /form HTTP/1.1").unwrap();
    assert!(matches!(m, Method::POST));
    assert_eq!(rest, " /form HTTP/1.1");

    let (rest, m) = Method::parse("PUT /x HTTP/1.1").unwrap();
    assert!(matches!(m, Method::PUT));
    assert_eq!(rest, " /x HTTP/1.1");

    let (rest, m) = Method::parse("DELETE /x HTTP/1.1").unwrap();
    assert!(matches!(m, Method::DELETE));
    assert_eq!(rest, " /x HTTP/1.1");
}

#[test]
fn unknown_method_token_fails() {
    assert_eq!(Method::parse("PATCH /x HTTP/1.1"), Err(ParseError::NoMatch));
    assert_eq!(Method::parse("HEAD / HTTP/1.1"), Err(ParseError::NoMatch));
    assert_eq!(Method::parse("get / HTTP/1.1"), Err(ParseError::NoMatch));
}

#[test]
fn truncated_method_token_is_incomplete() {
    assert_eq!(Method::parse(""), Err(ParseError::Incomplete));
    assert_eq!(Method::parse("GE"), Err(ParseError::Incomplete));
    assert_eq!(Method::parse("DELET"), Err(ParseError::Incomplete));
}

#[test]
fn request_line_without_space_after_method_is_malformed() {
    assert_eq!(
        RequestLine::parse("GET/ HTTP/1.1").err(),
        Some(ParseError::MalformedRequestLine)
    );
}

#[test]
fn request_line_with_empty_path_token_is_malformed() {
    assert_eq!(
        RequestLine::parse("GET  HTTP/1.1").err(),
        Some(ParseError::MalformedRequestLine)
    );
}

#[test]
fn request_line_cut_short_is_incomplete() {
    assert_eq!(RequestLine::parse("GET").err(), Some(ParseError::Incomplete));
    assert_eq!(RequestLine::parse("GET ").err(), Some(ParseError::Incomplete));
    assert_eq!(RequestLine::parse("GET /abc").err(), Some(ParseError::Incomplete));
}

#[test]
fn request_line_path_stops_at_first_space() {
    let (_, request) = RequestLine::parse("POST /a/b/c HTTP/1.1").unwrap();
    assert!(matches!(request.method, Method::POST));
    assert_eq!(request.path, "/a/b/c");
}

#[test]
fn recognized_header_lines_split_into_name_and_value() {
    let (rest, (h, v)) = parse_header_value("User-Agent: curl/8.0").unwrap();
    assert_eq!(rest, "");
    assert!(matches!(h, Header::UserAgent));
    assert_eq!(v, "curl/8.0");

    let (_, (h, v)) = parse_header_value("Content-Type: text/plain").unwrap();
    assert!(matches!(h, Header::ContentType));
    assert_eq!(v, "text/plain");

    let (_, (h, v)) = parse_header_value("Content-Length: 42").unwrap();
    assert!(matches!(h, Header::ContentLength));
    assert_eq!(v, "42");
}

#[test]
fn unrecognized_header_name_does_not_match() {
    assert_eq!(parse_header_value("X-Custom: whatever").err(), Some(ParseError::NoMatch));
    assert_eq!(parse_header_value("user-agent: x").err(), Some(ParseError::NoMatch));
}

#[test]
fn header_line_without_separator_does_not_match() {
    assert_eq!(parse_header_value("User-Agent:x").err(), Some(ParseError::NoMatch));
    assert_eq!(parse_header_value("User-Agent x").err(), Some(ParseError::NoMatch));
}

#[test]
fn header_line_cut_short_is_incomplete() {
    assert_eq!(parse_header_value("User-Agen").err(), Some(ParseError::Incomplete));
    assert_eq!(parse_header_value("User-Agent").err(), Some(ParseError::Incomplete));
    assert_eq!(parse_header_value("User-Agent:").err(), Some(ParseError::Incomplete));
}
