use vstd::prelude::*;

use crate::error::RequestError;
use crate::headers::Headers;
use crate::parse::{header_token, Header, Method};
use crate::text::{byte_len, decimal_string, spec_decimal, spec_starts_with, str_eq,
    str_starts_with};

verus! {

/// The response statuses the server emits.
#[derive(Debug, Clone, Copy, PartialEq, Eq, Structural)]
pub enum Status {
    Okay,
    NotFound,
}

/// The code and reason phrase of each status, as written on the wire.
pub open spec fn status_reason(s: Status) -> Seq<char> {
    match s {
        Status::Okay => seq!['2', '0', '0', ' ', 'O', 'K'],
        Status::NotFound => seq!['4', '0', '4', ' ', 'N', 'o', 't', ' ', 'F', 'o', 'u', 'n', 'd'],
    }
}

impl Status {
    /// The status line text, e.g. `200 OK`.
    pub fn reason_phrase(&self) -> (r: &'static str)
        ensures
            r@ == status_reason(*self),
    {
        match self {
            Status::Okay => {
                proof {
                    reveal_strlit("200 OK");
                    assert("200 OK"@ =~= status_reason(Status::Okay));
                }
                "200 OK"
            },
            Status::NotFound => {
                proof {
                    reveal_strlit("404 Not Found");
                    assert("404 Not Found"@ =~= status_reason(Status::NotFound));
                }
                "404 Not Found"
            },
        }
    }
}

impl Header {
    /// The canonical spelling of the header name, e.g. `User-Agent`.
    pub fn name(&self) -> (r: &'static str)
        ensures
            r@ == header_token(*self),
    {
        match self {
            Header::UserAgent => {
                proof {
                    reveal_strlit("User-Agent");
                    assert("User-Agent"@ =~= header_token(Header::UserAgent));
                }
                "User-Agent"
            },
            Header::ContentType => {
                proof {
                    reveal_strlit("Content-Type");
                    assert("Content-Type"@ =~= header_token(Header::ContentType));
                }
                "Content-Type"
            },
            Header::ContentLength => {
                proof {
                    reveal_strlit("Content-Length");
                    assert("Content-Length"@ =~= header_token(Header::ContentLength));
                }
                "Content-Length"
            },
        }
    }
}

/// A fully formed response, built once by routing and then serialized.
#[derive(Debug)]
pub struct Response {
    pub status: Status,
    pub headers: Headers,
    pub body: String,
}

/// The path that answers with an empty success.
pub open spec fn root_path() -> Seq<char> {
    seq!['/']
}

/// The path that echoes the `User-Agent` header back.
pub open spec fn user_agent_path() -> Seq<char> {
    seq!['/', 'u', 's', 'e', 'r', '-', 'a', 'g', 'e', 'n', 't']
}

/// The prefix of paths whose suffix is echoed back.
pub open spec fn echo_prefix() -> Seq<char> {
    seq!['/', 'e', 'c', 'h', 'o', '/']
}

/// The media type of the two body-carrying routes.
pub open spec fn text_plain() -> Seq<char> {
    seq!['t', 'e', 'x', 't', '/', 'p', 'l', 'a', 'i', 'n']
}

/// Routing fails (and the connection is dropped without a response) exactly
/// when `/user-agent` is requested without a `User-Agent` header.
pub open spec fn route_fails(path: Seq<char>, h: Map<Header, Seq<char>>) -> bool {
    path == user_agent_path() && !h.contains_key(Header::UserAgent)
}

/// The status of the route that `path` selects.
pub open spec fn routed_status(path: Seq<char>) -> Status {
    if path == root_path() {
        Status::Okay
    } else if path == user_agent_path() {
        Status::Okay
    } else if spec_starts_with(path, echo_prefix()) {
        Status::Okay
    } else {
        Status::NotFound
    }
}

/// The body of the route that `path` selects: the `User-Agent` value for
/// `/user-agent`, the raw (not URL-decoded) suffix for `/echo/`, else empty.
pub open spec fn routed_body(path: Seq<char>, h: Map<Header, Seq<char>>) -> Seq<char> {
    if path == root_path() {
        Seq::<char>::empty()
    } else if path == user_agent_path() {
        h[Header::UserAgent]
    } else if spec_starts_with(path, echo_prefix()) {
        path.skip(echo_prefix().len() as int)
    } else {
        Seq::<char>::empty()
    }
}

/// The response headers of the route that `path` selects: the two
/// body-carrying routes announce `text/plain` and the exact byte length of
/// the body; the other routes emit no headers at all.
pub open spec fn routed_headers(path: Seq<char>, h: Map<Header, Seq<char>>) -> Map<
    Header,
    Seq<char>,
> {
    if path == user_agent_path() || spec_starts_with(path, echo_prefix()) {
        map![
            Header::ContentType => text_plain(),
            Header::ContentLength => spec_decimal(byte_len(routed_body(path, h))),
        ]
    } else {
        Map::<Header, Seq<char>>::empty()
    }
}

/// Pure dispatch from path and request headers to a response value.
///
/// The method is accepted but never inspected: every route answers
/// regardless of the verb, which keeps the router total over `Method`.
pub fn route(_method: Method, path: &str, headers: &Headers) -> (r: Result<
    Response,
    RequestError,
>)
    ensures
        r is Ok <==> !route_fails(path@, headers@),
        match r {
            Ok(resp) => {
                &&& resp.status == routed_status(path@)
                &&& resp.body@ == routed_body(path@, headers@)
                &&& resp.headers@ == routed_headers(path@, headers@)
            },
            Err(e) => e == RequestError::MissingRequiredHeader,
        },
{
    proof {
        reveal_strlit("/");
        reveal_strlit("/user-agent");
        reveal_strlit("/echo/");
        assert("/"@ =~= root_path());
        assert("/user-agent"@ =~= user_agent_path());
        assert("/echo/"@ =~= echo_prefix());
    }
    if str_eq(path, "/") {
        Ok(Response { status: Status::Okay, headers: Headers::new(), body: String::new() })
    } else if str_eq(path, "/user-agent") {
        match headers.get(Header::UserAgent) {
            None => Err(RequestError::MissingRequiredHeader),
            Some(ua) => {
                let body: String = ua.clone();
                let hs = content_headers(&body);
                Ok(Response { status: Status::Okay, headers: hs, body })
            },
        }
    } else if str_starts_with(path, "/echo/") {
        let suffix = path.substring_char(6, path.unicode_len());
        proof {
            assert(suffix@ =~= path@.skip(6));
        }
        let body = suffix.to_owned();
        let hs = content_headers(&body);
        Ok(Response { status: Status::Okay, headers: hs, body })
    } else {
        Ok(Response { status: Status::NotFound, headers: Headers::new(), body: String::new() })
    }
}

/// The header pair that accompanies a `text/plain` body of the given value.
fn content_headers(body: &String) -> (hs: Headers)
    ensures
        hs@ == map![
            Header::ContentType => text_plain(),
            Header::ContentLength => spec_decimal(byte_len(body@)),
        ],
{
    proof {
        reveal_strlit("text/plain");
        assert("text/plain"@ =~= text_plain());
    }
    let n: usize = body.as_str().len();
    let mut hs = Headers::new();
    hs.insert(Header::ContentType, "text/plain".to_owned());
    hs.insert(Header::ContentLength, decimal_string(n));
    proof {
        assert(hs@ =~= map![
            Header::ContentType => text_plain(),
            Header::ContentLength => spec_decimal(byte_len(body@)),
        ]);
    }
    hs
}

/// One serialized header line, `Name: value` terminated by CRLF.
pub open spec fn header_line(h: Header, v: Seq<char>) -> Seq<char> {
    header_token(h) + seq![':', ' '] + v + seq!['\r', '\n']
}

/// The serialized header block. The wire order is fixed — `Content-Type`,
/// then `Content-Length`, then `User-Agent` — though the protocol itself
/// does not constrain it.
pub open spec fn headers_wire(m: Map<Header, Seq<char>>) -> Seq<char> {
    (if m.contains_key(Header::ContentType) {
        header_line(Header::ContentType, m[Header::ContentType])
    } else {
        Seq::<char>::empty()
    }) + (if m.contains_key(Header::ContentLength) {
        header_line(Header::ContentLength, m[Header::ContentLength])
    } else {
        Seq::<char>::empty()
    }) + (if m.contains_key(Header::UserAgent) {
        header_line(Header::UserAgent, m[Header::UserAgent])
    } else {
        Seq::<char>::empty()
    })
}

/// The exact bytes a response puts on the wire: status line, header block,
/// a blank line, then the raw body with no trailing terminator.
pub open spec fn spec_serialize(status: Status, headers: Map<Header, Seq<char>>, body: Seq<
    char,
>) -> Seq<char> {
    seq!['H', 'T', 'T', 'P', '/', '1', '.', '1', ' '] + status_reason(status) + seq!['\r', '\n']
        + headers_wire(headers) + seq!['\r', '\n'] + body
}

/// Appends the serialized line of `name`, if `headers` holds it.
fn append_header_line(out: &mut String, headers: &Headers, name: Header)
    ensures
        final(out)@ == old(out)@ + (if headers@.contains_key(name) {
            header_line(name, headers@[name])
        } else {
            Seq::<char>::empty()
        }),
{
    proof {
        reveal_strlit(": ");
        reveal_strlit("\r\n");
        assert(": "@ =~= seq![':', ' ']);
        assert("\r\n"@ =~= seq!['\r', '\n']);
    }
    match headers.get(name) {
        None => {
            proof {
                assert(out@ =~= old(out)@ + Seq::<char>::empty());
            }
        },
        Some(v) => {
            out.append(name.name());
            out.append(": ");
            out.append(v.as_str());
            out.append("\r\n");
        },
    }
}

impl Response {
    /// Serializes the response into the exact wire bytes.
    pub fn serialize(&self) -> (r: String)
        ensures
            r@ == spec_serialize(self.status, self.headers@, self.body@),
    {
        proof {
            reveal_strlit("HTTP/1.1 ");
            reveal_strlit("\r\n");
            assert("HTTP/1.1 "@ =~= seq!['H', 'T', 'T', 'P', '/', '1', '.', '1', ' ']);
            assert("\r\n"@ =~= seq!['\r', '\n']);
        }
        let mut out = "HTTP/1.1 ".to_owned();
        out.append(self.status.reason_phrase());
        out.append("\r\n");
        append_header_line(&mut out, &self.headers, Header::ContentType);
        append_header_line(&mut out, &self.headers, Header::ContentLength);
        append_header_line(&mut out, &self.headers, Header::UserAgent);
        out.append("\r\n");
        out.append(self.body.as_str());
        proof {
            assert(out@ =~= spec_serialize(self.status, self.headers@, self.body@));
        }
        out
    }
}

} // verus!
