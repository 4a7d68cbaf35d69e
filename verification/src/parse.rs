use vstd::prelude::*;

use crate::error::ParseError;
use crate::text::{
    find_char, find_char_in, spec_starts_with, spec_strict_prefix_of, str_is_strict_prefix_of,
    str_starts_with,
};

verus! {

/// The four request verbs the server accepts.
#[derive(Debug, Clone, Copy, PartialEq, Eq, Structural)]
pub enum Method {
    GET,
    POST,
    PUT,
    DELETE,
}

/// The literal wire token of each method.
pub open spec fn method_token(m: Method) -> Seq<char> {
    match m {
        Method::GET => seq!['G', 'E', 'T'],
        Method::POST => seq!['P', 'O', 'S', 'T'],
        Method::PUT => seq!['P', 'U', 'T'],
        Method::DELETE => seq!['D', 'E', 'L', 'E', 'T', 'E'],
    }
}

/// The method whose token begins `s`, tried in declaration order. The four
/// tokens are prefix-disjoint, so at most one can match.
pub open spec fn method_of_prefix(s: Seq<char>) -> Option<Method> {
    if spec_starts_with(s, method_token(Method::GET)) {
        Some(Method::GET)
    } else if spec_starts_with(s, method_token(Method::POST)) {
        Some(Method::POST)
    } else if spec_starts_with(s, method_token(Method::PUT)) {
        Some(Method::PUT)
    } else if spec_starts_with(s, method_token(Method::DELETE)) {
        Some(Method::DELETE)
    } else {
        None
    }
}

/// When no token matches, the parse is incomplete rather than failed exactly
/// when the input runs out in the middle of one of the tokens.
pub open spec fn method_parse_incomplete(s: Seq<char>) -> bool {
    ||| spec_strict_prefix_of(s, method_token(Method::GET))
    ||| spec_strict_prefix_of(s, method_token(Method::POST))
    ||| spec_strict_prefix_of(s, method_token(Method::PUT))
    ||| spec_strict_prefix_of(s, method_token(Method::DELETE))
}

impl Method {
    /// Matches one of the four method literals at the start of `data` and
    /// returns the remaining input together with the parsed method.
    pub fn parse(data: &str) -> (r: Result<(&str, Method), ParseError>)
        ensures
            match r {
                Ok(p) => {
                    &&& method_of_prefix(data@) == Some(p.1)
                    &&& p.0@ == data@.skip(method_token(p.1).len() as int)
                },
                Err(e) => {
                    &&& method_of_prefix(data@) is None
                    &&& e == if method_parse_incomplete(data@) {
                        ParseError::Incomplete
                    } else {
                        ParseError::NoMatch
                    }
                },
            },
    {
        proof {
            reveal_strlit("GET");
            reveal_strlit("POST");
            reveal_strlit("PUT");
            reveal_strlit("DELETE");
            assert("GET"@ =~= method_token(Method::GET));
            assert("POST"@ =~= method_token(Method::POST));
            assert("PUT"@ =~= method_token(Method::PUT));
            assert("DELETE"@ =~= method_token(Method::DELETE));
        }
        if str_starts_with(data, "GET") {
            let rest = data.substring_char(3, data.unicode_len());
            proof {
                assert(rest@ =~= data@.skip(3));
            }
            Ok((rest, Method::GET))
        } else if str_starts_with(data, "POST") {
            let rest = data.substring_char(4, data.unicode_len());
            proof {
                assert(rest@ =~= data@.skip(4));
            }
            Ok((rest, Method::POST))
        } else if str_starts_with(data, "PUT") {
            let rest = data.substring_char(3, data.unicode_len());
            proof {
                assert(rest@ =~= data@.skip(3));
            }
            Ok((rest, Method::PUT))
        } else if str_starts_with(data, "DELETE") {
            let rest = data.substring_char(6, data.unicode_len());
            proof {
                assert(rest@ =~= data@.skip(6));
            }
            Ok((rest, Method::DELETE))
        } else if str_is_strict_prefix_of(data, "GET") || str_is_strict_prefix_of(data, "POST")
            || str_is_strict_prefix_of(data, "PUT") || str_is_strict_prefix_of(data, "DELETE") {
            Err(ParseError::Incomplete)
        } else {
            Err(ParseError::NoMatch)
        }
    }
}

/// A parsed request line: the verb and the request target.
#[derive(Debug)]
pub struct RequestLine {
    pub method: Method,
    pub path: String,
}

/// A request line is well-formed when a method token is followed by a
/// space, then at least one non-space path character, then another space;
/// whatever follows the second space (the protocol token) is ignored.
pub open spec fn request_line_ok(s: Seq<char>) -> bool {
    match method_of_prefix(s) {
        Some(m) => {
            let after = s.skip(method_token(m).len() as int);
            &&& after.len() >= 1
            &&& after[0] == ' '
            &&& find_char(after.skip(1), ' ') >= 1
        },
        None => false,
    }
}

/// The method of a well-formed request line.
pub open spec fn parsed_method(s: Seq<char>) -> Method {
    method_of_prefix(s)->Some_0
}

/// The path of a well-formed request line: everything between the space
/// after the method and the next space.
pub open spec fn parsed_path(s: Seq<char>) -> Seq<char> {
    let after = s.skip(method_token(parsed_method(s)).len() as int);
    let tail = after.skip(1);
    tail.take(find_char(tail, ' '))
}

/// A request line that is not yet well-formed may still become so with more
/// input: the method token is cut short, or the input ends before the space
/// after the method, or no space terminating the path has arrived yet.
pub open spec fn request_line_incomplete(s: Seq<char>) -> bool {
    match method_of_prefix(s) {
        Some(m) => {
            let after = s.skip(method_token(m).len() as int);
            ||| after.len() == 0
            ||| (after[0] == ' ' && find_char(after.skip(1), ' ') == -1)
        },
        None => method_parse_incomplete(s),
    }
}

impl RequestLine {
    /// Parses `METHOD SP PATH SP rest-of-line`, consuming the whole line;
    /// the trailing protocol token is discarded without validation.
    pub fn parse(input: &str) -> (r: Result<(&str, RequestLine), ParseError>)
        ensures
            match r {
                Ok(p) => {
                    &&& request_line_ok(input@)
                    &&& p.1.method == parsed_method(input@)
                    &&& p.1.path@ == parsed_path(input@)
                    &&& p.0@ == Seq::<char>::empty()
                },
                Err(e) => {
                    &&& !request_line_ok(input@)
                    &&& e == if request_line_incomplete(input@) {
                        ParseError::Incomplete
                    } else {
                        ParseError::MalformedRequestLine
                    }
                },
            },
    {
        let (rest0, method) = match Method::parse(input) {
            Ok(p) => p,
            Err(ParseError::Incomplete) => {
                return Err(ParseError::Incomplete);
            },
            Err(_) => {
                return Err(ParseError::MalformedRequestLine);
            },
        };
        let n0 = rest0.unicode_len();
        if n0 == 0 {
            return Err(ParseError::Incomplete);
        }
        if rest0.get_char(0) != ' ' {
            return Err(ParseError::MalformedRequestLine);
        }
        let tail = rest0.substring_char(1, n0);
        proof {
            assert(tail@ =~= rest0@.skip(1));
        }
        match find_char_in(tail, ' ') {
            None => Err(ParseError::Incomplete),
            Some(j) => {
                proof {
                    crate::text::lemma_find_char(tail@, ' ');
                }
                if j == 0 {
                    return Err(ParseError::MalformedRequestLine);
                }
                let path_str = tail.substring_char(0, j);
                proof {
                    assert(path_str@ =~= tail@.take(j as int));
                }
                let path = path_str.to_owned();
                proof {
                    reveal_strlit("");
                    assert(""@ =~= Seq::<char>::empty());
                }
                Ok(("", RequestLine { method, path }))
            },
        }
    }
}

/// The request headers the server recognizes; every other header name is
/// skipped during parsing.
#[derive(Debug, Clone, Copy, PartialEq, Eq, Hash, Structural)]
pub enum Header {
    UserAgent,
    ContentType,
    ContentLength,
}

/// The canonical wire spelling of each header name.
pub open spec fn header_token(h: Header) -> Seq<char> {
    match h {
        Header::UserAgent => seq!['U', 's', 'e', 'r', '-', 'A', 'g', 'e', 'n', 't'],
        Header::ContentType => seq!['C', 'o', 'n', 't', 'e', 'n', 't', '-', 'T', 'y', 'p', 'e'],
        Header::ContentLength => seq![
            'C',
            'o',
            'n',
            't',
            'e',
            'n',
            't',
            '-',
            'L',
            'e',
            'n',
            'g',
            't',
            'h',
        ],
    }
}

/// The recognized header whose name begins `s`, tried in declaration order.
/// The three names are prefix-disjoint, so at most one can match.
pub open spec fn header_of_prefix(s: Seq<char>) -> Option<Header> {
    if spec_starts_with(s, header_token(Header::UserAgent)) {
        Some(Header::UserAgent)
    } else if spec_starts_with(s, header_token(Header::ContentType)) {
        Some(Header::ContentType)
    } else if spec_starts_with(s, header_token(Header::ContentLength)) {
        Some(Header::ContentLength)
    } else {
        None
    }
}

/// Incomplete exactly when the input runs out inside one of the names.
pub open spec fn header_parse_incomplete(s: Seq<char>) -> bool {
    ||| spec_strict_prefix_of(s, header_token(Header::UserAgent))
    ||| spec_strict_prefix_of(s, header_token(Header::ContentType))
    ||| spec_strict_prefix_of(s, header_token(Header::ContentLength))
}

impl Header {
    /// Matches one of the recognized header names at the start of `input`.
    pub fn parse(input: &str) -> (r: Result<(&str, Header), ParseError>)
        ensures
            match r {
                Ok(p) => {
                    &&& header_of_prefix(input@) == Some(p.1)
                    &&& p.0@ == input@.skip(header_token(p.1).len() as int)
                },
                Err(e) => {
                    &&& header_of_prefix(input@) is None
                    &&& e == if header_parse_incomplete(input@) {
                        ParseError::Incomplete
                    } else {
                        ParseError::NoMatch
                    }
                },
            },
    {
        proof {
            reveal_strlit("User-Agent");
            reveal_strlit("Content-Type");
            reveal_strlit("Content-Length");
            assert("User-Agent"@ =~= header_token(Header::UserAgent));
            assert("Content-Type"@ =~= header_token(Header::ContentType));
            assert("Content-Length"@ =~= header_token(Header::ContentLength));
        }
        if str_starts_with(input, "User-Agent") {
            let rest = input.substring_char(10, input.unicode_len());
            proof {
                assert(rest@ =~= input@.skip(10));
            }
            Ok((rest, Header::UserAgent))
        } else if str_starts_with(input, "Content-Type") {
            let rest = input.substring_char(12, input.unicode_len());
            proof {
                assert(rest@ =~= input@.skip(12));
            }
            Ok((rest, Header::ContentType))
        } else if str_starts_with(input, "Content-Length") {
            let rest = input.substring_char(14, input.unicode_len());
            proof {
                assert(rest@ =~= input@.skip(14));
            }
            Ok((rest, Header::ContentLength))
        } else if str_is_strict_prefix_of(input, "User-Agent")
            || str_is_strict_prefix_of(input, "Content-Type")
            || str_is_strict_prefix_of(input, "Content-Length") {
            Err(ParseError::Incomplete)
        } else {
            Err(ParseError::NoMatch)
        }
    }
}

/// A header line is well-formed when a recognized name is followed by the
/// separator `": "`; the value is everything after the separator.
pub open spec fn header_value_ok(s: Seq<char>) -> bool {
    match header_of_prefix(s) {
        Some(h) => {
            let after = s.skip(header_token(h).len() as int);
            &&& after.len() >= 2
            &&& after[0] == ':'
            &&& after[1] == ' '
        },
        None => false,
    }
}

/// The header named by a well-formed header line.
pub open spec fn parsed_header(s: Seq<char>) -> Header {
    header_of_prefix(s)->Some_0
}

/// The value of a well-formed header line.
pub open spec fn parsed_header_value(s: Seq<char>) -> Seq<char> {
    s.skip(header_token(parsed_header(s)).len() + 2int)
}

/// Incomplete when the name is cut short or the separator has only begun.
pub open spec fn header_value_incomplete(s: Seq<char>) -> bool {
    match header_of_prefix(s) {
        Some(h) => {
            let after = s.skip(header_token(h).len() as int);
            ||| after.len() == 0
            ||| (after.len() == 1 && after[0] == ':')
        },
        None => header_parse_incomplete(s),
    }
}

/// Splits one raw header line into a recognized header and its value,
/// consuming the whole line.
pub fn parse_header_value(line: &str) -> (r: Result<(&str, (Header, &str)), ParseError>)
    ensures
        match r {
            Ok(p) => {
                &&& header_value_ok(line@)
                &&& p.1.0 == parsed_header(line@)
                &&& p.1.1@ == parsed_header_value(line@)
                &&& p.0@ == Seq::<char>::empty()
            },
            Err(e) => {
                &&& !header_value_ok(line@)
                &&& e == if header_value_incomplete(line@) {
                    ParseError::Incomplete
                } else {
                    ParseError::NoMatch
                }
            },
        },
{
    let (rest0, header) = match Header::parse(line) {
        Ok(p) => p,
        Err(ParseError::Incomplete) => {
            return Err(ParseError::Incomplete);
        },
        Err(_) => {
            return Err(ParseError::NoMatch);
        },
    };
    let n0 = rest0.unicode_len();
    if n0 == 0 {
        return Err(ParseError::Incomplete);
    }
    if rest0.get_char(0) != ':' {
        return Err(ParseError::NoMatch);
    }
    if n0 == 1 {
        return Err(ParseError::Incomplete);
    }
    if rest0.get_char(1) != ' ' {
        return Err(ParseError::NoMatch);
    }
    let value = rest0.substring_char(2, n0);
    proof {
        assert(value@ =~= line@.skip(header_token(header).len() + 2int));
        reveal_strlit("");
        assert(""@ =~= Seq::<char>::empty());
    }
    Ok(("", (header, value)))
}

} // verus!
