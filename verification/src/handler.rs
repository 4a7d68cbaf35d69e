use vstd::prelude::*;

use crate::error::RequestError;
use crate::headers::Headers;
use crate::parse::{
    header_value_ok, parse_header_value, parsed_header, parsed_header_value, parsed_path,
    request_line_ok, Header, RequestLine,
};
use crate::response::{route, route_fails, routed_body, routed_headers, routed_status,
    spec_serialize};

verus! {

/// Folds raw header lines into a header mapping, starting from `acc`:
/// lines stop at the first empty one (the blank line terminating the header
/// block), a recognized `Name: value` line is inserted, and every other
/// line is skipped without aborting anything.
pub open spec fn spec_header_fold(lines: Seq<Seq<char>>, acc: Map<Header, Seq<char>>) -> Map<
    Header,
    Seq<char>,
>
    decreases lines.len(),
{
    if lines.len() == 0 {
        acc
    } else if lines[0].len() == 0 {
        acc
    } else {
        let acc2 = if header_value_ok(lines[0]) {
            acc.insert(parsed_header(lines[0]), parsed_header_value(lines[0]))
        } else {
            acc
        };
        spec_header_fold(lines.skip(1), acc2)
    }
}

/// The header mapping that a sequence of raw header lines denotes.
pub open spec fn spec_header_block(lines: Seq<Seq<char>>) -> Map<Header, Seq<char>> {
    spec_header_fold(lines, Map::<Header, Seq<char>>::empty())
}

/// Builds the header mapping from the raw lines read off one connection,
/// stopping at the first empty line and silently skipping unrecognized or
/// malformed lines.
pub fn parse_header_block(lines: &Vec<String>) -> (h: Headers)
    ensures
        h@ == spec_header_block(lines.deep_view()),
{
    let ghost all: Seq<Seq<char>> = lines.deep_view();
    let mut h = Headers::new();
    let mut i: usize = 0;
    proof {
        assert(all.skip(0) =~= all);
    }
    while i < lines.len()
        invariant
            all == lines.deep_view(),
            i <= lines.len(),
            all.len() == lines.len(),
            spec_header_fold(all.skip(i as int), h@) == spec_header_block(all),
        decreases lines.len() - i,
    {
        proof {
            assert(all.skip(i as int)[0] == all[i as int]);
            assert(all[i as int] == lines[i as int]@);
            assert(all.skip(i as int).skip(1) =~= all.skip(i as int + 1));
        }
        let line: &String = &lines[i];
        if line.as_str().is_empty() {
            return h;
        }
        match parse_header_value(line.as_str()) {
            Ok(p) => {
                let value: String = p.1.1.to_owned();
                h.insert(p.1.0, value);
            },
            Err(_) => {},
        }
        i += 1;
    }
    proof {
        assert(all.skip(i as int) =~= Seq::<Seq<char>>::empty());
    }
    h
}

/// Handles one already-read request: parses the request line, folds the
/// header lines into a mapping, routes, and serializes the response.
///
/// `header_lines` are the lines read after the request line; reading stops
/// at the blank terminator line whether or not the caller included it.
/// `Ok` carries the exact bytes to write back; on `Err` nothing is written
/// and the connection is dropped.
pub fn handle_request(request_line: &str, header_lines: &Vec<String>) -> (r: Result<
    String,
    RequestError,
>)
    ensures
        ({
            let line = request_line@;
            let hdrs = spec_header_block(header_lines.deep_view());
            match r {
                Ok(out) => {
                    &&& request_line_ok(line)
                    &&& !route_fails(parsed_path(line), hdrs)
                    &&& out@ == spec_serialize(
                        routed_status(parsed_path(line)),
                        routed_headers(parsed_path(line), hdrs),
                        routed_body(parsed_path(line), hdrs),
                    )
                },
                Err(RequestError::MalformedRequestLine) => !request_line_ok(line),
                Err(RequestError::MissingRequiredHeader) => {
                    &&& request_line_ok(line)
                    &&& route_fails(parsed_path(line), hdrs)
                },
            }
        }),
{
    let headers = parse_header_block(header_lines);
    let parsed = match RequestLine::parse(request_line) {
        Ok(p) => p.1,
        Err(_) => {
            return Err(RequestError::MalformedRequestLine);
        },
    };
    let response = match route(parsed.method, parsed.path.as_str(), &headers) {
        Ok(resp) => resp,
        Err(e) => {
            return Err(e);
        },
    };
    Ok(response.serialize())
}

} // verus!
