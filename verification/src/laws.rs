use vstd::prelude::*;

use crate::handler::{spec_header_block, spec_header_fold};
use crate::parse::{
    header_value_ok, method_of_prefix, method_token, parsed_header, parsed_header_value, Header,
    Method,
};
use crate::response::{
    echo_prefix, root_path, route_fails, routed_body, routed_headers, routed_status, text_plain,
    user_agent_path, Status,
};
use crate::text::{byte_len, spec_decimal, spec_starts_with};

verus! {

/// A prefix of a prefix: whatever begins with `p + q` begins with `p`.
proof fn lemma_starts_with_prefix(s: Seq<char>, p: Seq<char>, q: Seq<char>)
    requires
        spec_starts_with(s, p + q),
    ensures
        spec_starts_with(s, p),
{
    assert forall|k: int| 0 <= k < p.len() implies s.subrange(0, p.len() as int)[k] == p[k] by {
        assert(s.subrange(0, (p + q).len() as int)[k] == s[k]);
        assert((p + q)[k] == p[k]);
    }
    assert(s.subrange(0, p.len() as int) =~= p);
}

/// Within the matched prefix, `s` holds the prefix's characters.
proof fn lemma_starts_with_index(s: Seq<char>, p: Seq<char>, i: int)
    requires
        spec_starts_with(s, p),
        0 <= i < p.len(),
    ensures
        s[i] == p[i],
{
    assert(s.subrange(0, p.len() as int)[i] == s[i]);
}

/// Law: a line beginning with a method's exact literal followed by a space
/// parses to that method — with the token consumed, by the postcondition of
/// `Method::parse`. The four tokens are prefix-disjoint, so the match order
/// never matters.
pub proof fn lemma_method_of_token_prefix(s: Seq<char>, m: Method)
    requires
        spec_starts_with(s, method_token(m) + seq![' ']),
    ensures
        method_of_prefix(s) == Some(m),
{
    lemma_starts_with_prefix(s, method_token(m), seq![' ']);
    match m {
        Method::GET => {
        },
        Method::POST => {
            if spec_starts_with(s, method_token(Method::GET)) {
                lemma_starts_with_index(s, method_token(Method::GET), 0);
                lemma_starts_with_index(s, method_token(Method::POST), 0);
            }
        },
        Method::PUT => {
            if spec_starts_with(s, method_token(Method::GET)) {
                lemma_starts_with_index(s, method_token(Method::GET), 0);
                lemma_starts_with_index(s, method_token(Method::PUT), 0);
            }
            if spec_starts_with(s, method_token(Method::POST)) {
                lemma_starts_with_index(s, method_token(Method::POST), 1);
                lemma_starts_with_index(s, method_token(Method::PUT), 1);
            }
        },
        Method::DELETE => {
            if spec_starts_with(s, method_token(Method::GET)) {
                lemma_starts_with_index(s, method_token(Method::GET), 0);
                lemma_starts_with_index(s, method_token(Method::DELETE), 0);
            }
            if spec_starts_with(s, method_token(Method::POST)) {
                lemma_starts_with_index(s, method_token(Method::POST), 0);
                lemma_starts_with_index(s, method_token(Method::DELETE), 0);
            }
            if spec_starts_with(s, method_token(Method::PUT)) {
                lemma_starts_with_index(s, method_token(Method::PUT), 0);
                lemma_starts_with_index(s, method_token(Method::DELETE), 0);
            }
        },
    }
}

/// Law: routing `/` always yields a `200 OK` with no headers and an empty
/// body, whatever the request headers held — and the method never enters
/// the routing functions at all.
pub proof fn lemma_route_root(h: Map<Header, Seq<char>>)
    ensures
        !route_fails(root_path(), h),
        routed_status(root_path()) == Status::Okay,
        routed_body(root_path(), h) == Seq::<char>::empty(),
        routed_headers(root_path(), h) == Map::<Header, Seq<char>>::empty(),
{
    assert(root_path().len() == 1);
    assert(user_agent_path().len() == 11);
    assert(echo_prefix().len() == 6);
}

/// Law: with a `User-Agent` header of value `v`, routing `/user-agent`
/// yields a `200 OK` whose body is exactly `v` and whose `Content-Length`
/// is the decimal byte length of `v`.
pub proof fn lemma_route_user_agent(h: Map<Header, Seq<char>>)
    requires
        h.contains_key(Header::UserAgent),
    ensures
        !route_fails(user_agent_path(), h),
        routed_status(user_agent_path()) == Status::Okay,
        routed_body(user_agent_path(), h) == h[Header::UserAgent],
        routed_headers(user_agent_path(), h) == map![
            Header::ContentType => text_plain(),
            Header::ContentLength => spec_decimal(byte_len(h[Header::UserAgent])),
        ],
{
    assert(root_path().len() == 1);
    assert(user_agent_path().len() == 11);
}

/// Law: without a `User-Agent` header, routing `/user-agent` fails with the
/// missing-required-header condition — by the postcondition of `route`, no
/// response value exists, so no response bytes are ever written.
pub proof fn lemma_route_missing_user_agent(h: Map<Header, Seq<char>>)
    requires
        !h.contains_key(Header::UserAgent),
    ensures
        route_fails(user_agent_path(), h),
{
}

/// Law: for any suffix (empty or with further slashes alike), routing
/// `/echo/` + suffix yields a `200 OK` whose body is exactly the suffix and
/// whose `Content-Length` is its decimal byte length.
pub proof fn lemma_route_echo(suffix: Seq<char>, h: Map<Header, Seq<char>>)
    ensures
        !route_fails(echo_prefix() + suffix, h),
        routed_status(echo_prefix() + suffix) == Status::Okay,
        routed_body(echo_prefix() + suffix, h) == suffix,
        routed_headers(echo_prefix() + suffix, h) == map![
            Header::ContentType => text_plain(),
            Header::ContentLength => spec_decimal(byte_len(suffix)),
        ],
{
    let path = echo_prefix() + suffix;
    if path == user_agent_path() {
        assert(path[1] == echo_prefix()[1]);
        assert(user_agent_path()[1] == 'u');
    }
    assert(path.subrange(0, echo_prefix().len() as int) =~= echo_prefix());
    assert(path.skip(echo_prefix().len() as int) =~= suffix);
}

/// Law: a path that is not `/`, not `/user-agent`, and not under `/echo/`
/// routes to `404 Not Found` with no headers and an empty body.
pub proof fn lemma_route_not_found(path: Seq<char>, h: Map<Header, Seq<char>>)
    requires
        path != root_path(),
        path != user_agent_path(),
        !spec_starts_with(path, echo_prefix()),
    ensures
        !route_fails(path, h),
        routed_status(path) == Status::NotFound,
        routed_body(path, h) == Seq::<char>::empty(),
        routed_headers(path, h) == Map::<Header, Seq<char>>::empty(),
{
}

proof fn lemma_header_fold_skips_unrecognized(
    pre: Seq<Seq<char>>,
    bad: Seq<char>,
    post: Seq<Seq<char>>,
    acc: Map<Header, Seq<char>>,
)
    requires
        bad.len() > 0,
        !header_value_ok(bad),
    ensures
        spec_header_fold(pre + seq![bad] + post, acc) == spec_header_fold(pre + post, acc),
    decreases pre.len(),
{
    if pre.len() == 0 {
        assert((pre + seq![bad] + post)[0] == bad);
        assert((pre + seq![bad] + post).skip(1) =~= post);
        assert(pre + post =~= post);
    } else {
        let l0 = pre[0];
        assert((pre + seq![bad] + post)[0] == l0);
        assert((pre + post)[0] == l0);
        if l0.len() == 0 {
        } else {
            let acc2 = if header_value_ok(l0) {
                acc.insert(parsed_header(l0), parsed_header_value(l0))
            } else {
                acc
            };
            assert((pre + seq![bad] + post).skip(1) =~= pre.skip(1) + seq![bad] + post);
            assert((pre + post).skip(1) =~= pre.skip(1) + post);
            lemma_header_fold_skips_unrecognized(pre.skip(1), bad, post, acc2);
        }
    }
}

/// Law: one unrecognized or malformed (but non-blank) line among the header
/// lines neither aborts header parsing nor leaves a trace in the resulting
/// header mapping.
pub proof fn lemma_header_block_skips_unrecognized(
    pre: Seq<Seq<char>>,
    bad: Seq<char>,
    post: Seq<Seq<char>>,
)
    requires
        bad.len() > 0,
        !header_value_ok(bad),
    ensures
        spec_header_block(pre + seq![bad] + post) == spec_header_block(pre + post),
{
    lemma_header_fold_skips_unrecognized(pre, bad, post, Map::<Header, Seq<char>>::empty());
}

} // verus!
