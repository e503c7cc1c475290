//! **Write routing on a follower: the decision.**
//!
//! A mutating request that lands on a follower is routed to the current leader — by default a
//! `307 Temporary Redirect`, or, opt-in, a server-side reverse proxy. Reads stay local, a leader
//! serves its own writes, and a follower with no fresh, well-formed leader address answers
//! `503 + Retry-After` rather than a broken redirect.
//!
//! No open redirect: the `Location` origin is only ever the sanitized leader base (an absolute
//! `http(s)` origin with no white space or control characters); the request's own path-and-query
//! is appended to it.
use vstd::prelude::*;

use crate::cluster::{chars_equal_str, normalized, normalized_chars, opt_view};
use crate::text::{
    ascii_lower_seq, ascii_lowercase_chars, char_is_control, char_is_whitespace, chars_of,
    has_prefix, is_ctrl, is_ws, owned, parse_i64, parse_i64_spec, push_str, starts_with_chars,
    str_eq, string_from_range, trim, trim_chars,
};

verus! {

/// Seconds advertised in `Retry-After` on a no-leader `503`.
pub const WRITE_REDIRECT_RETRY_AFTER_SECS: u64 = 1;

/// Default staleness bound (seconds) for the leader's advertised address.
pub const DEFAULT_NODE_STALE_AFTER_SECS: i64 = 10;

/// How writes on a follower are routed to the leader (`CHANCELA_CLUSTER_WRITE_MODE`).
#[derive(Debug, Clone, Copy, PartialEq, Eq, Structural)]
pub enum WriteMode {
    /// `307 Temporary Redirect` to the leader (default).
    Redirect,
    /// Reverse-proxy the request to the leader server-side (opt-in).
    Proxy,
}

/// The mode a raw configuration value selects: `proxy` (trimmed, ASCII case-insensitive), otherwise
/// `Redirect`.
pub open spec fn parse_write_mode(raw: Option<Seq<char>>) -> WriteMode {
    match raw {
        Some(s) => if normalized(s) == "proxy"@ {
            WriteMode::Proxy
        } else {
            WriteMode::Redirect
        },
        None => WriteMode::Redirect,
    }
}

impl WriteMode {
    /// Parse the mode, defaulting to [`WriteMode::Redirect`] for unset / empty / unrecognised
    /// values.
    pub fn parse(raw: Option<&str>) -> (r: WriteMode)
        ensures
            r == parse_write_mode(opt_view(raw)),
    {
        match raw {
            Some(s) => {
                let n = normalized_chars(s);
                if chars_equal_str(&n, "proxy") {
                    WriteMode::Proxy
                } else {
                    WriteMode::Redirect
                }
            },
            None => WriteMode::Redirect,
        }
    }
}

/// The leader-address staleness bound from a raw `CHANCELA_NODE_STALE_AFTER`: the trimmed value as
/// a signed number of seconds, default 10, never below 1.
pub open spec fn stale_after_spec(raw: Option<Seq<char>>) -> i64 {
    let parsed = match raw {
        Some(s) => match parse_i64_spec(trim(s)) {
            Some(n) => n,
            None => DEFAULT_NODE_STALE_AFTER_SECS,
        },
        None => DEFAULT_NODE_STALE_AFTER_SECS,
    };
    if parsed < 1 {
        1
    } else {
        parsed
    }
}

/// Resolve the leader-address staleness bound (whole seconds, default 10s, clamped `>= 1s`).
pub fn node_stale_after_secs(raw: Option<&str>) -> (r: i64)
    ensures
        r == stale_after_spec(opt_view(raw)),
        r >= 1,
{
    let parsed: i64 = match raw {
        Some(s) => {
            let t = trim_chars(s);
            match parse_i64(t.as_slice()) {
                Some(n) => n,
                None => DEFAULT_NODE_STALE_AFTER_SECS,
            }
        },
        None => DEFAULT_NODE_STALE_AFTER_SECS,
    };
    if parsed < 1 {
        1
    } else {
        parsed
    }
}

/// The routing decision for one request.
#[derive(Debug, Clone, PartialEq, Eq)]
pub enum WriteRoute {
    /// Run the handler locally.
    Local,
    /// `307 Temporary Redirect` to this absolute `Location`.
    Redirect(String),
    /// Reverse-proxy the request to this validated leader base URL.
    Proxy(String),
    /// `503 + Retry-After` (seconds).
    Unavailable(u64),
}

/// Whether an HTTP method (by its name) mutates and must be leader-served.
pub open spec fn is_mutating(method: Seq<char>) -> bool {
    method == "POST"@ || method == "PUT"@ || method == "PATCH"@ || method == "DELETE"@
}

/// Whether the method mutates: `POST`, `PUT`, `PATCH` and `DELETE` do; `GET`, `HEAD`, `OPTIONS`,
/// `TRACE` and `CONNECT` never redirect.
pub fn method_is_mutating(method: &str) -> (r: bool)
    ensures
        r == is_mutating(method@),
{
    str_eq(method, "POST") || str_eq(method, "PUT") || str_eq(method, "PATCH") || str_eq(
        method,
        "DELETE",
    )
}

/// `s` with every trailing `/` removed.
pub open spec fn strip_trailing_slashes(s: Seq<char>) -> Seq<char>
    decreases s.len(),
{
    if s.len() > 0 && s.last() == '/' {
        strip_trailing_slashes(s.drop_last())
    } else {
        s
    }
}

/// A leader base URL after validation: the trimmed value must start with `http://` or `https://`
/// and hold no white space or control character; it is returned without trailing slashes.
pub open spec fn sanitized_base(addr: Seq<char>) -> Option<Seq<char>> {
    let t = trim(addr);
    if !(has_prefix(t, "http://"@) || has_prefix(t, "https://"@)) {
        None
    } else if exists|i: int| 0 <= i < t.len() && (is_ws(#[trigger] t[i]) || is_ctrl(t[i])) {
        None
    } else {
        Some(strip_trailing_slashes(t))
    }
}

proof fn lemma_strip_prefix(s: Seq<char>, k: int)
    requires
        0 <= k <= s.len(),
        forall|j: int| k <= j < s.len() ==> s[j] == '/',
        k == 0 || s[k - 1] != '/',
    ensures
        strip_trailing_slashes(s) == s.take(k),
    decreases s.len() - k,
{
    if k < s.len() {
        assert(s.drop_last() == s.take(s.len() - 1));
        lemma_strip_prefix(s.drop_last(), k);
        assert(s.drop_last().take(k) == s.take(k));
    } else {
        assert(s.take(k) == s);
        if k > 0 {
            assert(s.last() != '/');
        }
    }
}

/// Validate a leader base URL before it is ever used as a redirect or proxy target.
pub fn sanitize_leader_base(addr: &str) -> (r: Option<String>)
    ensures
        match r {
            Some(b) => sanitized_base(addr@) == Some(b@),
            None => sanitized_base(addr@) is None,
        },
{
    let t = trim_chars(addr);
    let http = chars_of("http://");
    let https = chars_of("https://");
    if !(starts_with_chars(&t, &http) || starts_with_chars(&t, &https)) {
        return None;
    }
    let mut i: usize = 0;
    while i < t.len()
        invariant
            0 <= i <= t@.len(),
            t@ == trim(addr@),
            has_prefix(t@, "http://"@) || has_prefix(t@, "https://"@),
            forall|j: int| 0 <= j < i ==> !(is_ws(#[trigger] t@[j]) || is_ctrl(t@[j])),
        decreases t.len() - i,
    {
        if char_is_whitespace(t[i]) || char_is_control(t[i]) {
            assert(is_ws(t@[i as int]) || is_ctrl(t@[i as int]));
            return None;
        }
        i += 1;
    }
    let mut end: usize = t.len();
    while end > 0 && t[end - 1] == '/'
        invariant
            0 <= end <= t@.len(),
            forall|j: int| end <= j < t@.len() ==> t@[j] == '/',
        decreases end,
    {
        end -= 1;
    }
    proof {
        lemma_strip_prefix(t@, end as int);
        assert(t@.take(end as int) == t@.subrange(0, end as int));
    }
    Some(string_from_range(&t, 0, end))
}

/// The routing decision: non-mutating or leader ⇒ local; a follower with a valid leader base ⇒
/// redirect to base + path-and-query (or proxy to the base); otherwise `503` with a one-second
/// `Retry-After`.
pub open spec fn route_decision(
    method: Seq<char>,
    is_leader: bool,
    leader_addr: Option<Seq<char>>,
    mode: WriteMode,
    path_and_query: Seq<char>,
) -> (WriteRouteKind, Seq<char>) {
    if !is_mutating(method) || is_leader {
        (WriteRouteKind::Local, Seq::empty())
    } else {
        match leader_addr {
            Some(a) => match sanitized_base(a) {
                Some(base) => match mode {
                    WriteMode::Redirect => (WriteRouteKind::Redirect, base + path_and_query),
                    WriteMode::Proxy => (WriteRouteKind::Proxy, base),
                },
                None => (WriteRouteKind::Unavailable, Seq::empty()),
            },
            None => (WriteRouteKind::Unavailable, Seq::empty()),
        }
    }
}

/// The shape of a [`WriteRoute`], for stating decisions.
pub ghost enum WriteRouteKind {
    Local,
    Redirect,
    Proxy,
    Unavailable,
}

/// The shape and target of a route.
pub open spec fn route_shape(r: WriteRoute) -> (WriteRouteKind, Seq<char>) {
    match r {
        WriteRoute::Local => (WriteRouteKind::Local, Seq::empty()),
        WriteRoute::Redirect(l) => (WriteRouteKind::Redirect, l@),
        WriteRoute::Proxy(b) => (WriteRouteKind::Proxy, b@),
        WriteRoute::Unavailable(_) => (WriteRouteKind::Unavailable, Seq::empty()),
    }
}

/// Build the absolute `307` `Location`: the validated leader origin followed by the request's own
/// path-and-query.
pub fn build_location(leader_base: &str, path_and_query: &str) -> (r: String)
    ensures
        r@ == leader_base@ + path_and_query@,
{
    let mut s = owned(leader_base);
    push_str(&mut s, path_and_query);
    s
}

/// **The write-routing decision.**
pub fn route_write(
    method: &str,
    is_leader: bool,
    leader_addr: Option<&str>,
    mode: WriteMode,
    path_and_query: &str,
) -> (r: WriteRoute)
    ensures
        route_shape(r) == route_decision(method@, is_leader, opt_view(leader_addr), mode, path_and_query@),
        r matches WriteRoute::Unavailable(s) ==> s == WRITE_REDIRECT_RETRY_AFTER_SECS,
{
    if !method_is_mutating(method) || is_leader {
        return WriteRoute::Local;
    }
    let base = match leader_addr {
        Some(a) => match sanitize_leader_base(a) {
            Some(b) => b,
            None => {
                return WriteRoute::Unavailable(WRITE_REDIRECT_RETRY_AFTER_SECS);
            },
        },
        None => {
            return WriteRoute::Unavailable(WRITE_REDIRECT_RETRY_AFTER_SECS);
        },
    };
    match mode {
        WriteMode::Redirect => WriteRoute::Redirect(build_location(base.as_str(), path_and_query)),
        WriteMode::Proxy => WriteRoute::Proxy(base),
    }
}

/// **No open redirect:** a redirect's `Location` always begins with an `http://` or `https://`
/// origin taken from the leader address, and a follower's write is never served locally.
pub proof fn lemma_redirect_origin_is_the_leader(
    method: Seq<char>,
    is_leader: bool,
    leader_addr: Option<Seq<char>>,
    mode: WriteMode,
    path_and_query: Seq<char>,
)
    ensures
        ({
            let d = route_decision(method, is_leader, leader_addr, mode, path_and_query);
            &&& d.0 == WriteRouteKind::Redirect ==> leader_addr is Some && sanitized_base(
                leader_addr->0,
            ) is Some && d.1 == sanitized_base(leader_addr->0)->0 + path_and_query
            &&& is_mutating(method) && !is_leader ==> d.0 != WriteRouteKind::Local
            &&& (!is_mutating(method) || is_leader) ==> d.0 == WriteRouteKind::Local
        }),
{
}

/// A sanitized base is a prefix of the trimmed leader address, holds no white space or control
/// character, and keeps the address's `http://` / `https://` scheme whenever the address names
/// anything after that scheme.
pub proof fn lemma_sanitized_base_is_an_http_origin(addr: Seq<char>, j: int)
    requires
        sanitized_base(addr) is Some,
        0 <= j < trim(addr).len(),
        trim(addr)[j] != '/',
        j >= 8,
    ensures
        ({
            let t = trim(addr);
            let b = sanitized_base(addr)->0;
            &&& b == t.take(b.len() as int)
            &&& forall|i: int| 0 <= i < b.len() ==> !is_ws(#[trigger] b[i]) && !is_ctrl(b[i])
            &&& has_prefix(t, "http://"@) ==> has_prefix(b, "http://"@)
            &&& has_prefix(t, "https://"@) ==> has_prefix(b, "https://"@)
        }),
{
    let t = trim(addr);
    let b = strip_trailing_slashes(t);
    lemma_strip_is_prefix(t);
    lemma_strip_keeps(t, j);
    reveal_strlit("http://");
    reveal_strlit("https://");
    assert forall|i: int| 0 <= i < b.len() implies !is_ws(#[trigger] b[i]) && !is_ctrl(b[i]) by {
        assert(b[i] == t[i]);
    }
    if has_prefix(t, "http://"@) {
        assert(b.subrange(0, 7) =~= t.subrange(0, 7));
    }
    if has_prefix(t, "https://"@) {
        assert(b.subrange(0, 8) =~= t.subrange(0, 8));
    }
}

proof fn lemma_strip_is_prefix(s: Seq<char>)
    ensures
        strip_trailing_slashes(s).len() <= s.len(),
        strip_trailing_slashes(s) == s.take(strip_trailing_slashes(s).len() as int),
    decreases s.len(),
{
    if s.len() > 0 && s.last() == '/' {
        lemma_strip_is_prefix(s.drop_last());
        assert(s.drop_last().take(strip_trailing_slashes(s).len() as int) == s.take(
            strip_trailing_slashes(s).len() as int,
        ));
    } else {
        assert(s.take(s.len() as int) == s);
    }
}

proof fn lemma_strip_keeps(s: Seq<char>, j: int)
    requires
        0 <= j < s.len(),
        s[j] != '/',
    ensures
        strip_trailing_slashes(s).len() > j,
    decreases s.len(),
{
    if s.len() > 0 && s.last() == '/' {
        assert(j < s.len() - 1);
        assert(s.drop_last()[j] == s[j]);
        lemma_strip_keeps(s.drop_last(), j);
    }
}

/// The hop-by-hop headers (RFC 7230 §6.1) plus `Host` and `Content-Length`, by lower-case name.
pub open spec fn hop_by_hop_name(n: Seq<char>) -> bool {
    n == "connection"@ || n == "keep-alive"@ || n == "proxy-authenticate"@
        || n == "proxy-authorization"@ || n == "te"@ || n == "trailer"@ || n == "transfer-encoding"@
        || n == "upgrade"@ || n == "host"@ || n == "content-length"@
}

/// Whether a header (compared ASCII case-insensitively) is never forwarded across the proxy hop.
pub fn is_hop_by_hop(name: &str) -> (r: bool)
    ensures
        r == hop_by_hop_name(ascii_lower_seq(name@)),
{
    let c = chars_of(name);
    let n = ascii_lowercase_chars(&c);
    chars_equal_str(&n, "connection") || chars_equal_str(&n, "keep-alive") || chars_equal_str(
        &n,
        "proxy-authenticate",
    ) || chars_equal_str(&n, "proxy-authorization") || chars_equal_str(&n, "te")
        || chars_equal_str(&n, "trailer") || chars_equal_str(&n, "transfer-encoding")
        || chars_equal_str(&n, "upgrade") || chars_equal_str(&n, "host") || chars_equal_str(
        &n,
        "content-length",
    )
}

} // verus!
