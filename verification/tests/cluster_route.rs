use chancela_api::cluster_route::{
    build_location, is_hop_by_hop, method_is_mutating, node_stale_after_secs, route_write, sanitize_leader_base,
    WriteMode, WriteRoute, DEFAULT_NODE_STALE_AFTER_SECS, WRITE_REDIRECT_RETRY_AFTER_SECS,
};

const LEADER: &str = "https://leader.example:8443";

#[test]
fn write_mode_parses_and_defaults_to_redirect() {
    assert_eq!(WriteMode::parse(Some("proxy")), WriteMode::Proxy);
    assert_eq!(WriteMode::parse(Some(" Proxy ")), WriteMode::Proxy);
    assert_eq!(WriteMode::parse(Some("redirect")), WriteMode::Redirect);
    assert_eq!(WriteMode::parse(None), WriteMode::Redirect);
    assert_eq!(WriteMode::parse(Some("")), WriteMode::Redirect);
    assert_eq!(WriteMode::parse(Some("teleport")), WriteMode::Redirect);
}

#[test]
fn follower_write_redirects_to_the_leader_with_the_same_path() {
    let route = route_write("POST", false, Some(LEADER), WriteMode::Redirect, "/v1/acts?draft=1");
    assert_eq!(route, WriteRoute::Redirect("https://leader.example:8443/v1/acts?draft=1".to_owned()));
}

#[test]
fn leader_serves_its_own_writes_locally() {
    assert_eq!(route_write("POST", true, Some(LEADER), WriteMode::Redirect, "/v1/acts"), WriteRoute::Local);
}

#[test]
fn reads_on_a_follower_never_redirect() {
    for method in ["GET", "HEAD", "OPTIONS"] {
        assert_eq!(
            route_write(method, false, Some(LEADER), WriteMode::Redirect, "/v1/acts"),
            WriteRoute::Local,
            "{method} must not redirect"
        );
    }
}

#[test]
fn leader_unknown_or_midhandoff_returns_503_not_a_broken_redirect() {
    assert_eq!(
        route_write("POST", false, None, WriteMode::Redirect, "/v1/acts"),
        WriteRoute::Unavailable(WRITE_REDIRECT_RETRY_AFTER_SECS)
    );
    assert_eq!(
        route_write("POST", false, None, WriteMode::Proxy, "/v1/acts"),
        WriteRoute::Unavailable(WRITE_REDIRECT_RETRY_AFTER_SECS)
    );
}

#[test]
fn a_malformed_leader_address_is_rejected_not_redirected_to() {
    for bad in [
        "leader.example",
        "//evil.example/steal",
        "ftp://leader.example",
        "javascript:alert(1)",
        "https://leader.example/\r\nSet-Cookie: x=1",
        "",
        "   ",
    ] {
        assert_eq!(
            route_write("POST", false, Some(bad), WriteMode::Redirect, "/v1/acts"),
            WriteRoute::Unavailable(WRITE_REDIRECT_RETRY_AFTER_SECS),
            "a malformed leader address ({bad:?}) must never become a redirect target"
        );
    }
}

#[test]
fn location_origin_is_always_the_leader_never_a_request_supplied_host() {
    let route = route_write("PUT", false, Some(LEADER), WriteMode::Redirect, "//evil.example/x?next=https://evil.example");
    match route {
        WriteRoute::Redirect(location) => {
            assert!(location.starts_with("https://leader.example:8443/"), "got {location}");
            assert!(
                !location.starts_with("https://leader.example:8443//evil")
                    || location.contains("leader.example:8443//evil.example/x"),
                "{location}"
            );
        }
        other => panic!("expected a redirect, got {other:?}"),
    }
}

#[test]
fn leader_base_is_trimmed_of_a_trailing_slash() {
    let route = route_write("DELETE", false, Some("https://leader.example/"), WriteMode::Redirect, "/v1/acts/9");
    assert_eq!(route, WriteRoute::Redirect("https://leader.example/v1/acts/9".to_owned()));
}

#[test]
fn proxy_mode_routes_to_the_validated_leader_base() {
    assert_eq!(route_write("POST", false, Some(LEADER), WriteMode::Proxy, "/v1/acts"), WriteRoute::Proxy(LEADER.to_owned()));
}

#[test]
fn sanitize_accepts_only_absolute_http_origins() {
    assert_eq!(sanitize_leader_base("http://a.example:1234/"), Some("http://a.example:1234".to_owned()));
    assert_eq!(sanitize_leader_base("  https://a.example  "), Some("https://a.example".to_owned()));
    assert_eq!(sanitize_leader_base("a.example"), None);
    assert_eq!(sanitize_leader_base("wss://a.example"), None);
}

#[test]
fn hop_by_hop_headers_are_never_forwarded() {
    assert!(is_hop_by_hop("Connection"));
    assert!(is_hop_by_hop("transfer-encoding"));
    assert!(is_hop_by_hop("Host"));
    assert!(is_hop_by_hop("content-length"));
    assert!(!is_hop_by_hop("authorization"));
    assert!(!is_hop_by_hop("content-type"));
}

#[test]
fn node_stale_after_defaults_and_clamps() {
    assert_eq!(node_stale_after_secs(None), DEFAULT_NODE_STALE_AFTER_SECS);
    assert_eq!(node_stale_after_secs(Some("garbage")), DEFAULT_NODE_STALE_AFTER_SECS);
    assert_eq!(node_stale_after_secs(Some("0")), 1);
    assert_eq!(node_stale_after_secs(Some("-5")), 1);
    assert_eq!(node_stale_after_secs(Some(" 30 ")), 30);
}

#[test]
fn only_mutating_methods_are_leader_served() {
    for m in ["POST", "PUT", "PATCH", "DELETE"] {
        assert!(method_is_mutating(m));
    }
    for m in ["GET", "HEAD", "OPTIONS", "TRACE", "CONNECT", "post"] {
        assert!(!method_is_mutating(m));
    }
    assert_eq!(build_location("https://l.example", "/v1/x?y=1"), "https://l.example/v1/x?y=1");
}
