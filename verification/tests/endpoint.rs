use fccli::error::ProviderError;
use fccli::provider::runtime::endpoint::{
    check_loopback_base, check_websocket_base, host_literal, url_at_path, url_host,
    validate_loopback_base, validate_websocket_base, HostAddress, TestBase, UrlParts,
};
use fccli::provider::test_transport::validate_loopback_websocket_base;

fn parts(scheme: &str, host: Option<&str>, port: Option<u16>) -> UrlParts {
    UrlParts {
        scheme: scheme.to_owned(),
        username: String::new(),
        has_password: false,
        host: host.map(str::to_owned),
        port,
        path: "/".to_owned(),
        has_query: false,
        has_fragment: false,
        href: String::new(),
    }
}

#[test]
fn urls_are_read_part_by_part() {
    let url = validate_websocket_base("wss://api.hyperliquid.xyz:8443/ws", false, HostAddress::NotLiteral)
        .unwrap();
    assert_eq!(url.scheme, "wss");
    assert_eq!(url.host.as_deref(), Some("api.hyperliquid.xyz"));
    assert_eq!(url.port, Some(8443));
    assert_eq!(url.path, "/ws");
    assert_eq!(url.href, "wss://api.hyperliquid.xyz:8443/ws");
    assert!(!url.has_query && !url.has_fragment && !url.has_password);
    assert_eq!(url_host("ws://[::1]:9/").as_deref(), Some("[::1]"));
    assert_eq!(url_host("no url"), None);
    assert_eq!(host_literal("[::1]"), "::1");
    assert_eq!(host_literal("127.0.0.1"), "127.0.0.1");
    assert_eq!(
        url_at_path("http://127.0.0.1:80/old?x=1", "/info").as_deref(),
        Some("http://127.0.0.1/info?x=1")
    );
    assert_eq!(url_at_path("nonsense", "/info"), None);
}

#[test]
fn production_and_tests_want_different_bases() {
    let plain = "ws://127.0.0.1:9000/";
    assert!(validate_loopback_websocket_base(plain, HostAddress::Loopback).is_ok());
    assert_eq!(
        validate_websocket_base(plain, false, HostAddress::Loopback),
        Err(ProviderError::Configuration("invalid WebSocket base URL"))
    );
    let secure = "wss://example.org/";
    assert!(validate_websocket_base(secure, false, HostAddress::NotLiteral).is_ok());
    assert_eq!(
        validate_loopback_websocket_base(secure, HostAddress::Loopback),
        Err(ProviderError::Configuration("invalid WebSocket base URL"))
    );
    assert_eq!(
        validate_websocket_base("wss://example.org/?q", false, HostAddress::NotLiteral),
        Err(ProviderError::Configuration("invalid WebSocket base URL"))
    );
}

#[test]
fn a_test_socket_must_be_on_this_machine() {
    let strict = "WebSocket test URL must be plain WS on a literal loopback host with an explicit nonzero port";
    let host = Some("127.0.0.1");
    assert_eq!(
        check_websocket_base(&parts("ws", host, Some(1)), true, HostAddress::Loopback),
        None
    );
    assert_eq!(
        check_websocket_base(&parts("ws", None, Some(1)), true, HostAddress::Loopback),
        Some("WebSocket test URL requires a host")
    );
    assert_eq!(
        check_websocket_base(&parts("ws", host, Some(1)), true, HostAddress::NotLiteral),
        Some("WebSocket test URL must use a literal loopback host")
    );
    assert_eq!(
        check_websocket_base(&parts("ws", host, Some(1)), true, HostAddress::Remote),
        Some(strict)
    );
    for port in [None, Some(0)] {
        assert_eq!(
            check_websocket_base(&parts("ws", host, port), true, HostAddress::Loopback),
            Some(strict)
        );
    }
    let named = UrlParts { username: "me".to_owned(), ..parts("ws", host, Some(1)) };
    assert_eq!(
        check_websocket_base(&named, true, HostAddress::Loopback),
        Some(strict)
    );
}

#[test]
fn a_test_server_must_be_on_this_machine() {
    let host = Some("127.0.0.1");
    assert_eq!(
        check_loopback_base(TestBase::Rest, &parts("http", host, None), HostAddress::Loopback),
        None
    );
    assert_eq!(
        check_loopback_base(TestBase::WebSocket, &parts("wss", host, None), HostAddress::Loopback),
        None
    );
    assert_eq!(
        check_loopback_base(TestBase::Rest, &parts("https", host, None), HostAddress::Loopback),
        Some("test REST base URL must be plain HTTP on a literal loopback address")
    );
    assert_eq!(
        check_loopback_base(TestBase::WebSocket, &parts("http", host, None), HostAddress::Loopback),
        Some("test WebSocket base URL must use WS on a literal loopback address")
    );
    assert_eq!(
        check_loopback_base(TestBase::Rest, &parts("http", None, None), HostAddress::Loopback),
        Some("test REST base URL requires a host")
    );
    assert_eq!(
        check_loopback_base(TestBase::WebSocket, &parts("ws", None, None), HostAddress::Loopback),
        Some("test WebSocket base URL requires a host")
    );
    assert_eq!(
        check_loopback_base(TestBase::Rest, &parts("http", host, None), HostAddress::NotLiteral),
        Some("test REST base URL must use a literal loopback address")
    );
    assert_eq!(
        check_loopback_base(TestBase::WebSocket, &parts("ws", host, None), HostAddress::NotLiteral),
        Some("test WebSocket base URL must use a literal loopback address")
    );
    assert_eq!(
        validate_loopback_base(TestBase::Rest, "nonsense", HostAddress::Loopback),
        Err(ProviderError::Configuration("test REST base URL is invalid"))
    );
    assert_eq!(
        validate_loopback_base(TestBase::WebSocket, "nonsense", HostAddress::Loopback),
        Err(ProviderError::Configuration("test WebSocket base URL is invalid"))
    );
    assert!(
        validate_loopback_base(TestBase::Rest, "http://127.0.0.1:80", HostAddress::Loopback).is_ok()
    );
}
