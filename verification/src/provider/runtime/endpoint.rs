//! Where a provider's servers are.
use vstd::prelude::*;

use crate::error::ProviderError;
use crate::text::{chars_of, same_text};

verus! {

/// The parts of a URL.
#[derive(Debug, PartialEq, Eq)]
pub struct UrlParts {
    pub scheme: String,
    pub username: String,
    pub has_password: bool,
    pub host: Option<String>,
    pub port: Option<u16>,
    pub path: String,
    pub has_query: bool,
    pub has_fragment: bool,
    /// The whole URL, as it is written out.
    pub href: String,
}

#[verifier::ext_equal]
pub struct UrlView {
    pub scheme: Seq<char>,
    pub username: Seq<char>,
    pub has_password: bool,
    pub host: Option<Seq<char>>,
    pub port: Option<u16>,
    pub path: Seq<char>,
    pub has_query: bool,
    pub has_fragment: bool,
    pub href: Seq<char>,
}

pub open spec fn text_view(text: Option<String>) -> Option<Seq<char>> {
    match text {
        Some(held) => Some(held@),
        None => None,
    }
}

impl View for UrlParts {
    type V = UrlView;

    open spec fn view(&self) -> UrlView {
        UrlView {
            scheme: self.scheme@,
            username: self.username@,
            has_password: self.has_password,
            host: text_view(self.host),
            port: self.port,
            path: self.path@,
            has_query: self.has_query,
            has_fragment: self.has_fragment,
            href: self.href@,
        }
    }
}

/// The parts of the URL that `reqwest::Url::parse` reads a text as, where it is one.
pub uninterp spec fn url_parts(text: Seq<char>) -> Option<UrlView>;

/// The URL that a text is, with another path, as `reqwest::Url::set_path` writes it.
pub uninterp spec fn url_with_path(text: Seq<char>, path: Seq<char>) -> Option<Seq<char>>;

/// `reqwest::Url::parse`, with the parts that its accessors give; nothing, where the text is no URL.
#[verifier::external_body]
fn parse_url(text: &str) -> (parts: Option<UrlParts>)
    ensures
        match parts {
            Some(found) => url_parts(text@) == Some(found@),
            None => url_parts(text@) is None,
        },
{
    let url = reqwest::Url::parse(text).ok()?;
    Some(UrlParts {
        scheme: url.scheme().to_owned(),
        username: url.username().to_owned(),
        has_password: url.password().is_some(),
        host: url.host_str().map(|host| host.to_owned()),
        port: url.port(),
        path: url.path().to_owned(),
        has_query: url.query().is_some(),
        has_fragment: url.fragment().is_some(),
        href: url.as_str().to_owned(),
    })
}

/// `reqwest::Url::parse` and `set_path`: the URL with the path in place of its own; nothing, where
/// the text is no URL.
#[verifier::external_body]
fn set_url_path(text: &str, path: &str) -> (href: Option<String>)
    ensures
        text_view(href) == url_with_path(text@, path@),
        href is Some <==> url_parts(text@) is Some,
{
    let mut url = reqwest::Url::parse(text).ok()?;
    url.set_path(path);
    Some(url.as_str().to_owned())
}

/// The host of a URL without the brackets of an IPv6 literal.
pub open spec fn unbracketed(host: Seq<char>) -> Seq<char> {
    if host.len() >= 2 && host[0] == '[' && host.last() == ']' {
        host.subrange(1, host.len() - 1)
    } else {
        host
    }
}

pub fn host_literal(host: &str) -> (literal: String)
    ensures
        literal@ == unbracketed(host@),
{
    let chars = chars_of(host);
    let mut literal = String::new();
    if chars.len() >= 2 && chars[0] == '[' && chars[chars.len() - 1] == ']' {
        let mut index: usize = 1;
        assert(literal@ =~= host@.subrange(1, 1));
        while index < chars.len() - 1
            invariant
                1 <= index <= chars.len() - 1,
                chars@ == host@,
                literal@ == host@.subrange(1, index as int),
            decreases chars.len() - index,
        {
            literal.push(chars[index]);
            index += 1;
            assert(literal@ =~= host@.subrange(1, index as int));
        }
        return literal;
    }
    host.to_owned()
}

/// What the address of a test server must be: an IP literal, and a loopback one.
#[derive(Clone, Copy, Debug, PartialEq, Eq, Structural)]
pub enum HostAddress {
    NotLiteral,
    Loopback,
    Remote,
}

/// What is wrong with a base URL for WebSockets, if anything is. `address` is what the host is as an
/// IP address, without the brackets of an IPv6 literal.
pub open spec fn websocket_base_fault(
    url: Option<UrlView>,
    loopback_only: bool,
    address: HostAddress,
) -> Option<&'static str> {
    match url {
        None => Some("invalid WebSocket base URL"),
        Some(parts) => if parts.scheme != (if loopback_only {
            "ws"@
        } else {
            "wss"@
        }) || parts.has_query || parts.has_fragment {
            Some("invalid WebSocket base URL")
        } else if !loopback_only {
            None
        } else if parts.host is None {
            Some("WebSocket test URL requires a host")
        } else if address == HostAddress::NotLiteral {
            Some("WebSocket test URL must use a literal loopback host")
        } else if address == HostAddress::Remote || parts.port is None || parts.port == Some(0u16)
            || parts.username.len() > 0 || parts.has_password {
            Some(
                "WebSocket test URL must be plain WS on a literal loopback host with an explicit nonzero port",
            )
        } else {
            None
        },
    }
}

/// What is wrong with the parts of a base URL for WebSockets, if anything is.
pub fn check_websocket_base(url: &UrlParts, loopback_only: bool, address: HostAddress) -> (fault: Option<
    &'static str,
>)
    ensures
        fault == websocket_base_fault(Some(url@), loopback_only, address),
{
    let valid_scheme = if loopback_only {
        same_text(url.scheme.as_str(), "ws")
    } else {
        same_text(url.scheme.as_str(), "wss")
    };
    if !valid_scheme || url.has_query || url.has_fragment {
        return Some("invalid WebSocket base URL");
    }
    if !loopback_only {
        return None;
    }
    if url.host.is_none() {
        return Some("WebSocket test URL requires a host");
    }
    match address {
        HostAddress::NotLiteral => {
            return Some("WebSocket test URL must use a literal loopback host");
        },
        HostAddress::Loopback => {},
        HostAddress::Remote => {
            return Some(
                "WebSocket test URL must be plain WS on a literal loopback host with an explicit nonzero port",
            );
        },
    }
    let valid_port = match url.port {
        Some(port) => port != 0,
        None => false,
    };
    if !valid_port || !url.username.as_str().is_empty() || url.has_password {
        return Some(
            "WebSocket test URL must be plain WS on a literal loopback host with an explicit nonzero port",
        );
    }
    None
}

/// Checks the base URL of a provider's WebSockets.
pub fn validate_websocket_base(base_url: &str, loopback_only: bool, address: HostAddress) -> (url:
    Result<UrlParts, ProviderError>)
    ensures
        match websocket_base_fault(url_parts(base_url@), loopback_only, address) {
            Some(detail) => url == Err::<UrlParts, ProviderError>(
                ProviderError::Configuration(detail),
            ),
            None => url matches Ok(parts) && url_parts(base_url@) == Some(parts@),
        },
{
    match parse_url(base_url) {
        None => Err(ProviderError::Configuration("invalid WebSocket base URL")),
        Some(parts) => match check_websocket_base(&parts, loopback_only, address) {
            Some(detail) => Err(ProviderError::Configuration(detail)),
            None => Ok(parts),
        },
    }
}

pub fn validate_loopback_websocket_base(base_url: &str, address: HostAddress) -> (url: Result<
    UrlParts,
    ProviderError,
>)
    ensures
        match websocket_base_fault(url_parts(base_url@), true, address) {
            Some(detail) => url == Err::<UrlParts, ProviderError>(
                ProviderError::Configuration(detail),
            ),
            None => url matches Ok(parts) && url_parts(base_url@) == Some(parts@),
        },
{
    validate_websocket_base(base_url, true, address)
}

/// The host of a URL, for a caller to see whether it is an IP address.
pub fn url_host(url: &str) -> (host: Option<String>)
    ensures
        text_view(host) == (match url_parts(url@) {
            Some(parts) => parts.host,
            None => None,
        }),
{
    match parse_url(url) {
        Some(parts) => parts.host,
        None => None,
    }
}

/// Which servers a test base URL is for.
#[derive(Clone, Copy, Debug, PartialEq, Eq, Structural)]
pub enum TestBase {
    Rest,
    WebSocket,
}

/// Whether a scheme is one of a test server.
pub open spec fn test_scheme(base: TestBase, scheme: Seq<char>) -> bool {
    match base {
        TestBase::Rest => scheme == "http"@,
        TestBase::WebSocket => scheme == "ws"@ || scheme == "wss"@,
    }
}

/// What is wrong with the base URL of a test server, if anything is. `address` is what the host is
/// as an IP address, as it stands in the URL.
pub open spec fn loopback_base_fault(
    base: TestBase,
    url: Option<UrlView>,
    address: HostAddress,
) -> Option<&'static str> {
    let rest = base == TestBase::Rest;
    match url {
        None => Some(
            if rest {
                "test REST base URL is invalid"
            } else {
                "test WebSocket base URL is invalid"
            },
        ),
        Some(parts) => if parts.host is None {
            Some(
                if rest {
                    "test REST base URL requires a host"
                } else {
                    "test WebSocket base URL requires a host"
                },
            )
        } else if address == HostAddress::NotLiteral {
            Some(
                if rest {
                    "test REST base URL must use a literal loopback address"
                } else {
                    "test WebSocket base URL must use a literal loopback address"
                },
            )
        } else if address == HostAddress::Remote || !test_scheme(base, parts.scheme)
            || parts.username.len() > 0 || parts.has_password || parts.has_query
            || parts.has_fragment {
            Some(
                if rest {
                    "test REST base URL must be plain HTTP on a literal loopback address"
                } else {
                    "test WebSocket base URL must use WS on a literal loopback address"
                },
            )
        } else {
            None
        },
    }
}

/// What is wrong with the parts of the base URL of a test server, if anything is.
pub fn check_loopback_base(base: TestBase, url: &UrlParts, address: HostAddress) -> (fault: Option<
    &'static str,
>)
    ensures
        fault == loopback_base_fault(base, Some(url@), address),
{
    let rest = base == TestBase::Rest;
    if url.host.is_none() {
        return Some(
            if rest {
                "test REST base URL requires a host"
            } else {
                "test WebSocket base URL requires a host"
            },
        );
    }
    if address == HostAddress::NotLiteral {
        return Some(
            if rest {
                "test REST base URL must use a literal loopback address"
            } else {
                "test WebSocket base URL must use a literal loopback address"
            },
        );
    }
    let scheme = if rest {
        same_text(url.scheme.as_str(), "http")
    } else {
        same_text(url.scheme.as_str(), "ws") || same_text(url.scheme.as_str(), "wss")
    };
    if address == HostAddress::Remote || !scheme || !url.username.as_str().is_empty()
        || url.has_password || url.has_query || url.has_fragment {
        return Some(
            if rest {
                "test REST base URL must be plain HTTP on a literal loopback address"
            } else {
                "test WebSocket base URL must use WS on a literal loopback address"
            },
        );
    }
    None
}

/// Checks the base URL of a test server.
pub fn validate_loopback_base(base: TestBase, value: &str, address: HostAddress) -> (url: Result<
    UrlParts,
    ProviderError,
>)
    ensures
        match loopback_base_fault(base, url_parts(value@), address) {
            Some(detail) => url == Err::<UrlParts, ProviderError>(
                ProviderError::Configuration(detail),
            ),
            None => url matches Ok(parts) && url_parts(value@) == Some(parts@),
        },
{
    match parse_url(value) {
        None => Err(
            ProviderError::Configuration(
                if base == TestBase::Rest {
                    "test REST base URL is invalid"
                } else {
                    "test WebSocket base URL is invalid"
                },
            ),
        ),
        Some(parts) => match check_loopback_base(base, &parts, address) {
            Some(detail) => Err(ProviderError::Configuration(detail)),
            None => Ok(parts),
        },
    }
}

/// The URL that a base is, with another path.
pub fn url_at_path(base_url: &str, path: &str) -> (href: Option<String>)
    ensures
        text_view(href) == url_with_path(base_url@, path@),
        href is Some <==> url_parts(base_url@) is Some,
{
    set_url_path(base_url, path)
}

/// A base URL that production accepts is never one that tests accept.
pub proof fn law_test_and_production_bases_differ(url: Option<UrlView>, address: HostAddress)
    requires
        websocket_base_fault(url, true, address) is None,
    ensures
        websocket_base_fault(url, false, address) is Some,
{
    reveal_strlit("ws");
    reveal_strlit("wss");
    assert("ws"@.len() != "wss"@.len());
}

/// A base for WebSockets is accepted in production exactly where it is a TLS one without a query or a
/// fragment; and in a test exactly where it is a plain one on a loopback address with a port, without
/// those and without a user.
pub proof fn law_websocket_bases(url: Option<UrlView>, address: HostAddress)
    ensures
        websocket_base_fault(url, false, address) is None <==> (url matches Some(parts)
            && parts.scheme == "wss"@ && !parts.has_query && !parts.has_fragment),
        websocket_base_fault(url, true, address) is None <==> (url matches Some(parts)
            && parts.scheme == "ws"@ && !parts.has_query && !parts.has_fragment && parts.host is Some
            && address == HostAddress::Loopback && parts.port is Some && parts.port->0 != 0
            && parts.username.len() == 0 && !parts.has_password),
{
}

/// The base of a test server is accepted exactly where it is on a loopback address, has the scheme of
/// its kind, and neither a user, a query nor a fragment.
pub proof fn law_test_bases(base: TestBase, url: Option<UrlView>, address: HostAddress)
    ensures
        loopback_base_fault(base, url, address) is None <==> (url matches Some(parts)
            && parts.host is Some && address == HostAddress::Loopback && (match base {
            TestBase::Rest => parts.scheme == "http"@,
            TestBase::WebSocket => parts.scheme == "ws"@ || parts.scheme == "wss"@,
        }) && parts.username.len() == 0 && !parts.has_password && !parts.has_query
            && !parts.has_fragment),
{
}

/// Only a pair of brackets round the whole host is left out, and nothing within it.
pub proof fn law_brackets_are_left_out(host: Seq<char>)
    ensures
        unbracketed(seq!['['] + host + seq![']']) == host,
        host.len() == 0 || host[0] != '[' || host.last() != ']' ==> unbracketed(host) == host,
{
    let bracketed = seq!['['] + host + seq![']'];
    assert(bracketed.subrange(1, bracketed.len() - 1) =~= host);
}

} // verus!
