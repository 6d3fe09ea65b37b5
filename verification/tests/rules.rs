//! Tests of the connection and server rules: URL sanitising, proxy
//! classification, the connector choice, header parsing, the upgrade rule,
//! and the adapter dispatch.

use penguin_mux::handle_remote::{
    adapter_kind, encode_length_prefixed, AdapterKind, LocalSpec, Protocol, Remote, RemoteSpec,
};
use penguin_mux::websocket::{psk_allows, strip_brackets};
use penguin_mux::ws_connect::{
    get_connector_plan, get_proxy_type, sanitize_url, split_header, ConnectorPlan, Error,
    ProxyType,
};

#[test]
fn test_sanitize_url() {
    assert_eq!(
        sanitize_url("wss://example.com").unwrap().as_str(),
        "wss://example.com/"
    );
    assert_eq!(
        sanitize_url("ws://example.com").unwrap().as_str(),
        "ws://example.com/"
    );
    assert_eq!(
        sanitize_url("https://example.com").unwrap().as_str(),
        "wss://example.com/"
    );
    assert_eq!(
        sanitize_url("http://example.com").unwrap().as_str(),
        "ws://example.com/"
    );
    assert!(sanitize_url("ftp://example.com").is_err());
}

#[test]
fn sanitize_url_defaults_the_scheme() {
    // A bare host parses as a relative URL; it is retried as HTTP and so
    // lands on the plain WebSocket scheme.
    assert_eq!(
        sanitize_url("example.com").unwrap().as_str(),
        "ws://example.com/"
    );
    assert_eq!(sanitize_url("ftp://x").unwrap_err(), Error::IncorrectScheme);
}

#[test]
fn proxy_types_follow_the_scheme() {
    assert_eq!(get_proxy_type(&None), Ok(ProxyType::NoProxy));
    let http = url::Url::parse("http://proxy:8080").unwrap();
    assert_eq!(get_proxy_type(&Some(http)), Ok(ProxyType::Http));
    let https = url::Url::parse("https://proxy:8080").unwrap();
    assert_eq!(get_proxy_type(&Some(https)), Ok(ProxyType::Https));
    for scheme in ["socks5", "socks5h", "socks4", "socks4a"] {
        let u = url::Url::parse(&format!("{scheme}://proxy:1080")).unwrap();
        assert_eq!(get_proxy_type(&Some(u)), Ok(ProxyType::Socks));
    }
    let odd = url::Url::parse("ftp://proxy").unwrap();
    assert_eq!(get_proxy_type(&Some(odd)), Err(Error::IncorrectScheme));
}

#[test]
fn connector_plan_covers_all_modes() {
    assert_eq!(get_connector_plan(false, true, true), ConnectorPlan::Plain);
    assert_eq!(
        get_connector_plan(true, true, true),
        ConnectorPlan::TlsNoVerifyWithCert
    );
    assert_eq!(
        get_connector_plan(true, true, false),
        ConnectorPlan::TlsNoVerifyNoCert
    );
    assert_eq!(
        get_connector_plan(true, false, true),
        ConnectorPlan::TlsRootsWithCert
    );
    assert_eq!(
        get_connector_plan(true, false, false),
        ConnectorPlan::TlsRootsNoCert
    );
}

#[test]
fn header_lines_split_at_the_first_colon() {
    let (name, value) = split_header(&b"authorization:  Bearer abc ".to_vec()).unwrap();
    assert_eq!(name, b"authorization".to_vec());
    assert_eq!(value, b"Bearer abc".to_vec());
    let (name, value) = split_header(&b"x: a:b".to_vec()).unwrap();
    assert_eq!(name, b"x".to_vec());
    assert_eq!(value, b"a:b".to_vec());
    assert_eq!(
        split_header(&b"no colon here".to_vec()),
        Err(Error::InvalidHeaderFormat)
    );
}

#[test]
fn psk_rule_matches_keys_exactly() {
    let key = b"tunnel-key-1".to_vec();
    let other = b"something else".to_vec();
    assert!(psk_allows(None, None));
    assert!(psk_allows(Some(&key), None));
    assert!(!psk_allows(None, Some(&key)));
    assert!(psk_allows(Some(&key), Some(&key)));
    assert!(!psk_allows(Some(&other), Some(&key)));
}

#[test]
fn ipv6_listening_hosts_lose_their_brackets() {
    assert_eq!(strip_brackets(&b"[::1]".to_vec()), b"::1".to_vec());
    assert_eq!(strip_brackets(&b"127.0.0.1".to_vec()), b"127.0.0.1".to_vec());
    assert_eq!(strip_brackets(&b"[".to_vec()), b"[".to_vec());
    assert_eq!(strip_brackets(&b"".to_vec()), b"".to_vec());
}

#[test]
fn adapter_dispatch_covers_all_remotes() {
    let remote = |local: LocalSpec, remote: RemoteSpec, protocol: Protocol| Remote {
        local_addr: local,
        remote_addr: remote,
        protocol,
    };
    let inet = || LocalSpec::Inet(b"127.0.0.1".to_vec(), 5000);
    let dest = || RemoteSpec::Inet(b"example.com".to_vec(), 80);
    assert_eq!(
        adapter_kind(&remote(inet(), dest(), Protocol::Tcp)),
        AdapterKind::TcpForward
    );
    assert_eq!(
        adapter_kind(&remote(inet(), dest(), Protocol::Udp)),
        AdapterKind::UdpForward
    );
    assert_eq!(
        adapter_kind(&remote(LocalSpec::Stdio, dest(), Protocol::Tcp)),
        AdapterKind::StdioTcp
    );
    assert_eq!(
        adapter_kind(&remote(LocalSpec::Stdio, dest(), Protocol::Udp)),
        AdapterKind::StdioUdp
    );
    assert_eq!(
        adapter_kind(&remote(inet(), RemoteSpec::Socks, Protocol::Tcp)),
        AdapterKind::SocksListener
    );
    assert_eq!(
        adapter_kind(&remote(LocalSpec::Stdio, RemoteSpec::Socks, Protocol::Tcp)),
        AdapterKind::SocksStdio
    );
}

#[test]
fn stdio_udp_records_are_length_prefixed() {
    let framed = encode_length_prefixed(&b"ping\n".to_vec());
    assert_eq!(framed, vec![0, 0, 0, 5, b'p', b'i', b'n', b'g', b'\n']);
    assert_eq!(encode_length_prefixed(&Vec::new()), vec![0, 0, 0, 0]);
}
