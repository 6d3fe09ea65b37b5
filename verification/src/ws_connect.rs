//! Client-side connection rules: URL sanitising, proxy classification, the
//! TLS connector choice, and header-line parsing.
//!
//! The network handshake itself is asynchronous I/O and lives in the shell;
//! every decision it takes is made by the functions here. URL values are
//! carried by the `url` crate and stay opaque; the rules about schemes are
//! verified functions over the scheme string.

use vstd::prelude::*;
use vstd::string::StringExecFns;

verus! {

/// Errors of the connection rules.
#[derive(Clone, Copy, Debug, PartialEq, Eq, Structural)]
pub enum Error {
    /// The server URL does not parse.
    UrlParse,
    /// The URL's scheme fits neither a WebSocket nor a proxy connection.
    IncorrectScheme,
    /// A header line has no colon between name and value.
    InvalidHeaderFormat,
}

/// Types of proxies.
#[derive(Debug, Clone, Copy, Hash, PartialEq, Eq, Structural)]
pub enum ProxyType {
    /// No proxy.
    NoProxy,
    /// HTTP proxy.
    Http,
    /// HTTPS proxy (TLS-encrypted HTTP proxy).
    Https,
    /// SOCKS proxy.
    Socks,
}

/// A certificate verifier that accepts anything; the shell implements the
/// TLS library's verifier interface on its copy of this marker when the
/// user asked for an insecure connection.
pub struct TlsEmptyVerifier {}

#[verifier::external_type_specification]
#[verifier::external_body]
pub struct ExUrl(url::Url);

#[verifier::external_type_specification]
#[verifier::external_body]
pub struct ExParseError(url::ParseError);

/// Relies on url::Url::parse: parses an absolute URL string.
#[verifier::external_body]
fn parse_url(s: &str) -> (r: Result<url::Url, url::ParseError>) {
    url::Url::parse(s)
}

/// Relies on url::ParseError's variants: tells the relative-URL-without-a-
/// base error apart from the rest.
#[verifier::external_body]
fn is_relative_url_without_base(e: &url::ParseError) -> (r: bool) {
    match e {
        url::ParseError::RelativeUrlWithoutBase => true,
        _ => false,
    }
}

/// Relies on url::Url::scheme: the scheme part of the URL.
#[verifier::external_body]
fn url_scheme(u: &url::Url) -> (r: String) {
    u.scheme().to_string()
}

/// Relies on url::Url::set_scheme: rewrites the scheme in place, failing
/// for combinations the URL grammar refuses.
#[verifier::external_body]
fn set_url_scheme(u: &mut url::Url, scheme: &str) -> (r: bool) {
    u.set_scheme(scheme).is_ok()
}

/// Whether two strings hold the same characters.
fn str_eq(a: &str, b: &str) -> (r: bool)
    ensures
        r == (a@ == b@),
{
    let sa = String::from_str(a);
    let sb = String::from_str(b);
    sa == sb
}

/// What to do with a URL scheme when sanitising a server URL.
#[derive(Clone, Copy, Debug, PartialEq, Eq, Structural)]
pub enum SchemeAction {
    /// Already a WebSocket scheme: keep the URL.
    Keep,
    /// An HTTPS URL: rewrite the scheme to `wss`.
    UseWss,
    /// An HTTP URL: rewrite the scheme to `ws`.
    UseWs,
    /// Anything else is refused.
    Reject,
}

/// The sanitising rule: `wss` and `ws` pass, `https` and `http` map to
/// their WebSocket counterparts, everything else is refused.
pub open spec fn spec_scheme_action(s: Seq<char>) -> SchemeAction {
    if s == "wss"@ || s == "ws"@ {
        SchemeAction::Keep
    } else if s == "https"@ {
        SchemeAction::UseWss
    } else if s == "http"@ {
        SchemeAction::UseWs
    } else {
        SchemeAction::Reject
    }
}

/// Classify a URL scheme for sanitising.
pub fn scheme_action(scheme: &str) -> (r: SchemeAction)
    ensures
        r == spec_scheme_action(scheme@),
{
    if str_eq(scheme, "wss") || str_eq(scheme, "ws") {
        SchemeAction::Keep
    } else if str_eq(scheme, "https") {
        SchemeAction::UseWss
    } else if str_eq(scheme, "http") {
        SchemeAction::UseWs
    } else {
        SchemeAction::Reject
    }
}

/// Whether a sanitised scheme calls for TLS.
pub fn is_tls_scheme(scheme: &str) -> (r: bool)
    ensures
        r == (scheme@ == "wss"@),
{
    str_eq(scheme, "wss")
}

/// Sanitise the server URL for WebSocket use: parse it (retrying with an
/// `http://` prefix when it lacks a scheme), then apply the scheme rule of
/// `spec_scheme_action`: keep `ws`/`wss`, rewrite `http`/`https`, refuse
/// the rest with `IncorrectScheme`.
pub fn sanitize_url(url_str: &str) -> (r: Result<url::Url, Error>) {
    let parsed = match parse_url(url_str) {
        Ok(u) => u,
        Err(e) => {
            if is_relative_url_without_base(&e) {
                let mut prefixed = String::from_str("http://");
                prefixed.append(url_str);
                match parse_url(prefixed.as_str()) {
                    Ok(u) => u,
                    Err(_) => {
                        return Err(Error::UrlParse);
                    },
                }
            } else {
                return Err(Error::UrlParse);
            }
        },
    };
    let scheme = url_scheme(&parsed);
    match scheme_action(scheme.as_str()) {
        SchemeAction::Keep => Ok(parsed),
        SchemeAction::UseWss => {
            let mut u = parsed;
            if set_url_scheme(&mut u, "wss") {
                Ok(u)
            } else {
                Err(Error::UrlParse)
            }
        },
        SchemeAction::UseWs => {
            let mut u = parsed;
            if set_url_scheme(&mut u, "ws") {
                Ok(u)
            } else {
                Err(Error::UrlParse)
            }
        },
        SchemeAction::Reject => Err(Error::IncorrectScheme),
    }
}

/// The proxy a scheme selects, if any.
pub open spec fn spec_proxy_type_of_scheme(s: Seq<char>) -> Option<ProxyType> {
    if s == "http"@ {
        Some(ProxyType::Http)
    } else if s == "https"@ {
        Some(ProxyType::Https)
    } else if s == "socks5"@ || s == "socks5h"@ || s == "socks4"@ || s == "socks4a"@ {
        Some(ProxyType::Socks)
    } else {
        None
    }
}

/// Classify a proxy URL's scheme.
pub fn proxy_type_of_scheme(scheme: &str) -> (r: Option<ProxyType>)
    ensures
        r == spec_proxy_type_of_scheme(scheme@),
{
    if str_eq(scheme, "http") {
        Some(ProxyType::Http)
    } else if str_eq(scheme, "https") {
        Some(ProxyType::Https)
    } else if str_eq(scheme, "socks5") || str_eq(scheme, "socks5h") || str_eq(scheme, "socks4")
        || str_eq(scheme, "socks4a") {
        Some(ProxyType::Socks)
    } else {
        None
    }
}

/// Find out which type of proxy is configured: none at all, or one of the
/// schemes `spec_proxy_type_of_scheme` knows; anything else is refused
/// with `IncorrectScheme`.
pub fn get_proxy_type(proxy: &Option<url::Url>) -> (r: Result<ProxyType, Error>)
    ensures
        proxy is None ==> r == Ok::<ProxyType, Error>(ProxyType::NoProxy),
        r is Err ==> r == Err::<ProxyType, Error>(Error::IncorrectScheme) && proxy is Some,
{
    match proxy {
        None => Ok(ProxyType::NoProxy),
        Some(u) => {
            let scheme = url_scheme(u);
            match proxy_type_of_scheme(scheme.as_str()) {
                Some(t) => Ok(t),
                None => Err(Error::IncorrectScheme),
            }
        },
    }
}

/// Which connector the shell must build for the WebSocket handshake.
#[derive(Clone, Copy, Debug, PartialEq, Eq, Structural)]
pub enum ConnectorPlan {
    /// No TLS: plain TCP.
    Plain,
    /// TLS without verification, presenting a client certificate.
    TlsNoVerifyWithCert,
    /// TLS without verification, no client certificate.
    TlsNoVerifyNoCert,
    /// TLS against the root store, presenting a client certificate.
    TlsRootsWithCert,
    /// TLS against the root store, no client certificate.
    TlsRootsNoCert,
}

/// The connector choice: TLS only for a TLS scheme; an insecure connection
/// swaps the root store for the empty verifier; a client certificate is
/// presented when one was loaded.
pub open spec fn spec_connector_plan(is_tls: bool, tls_insecure: bool, has_client_cert: bool)
    -> ConnectorPlan {
    if !is_tls {
        ConnectorPlan::Plain
    } else if tls_insecure && has_client_cert {
        ConnectorPlan::TlsNoVerifyWithCert
    } else if tls_insecure {
        ConnectorPlan::TlsNoVerifyNoCert
    } else if has_client_cert {
        ConnectorPlan::TlsRootsWithCert
    } else {
        ConnectorPlan::TlsRootsNoCert
    }
}

/// Choose the connector for the handshake.
pub fn get_connector_plan(is_tls: bool, tls_insecure: bool, has_client_cert: bool) -> (r:
    ConnectorPlan)
    ensures
        r == spec_connector_plan(is_tls, tls_insecure, has_client_cert),
{
    if !is_tls {
        ConnectorPlan::Plain
    } else {
        match (tls_insecure, has_client_cert) {
            (true, true) => ConnectorPlan::TlsNoVerifyWithCert,
            (true, false) => ConnectorPlan::TlsNoVerifyNoCert,
            (false, true) => ConnectorPlan::TlsRootsWithCert,
            (false, false) => ConnectorPlan::TlsRootsNoCert,
        }
    }
}

/// An octet is header whitespace: space or horizontal tab.
pub open spec fn is_ws_octet(b: u8) -> bool {
    b == 32 || b == 9
}

/// A byte string without its leading whitespace.
pub open spec fn spec_trim_front(s: Seq<u8>) -> Seq<u8>
    decreases s.len(),
{
    if s.len() > 0 && is_ws_octet(s[0]) {
        spec_trim_front(s.drop_first())
    } else {
        s
    }
}

/// A byte string without its trailing whitespace.
pub open spec fn spec_trim_back(s: Seq<u8>) -> Seq<u8>
    decreases s.len(),
{
    if s.len() > 0 && is_ws_octet(s.last()) {
        spec_trim_back(s.drop_last())
    } else {
        s
    }
}

/// A byte string without leading and trailing whitespace.
pub open spec fn spec_trim(s: Seq<u8>) -> Seq<u8> {
    spec_trim_back(spec_trim_front(s))
}

/// How a `name: value` header line splits: at the first colon, the value
/// trimmed; a line without a colon does not split.
pub open spec fn spec_split_header(s: Seq<u8>) -> Option<(Seq<u8>, Seq<u8>)> {
    match s.index_of_first(58u8) {
        None => None,
        Some(i) => Some((s.take(i), spec_trim(s.skip(i + 1)))),
    }
}

proof fn lemma_trim_front_skip(s: Seq<u8>, i: int)
    requires
        0 <= i <= s.len(),
        forall|j: int| 0 <= j < i ==> is_ws_octet(s[j]),
        i < s.len() ==> !is_ws_octet(s[i]),
    ensures
        spec_trim_front(s) == s.skip(i),
    decreases i,
{
    if i == 0 {
        assert(s.skip(0) =~= s);
    } else {
        assert(is_ws_octet(s[0]));
        let d = s.drop_first();
        assert(forall|j: int| 0 <= j < i - 1 ==> is_ws_octet(d[j]));
        lemma_trim_front_skip(d, i - 1);
        assert(d.skip(i - 1) =~= s.skip(i));
    }
}

proof fn lemma_trim_back_take(s: Seq<u8>, i: int)
    requires
        0 <= i <= s.len(),
        forall|j: int| i <= j < s.len() ==> is_ws_octet(s[j]),
        i > 0 ==> !is_ws_octet(s[i - 1]),
    ensures
        spec_trim_back(s) == s.take(i),
    decreases s.len() - i,
{
    if i == s.len() {
        if s.len() > 0 && is_ws_octet(s.last()) {
            assert(!is_ws_octet(s[i - 1]));
            assert(false);
        }
        assert(s.take(i) =~= s);
    } else {
        assert(is_ws_octet(s.last()));
        let d = s.drop_last();
        assert(forall|j: int| i <= j < d.len() ==> is_ws_octet(d[j]));
        lemma_trim_back_take(d, i);
        assert(d.take(i) =~= s.take(i));
    }
}

/// Trim leading and trailing whitespace from a header value.
fn trim_bytes(s: &Vec<u8>) -> (r: Vec<u8>)
    ensures
        r@ == spec_trim(s@),
{
    let mut start: usize = 0;
    while start < s.len() && (s[start] == 32 || s[start] == 9)
        invariant
            start <= s@.len(),
            forall|j: int| 0 <= j < start ==> is_ws_octet(s@[j]),
        decreases s@.len() - start,
    {
        start = start + 1;
    }
    proof {
        lemma_trim_front_skip(s@, start as int);
    }
    let mut end: usize = s.len();
    while end > start && (s[end - 1] == 32 || s[end - 1] == 9)
        invariant
            start <= end <= s@.len(),
            forall|j: int| end <= j < s@.len() ==> is_ws_octet(s@[j]),
        decreases end,
    {
        end = end - 1;
    }
    let ghost front = s@.skip(start as int);
    proof {
        assert(forall|j: int|
            end - start <= j < front.len() ==> is_ws_octet(front[j]));
        if end > start {
            assert(!is_ws_octet(front[end - start - 1]));
        }
        lemma_trim_back_take(front, end - start as int);
    }
    let r = vstd::slice::slice_to_vec(vstd::slice::slice_subrange(s.as_slice(), start, end));
    assert(r@ =~= front.take(end - start as int));
    r
}

/// Split a `name: value` header line at its first colon and trim the
/// value; fails with `InvalidHeaderFormat` exactly when no colon is there.
pub fn split_header(line: &Vec<u8>) -> (r: Result<(Vec<u8>, Vec<u8>), Error>)
    ensures
        match r {
            Ok(nv) => spec_split_header(line@) == Some((nv.0@, nv.1@)),
            Err(e) => e == Error::InvalidHeaderFormat && spec_split_header(line@) is None,
        },
{
    proof {
        line@.index_of_first_ensures(58u8);
    }
    let mut i: usize = 0;
    while i < line.len() && line[i] != 58
        invariant
            i <= line@.len(),
            forall|j: int| 0 <= j < i ==> line@[j] != 58,
        decreases line@.len() - i,
    {
        i = i + 1;
    }
    if i == line.len() {
        assert(!line@.contains(58u8));
        return Err(Error::InvalidHeaderFormat);
    }
    assert(line@[i as int] == 58);
    assert(line@.contains(58u8));
    assert(line@.index_of_first(58u8) == Some(i as int));
    let name = vstd::slice::slice_to_vec(vstd::slice::slice_subrange(line.as_slice(), 0, i));
    let rest = vstd::slice::slice_to_vec(
        vstd::slice::slice_subrange(line.as_slice(), i + 1, line.len()),
    );
    assert(name@ =~= line@.take(i as int));
    assert(rest@ =~= line@.skip(i as int + 1));
    let value = trim_bytes(&rest);
    Ok((name, value))
}

} // verus!
