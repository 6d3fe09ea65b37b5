//! Rules of the local adapters: which adapter a remote specification
//! selects, and the record framing the stdio UDP adapter uses.
//!
//! The listener loops themselves (TCP accept, UDP sockets, stdio) are I/O
//! and live in the shell; the dispatch over the specification and the
//! framing of the bytes it sends are verified here.

use vstd::prelude::*;
use crate::frame::{push_be32, spec_be32};

verus! {

/// A local endpoint: a socket address or standard input/output.
#[derive(Debug)]
pub enum LocalSpec {
    /// Bind to this host and port.
    Inet(Vec<u8>, u16),
    /// Use standard input and output.
    Stdio,
}

/// A remote endpoint: a fixed destination or a SOCKS server.
#[derive(Debug)]
pub enum RemoteSpec {
    /// Forward to this host and port.
    Inet(Vec<u8>, u16),
    /// Serve SOCKS and take destinations from each request (TCP only; the
    /// specification parser guarantees the protocol).
    Socks,
}

/// The forwarded protocol.
#[derive(Clone, Copy, Debug, PartialEq, Eq, Structural)]
pub enum Protocol {
    /// A byte stream.
    Tcp,
    /// Datagrams.
    Udp,
}

/// One remote specification, as the command line names it.
#[derive(Debug)]
pub struct Remote {
    /// Where to listen locally.
    pub local_addr: LocalSpec,
    /// Where the server should forward to.
    pub remote_addr: RemoteSpec,
    /// Which protocol is forwarded.
    pub protocol: Protocol,
}

/// The adapter that serves one remote specification.
#[derive(Clone, Copy, Debug, PartialEq, Eq, Structural)]
pub enum AdapterKind {
    /// A TCP listener, one virtual stream per accepted connection.
    TcpForward,
    /// A UDP socket wrapping each datagram in a datagram frame.
    UdpForward,
    /// Standard input/output spliced over one virtual stream.
    StdioTcp,
    /// Standard input/output sending length-prefixed records.
    StdioUdp,
    /// A TCP listener speaking SOCKS to each connection.
    SocksListener,
    /// SOCKS spoken on standard input/output.
    SocksStdio,
}

/// The dispatch rule over a remote specification.
pub open spec fn spec_adapter_kind(remote: Remote) -> AdapterKind {
    match (remote.local_addr, remote.remote_addr, remote.protocol) {
        (LocalSpec::Inet(_, _), RemoteSpec::Inet(_, _), Protocol::Tcp) => AdapterKind::TcpForward,
        (LocalSpec::Inet(_, _), RemoteSpec::Inet(_, _), Protocol::Udp) => AdapterKind::UdpForward,
        (LocalSpec::Stdio, RemoteSpec::Inet(_, _), Protocol::Tcp) => AdapterKind::StdioTcp,
        (LocalSpec::Stdio, RemoteSpec::Inet(_, _), Protocol::Udp) => AdapterKind::StdioUdp,
        (LocalSpec::Inet(_, _), RemoteSpec::Socks, _) => AdapterKind::SocksListener,
        (LocalSpec::Stdio, RemoteSpec::Socks, _) => AdapterKind::SocksStdio,
    }
}

/// Pick the adapter that serves a remote specification.
pub fn adapter_kind(remote: &Remote) -> (r: AdapterKind)
    ensures
        r == spec_adapter_kind(*remote),
{
    match (&remote.local_addr, &remote.remote_addr, remote.protocol) {
        (LocalSpec::Inet(_, _), RemoteSpec::Inet(_, _), Protocol::Tcp) => AdapterKind::TcpForward,
        (LocalSpec::Inet(_, _), RemoteSpec::Inet(_, _), Protocol::Udp) => AdapterKind::UdpForward,
        (LocalSpec::Stdio, RemoteSpec::Inet(_, _), Protocol::Tcp) => AdapterKind::StdioTcp,
        (LocalSpec::Stdio, RemoteSpec::Inet(_, _), Protocol::Udp) => AdapterKind::StdioUdp,
        (LocalSpec::Inet(_, _), RemoteSpec::Socks, _) => AdapterKind::SocksListener,
        (LocalSpec::Stdio, RemoteSpec::Socks, _) => AdapterKind::SocksStdio,
    }
}

/// Frame one record as the stdio UDP adapter sends it: the record's length
/// as four big-endian octets, then the record.
pub fn encode_length_prefixed(record: &Vec<u8>) -> (r: Vec<u8>)
    requires
        record@.len() <= u32::MAX,
    ensures
        r@ == spec_be32(record@.len() as u32) + record@,
{
    let mut out: Vec<u8> = Vec::new();
    push_be32(&mut out, record.len() as u32);
    out.extend_from_slice(record.as_slice());
    assert(out@ =~= spec_be32(record@.len() as u32) + record@);
    out
}

} // verus!
