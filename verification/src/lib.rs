//! Core of a tunnelling proxy that multiplexes many virtual byte streams and
//! datagrams over one WebSocket-like message transport.
//!
//! This crate holds the verified logic: the frame codec, the virtual-port
//! table and allocator, the per-stream state machine, and the multiplexor's
//! event-processing rules. The asynchronous shell that performs the actual
//! network I/O drives these functions from outside.

use vstd::prelude::*;

pub mod frame;
pub mod port;
pub mod stream;
pub mod inner;
pub mod ws_connect;
pub mod websocket;
pub mod handle_remote;

verus! {

/// Which side of the tunnel this endpoint plays. The client initiates
/// virtual streams with `Syn`; the server answers with `Ack`.
#[derive(Clone, Copy, Debug, PartialEq, Eq, Structural)]
pub enum Role {
    /// The initiating side: may send `Syn`, must never send `Ack`.
    Client,
    /// The responding side: may send `Ack`, must never send `Syn`.
    Server,
}

/// Errors of the multiplexor core.
#[derive(Clone, Copy, Debug, PartialEq, Eq, Structural)]
pub enum Error {
    /// A binary message could not be decoded as a frame.
    InvalidFrame,
    /// A `Text` message arrived on the binary-only transport.
    TextMessage,
    /// A client-role multiplexor received a `Syn` frame.
    ClientReceivedSyn,
    /// A server-role multiplexor received an `Ack` frame.
    ServerReceivedAck,
    /// A destination host of more than 255 octets cannot be encoded.
    RHostTooLong,
    /// Every usable virtual port is live.
    NoAvailablePorts,
    /// The stream was reset or the multiplexor is gone; writes fail.
    BrokenPipe,
    /// A new inbound stream could not be handed to the accept queue.
    SendStreamToClient,
}

/// Bound on the per-port receive queue, in frames: the flow-control window
/// that produces backpressure towards the peer.
pub const STREAM_FRAME_BUFFER_SIZE: usize = 16;

/// Largest `Psh` payload placed in a single frame when writing; longer
/// buffers are split at this size.
pub const MAX_PAYLOAD_SIZE: usize = 65536;

} // verus!
