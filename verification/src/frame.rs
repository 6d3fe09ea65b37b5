//! Frame types and the binary codec.
//!
//! Two kinds of frame travel as binary messages on the transport:
//!
//! ```text
//! stream:    0x01 | src:u16 | dst:u16 | flag:u8 | payload ...
//! datagram:  0x02 | hlen:u8 | host[hlen] | port:u16 | src_id:u32 | payload ...
//! flag:      0x00 Syn | 0x01 Ack | 0x02 Rst | 0x03 Fin | 0x04 Psh
//! Syn payload: hlen:u8 | host[hlen] | dst_port:u16
//! ```
//!
//! All integers are big-endian. The payload runs to the end of the message;
//! the transport's message boundary is authoritative.

use vstd::prelude::*;
use vstd::arithmetic::div_mod::{lemma_fundamental_div_mod, lemma_div_denominator};
use vstd::slice::{slice_subrange, slice_to_vec};
use crate::Error;

verus! {

/// Wire tag of a stream frame.
pub const TAG_STREAM: u8 = 1;

/// Wire tag of a datagram frame.
pub const TAG_DATAGRAM: u8 = 2;

/// Control flag of a stream frame, with TCP-like meaning.
#[derive(Clone, Copy, Debug, PartialEq, Eq, Structural)]
pub enum StreamFlag {
    /// Open a virtual stream (client to server); payload is the handshake.
    Syn,
    /// Confirm an opened stream (server to client); payload is empty.
    Ack,
    /// Abort a stream; payload is empty.
    Rst,
    /// Close the write half of a stream; payload is empty.
    Fin,
    /// Carry user bytes.
    Psh,
}

/// Wire code of a flag.
pub open spec fn spec_flag_code(flag: StreamFlag) -> u8 {
    match flag {
        StreamFlag::Syn => 0,
        StreamFlag::Ack => 1,
        StreamFlag::Rst => 2,
        StreamFlag::Fin => 3,
        StreamFlag::Psh => 4,
    }
}

/// Flag of a wire code, if the code is known.
pub open spec fn spec_flag_of(code: u8) -> Option<StreamFlag> {
    if code == 0 {
        Some(StreamFlag::Syn)
    } else if code == 1 {
        Some(StreamFlag::Ack)
    } else if code == 2 {
        Some(StreamFlag::Rst)
    } else if code == 3 {
        Some(StreamFlag::Fin)
    } else if code == 4 {
        Some(StreamFlag::Psh)
    } else {
        None
    }
}

pub fn flag_code(flag: StreamFlag) -> (code: u8)
    ensures
        code == spec_flag_code(flag),
{
    match flag {
        StreamFlag::Syn => 0,
        StreamFlag::Ack => 1,
        StreamFlag::Rst => 2,
        StreamFlag::Fin => 3,
        StreamFlag::Psh => 4,
    }
}

/// One frame of a virtual byte stream.
#[derive(Clone, Debug, PartialEq, Eq)]
pub struct StreamFrame {
    /// Sender's virtual port.
    pub sport: u16,
    /// Receiver's virtual port; `0` when the receiver has none yet.
    pub dport: u16,
    /// Control flag.
    pub flag: StreamFlag,
    /// Payload: handshake bytes for `Syn`, user bytes for `Psh`, else empty.
    pub data: Vec<u8>,
}

/// One end-to-end UDP datagram.
#[derive(Clone, Debug, PartialEq, Eq)]
pub struct DatagramFrame {
    /// Destination (or origin) host, at most 255 octets.
    pub host: Vec<u8>,
    /// Destination (or origin) UDP port.
    pub port: u16,
    /// Identifier of the originating local socket, so replies can be
    /// demultiplexed back to it.
    pub source_id: u32,
    /// The datagram body.
    pub payload: Vec<u8>,
}

/// A decoded binary message.
#[derive(Clone, Debug, PartialEq, Eq)]
pub enum Frame {
    /// A stream frame.
    Stream(StreamFrame),
    /// A datagram frame.
    Datagram(DatagramFrame),
}

/// Mathematical model of a frame: payloads as sequences.
#[verifier::ext_equal]
pub enum FrameView {
    /// Model of a stream frame.
    Stream { sport: u16, dport: u16, flag: StreamFlag, data: Seq<u8> },
    /// Model of a datagram frame.
    Datagram { host: Seq<u8>, port: u16, source_id: u32, payload: Seq<u8> },
}

impl View for StreamFrame {
    type V = FrameView;

    open spec fn view(&self) -> FrameView {
        FrameView::Stream {
            sport: self.sport,
            dport: self.dport,
            flag: self.flag,
            data: self.data@,
        }
    }
}

impl View for DatagramFrame {
    type V = FrameView;

    open spec fn view(&self) -> FrameView {
        FrameView::Datagram {
            host: self.host@,
            port: self.port,
            source_id: self.source_id,
            payload: self.payload@,
        }
    }
}

impl View for Frame {
    type V = FrameView;

    open spec fn view(&self) -> FrameView {
        match self {
            Frame::Stream(sf) => sf@,
            Frame::Datagram(df) => df@,
        }
    }
}

/// A frame can be put on the wire iff its host fits the one-octet length.
pub open spec fn frame_view_wf(fv: FrameView) -> bool {
    match fv {
        FrameView::Stream { .. } => true,
        FrameView::Datagram { host, .. } => host.len() <= 255,
    }
}

/// Big-endian bytes of a 16-bit integer.
pub open spec fn spec_be16(x: u16) -> Seq<u8> {
    seq![(x / 256) as u8, (x % 256) as u8]
}

/// 16-bit integer of two big-endian bytes.
pub open spec fn spec_u16(hi: u8, lo: u8) -> u16 {
    ((hi as int) * 256 + (lo as int)) as u16
}

/// Big-endian bytes of a 32-bit integer.
pub open spec fn spec_be32(x: u32) -> Seq<u8> {
    seq![
        (x / 0x1000000) as u8,
        ((x / 0x10000) % 256) as u8,
        ((x / 256) % 256) as u8,
        (x % 256) as u8,
    ]
}

/// 32-bit integer of four big-endian bytes.
pub open spec fn spec_u32(b0: u8, b1: u8, b2: u8, b3: u8) -> u32 {
    ((b0 as int) * 0x1000000 + (b1 as int) * 0x10000 + (b2 as int) * 256 + (b3 as int)) as u32
}

/// The encoding of a well-formed frame.
pub open spec fn spec_encode(fv: FrameView) -> Seq<u8> {
    match fv {
        FrameView::Stream { sport, dport, flag, data } => seq![TAG_STREAM] + spec_be16(sport)
            + spec_be16(dport) + seq![spec_flag_code(flag)] + data,
        FrameView::Datagram { host, port, source_id, payload } => seq![
            TAG_DATAGRAM,
            host.len() as u8,
        ] + host + spec_be16(port) + spec_be32(source_id) + payload,
    }
}

/// The frame a byte sequence decodes to, if any. Decoding fails on an
/// unknown tag, a truncated header, a host length past the end, and an
/// unknown flag code.
pub open spec fn spec_decode(b: Seq<u8>) -> Option<FrameView> {
    if b.len() < 1 {
        None
    } else if b[0] == TAG_STREAM {
        if b.len() < 6 {
            None
        } else {
            match spec_flag_of(b[5]) {
                Some(flag) => Some(
                    FrameView::Stream {
                        sport: spec_u16(b[1], b[2]),
                        dport: spec_u16(b[3], b[4]),
                        flag,
                        data: b.subrange(6, b.len() as int),
                    },
                ),
                None => None,
            }
        }
    } else if b[0] == TAG_DATAGRAM {
        if b.len() < 8 {
            None
        } else {
            let hlen = b[1] as int;
            if b.len() < 8 + hlen {
                None
            } else {
                Some(
                    FrameView::Datagram {
                        host: b.subrange(2, 2 + hlen),
                        port: spec_u16(b[2 + hlen], b[3 + hlen]),
                        source_id: spec_u32(
                            b[4 + hlen],
                            b[5 + hlen],
                            b[6 + hlen],
                            b[7 + hlen],
                        ),
                        payload: b.subrange(8 + hlen, b.len() as int),
                    },
                )
            }
        }
    } else {
        None
    }
}

/// The `Syn` handshake payload carrying the destination of a new stream.
pub open spec fn spec_syn_payload(host: Seq<u8>, port: u16) -> Seq<u8> {
    seq![host.len() as u8] + host + spec_be16(port)
}

/// The destination a `Syn` payload carries, if it parses. Bytes after the
/// port are ignored.
pub open spec fn spec_parse_syn(b: Seq<u8>) -> Option<(Seq<u8>, u16)> {
    if b.len() < 3 {
        None
    } else {
        let hlen = b[0] as int;
        if b.len() < 3 + hlen {
            None
        } else {
            Some((b.subrange(1, 1 + hlen), spec_u16(b[1 + hlen], b[2 + hlen])))
        }
    }
}

proof fn lemma_be16_bounds(x: u16)
    ensures
        x / 256 <= 255,
        x % 256 <= 255,
{
    assert(x / 256 <= 255 && x % 256 <= 255) by (nonlinear_arith)
        requires
            x <= 65535,
    ;
}

/// The two big-endian bytes of a 16-bit integer recover it.
pub proof fn lemma_be16_roundtrip(x: u16)
    ensures
        spec_u16(spec_be16(x)[0], spec_be16(x)[1]) == x,
{
    lemma_be16_bounds(x);
    lemma_fundamental_div_mod(x as int, 256);
}

proof fn lemma_be32_bounds(x: u32)
    ensures
        x / 0x1000000 <= 255,
        (x / 0x10000) % 256 <= 255,
        (x / 256) % 256 <= 255,
        x % 256 <= 255,
{
    assert(x / 0x1000000 <= 255 && (x / 0x10000) % 256 <= 255 && (x / 256) % 256 <= 255 && x % 256
        <= 255) by (nonlinear_arith)
        requires
            x <= 0xffffffff,
    ;
}

/// The four big-endian bytes of a 32-bit integer recover it.
pub proof fn lemma_be32_roundtrip(x: u32)
    ensures
        spec_u32(spec_be32(x)[0], spec_be32(x)[1], spec_be32(x)[2], spec_be32(x)[3]) == x,
{
    lemma_be32_bounds(x);
    let xi = x as int;
    lemma_fundamental_div_mod(xi, 256);
    lemma_fundamental_div_mod(xi / 256, 256);
    lemma_fundamental_div_mod(xi / 256 / 256, 256);
    lemma_div_denominator(xi, 256, 256);
    lemma_div_denominator(xi, 65536, 256);
    lemma_div_denominator(xi / 256, 256, 256);
    assert(xi / 256 / 256 == xi / 65536);
    assert(xi / 65536 / 256 == xi / 0x1000000);
}

/// Law: a well-formed frame decodes back from its encoding.
pub proof fn lemma_codec_roundtrip(fv: FrameView)
    requires
        frame_view_wf(fv),
    ensures
        spec_decode(spec_encode(fv)) == Some(fv),
{
    let b = spec_encode(fv);
    match fv {
        FrameView::Stream { sport, dport, flag, data } => {
            assert(b.len() == 6 + data.len());
            assert(b[0] == TAG_STREAM);
            assert(b[1] == spec_be16(sport)[0]);
            assert(b[2] == spec_be16(sport)[1]);
            assert(b[3] == spec_be16(dport)[0]);
            assert(b[4] == spec_be16(dport)[1]);
            assert(b[5] == spec_flag_code(flag));
            lemma_be16_roundtrip(sport);
            lemma_be16_roundtrip(dport);
            assert(spec_flag_of(spec_flag_code(flag)) == Some(flag));
            assert(b.subrange(6, b.len() as int) =~= data);
            assert(spec_decode(b) == Some(fv));
        },
        FrameView::Datagram { host, port, source_id, payload } => {
            let h = host.len() as int;
            assert(b.len() == 8 + h + payload.len());
            assert(b[0] == TAG_DATAGRAM);
            assert(b[1] == host.len() as u8);
            assert(b[1] as int == h);
            assert(forall|i: int| 0 <= i < h ==> b[2 + i] == host[i]);
            assert(b.subrange(2, 2 + h) =~= host);
            assert(b[2 + h] == spec_be16(port)[0]);
            assert(b[3 + h] == spec_be16(port)[1]);
            assert(b[4 + h] == spec_be32(source_id)[0]);
            assert(b[5 + h] == spec_be32(source_id)[1]);
            assert(b[6 + h] == spec_be32(source_id)[2]);
            assert(b[7 + h] == spec_be32(source_id)[3]);
            lemma_be16_roundtrip(port);
            lemma_be32_roundtrip(source_id);
            assert(b.subrange(8 + h, b.len() as int) =~= payload);
            assert(spec_decode(b) == Some(fv));
        },
    }
}

/// Law: a handshake payload parses back to the destination it encodes.
pub proof fn lemma_syn_payload_roundtrip(host: Seq<u8>, port: u16)
    requires
        host.len() <= 255,
    ensures
        spec_parse_syn(spec_syn_payload(host, port)) == Some((host, port)),
{
    let b = spec_syn_payload(host, port);
    let h = host.len() as int;
    assert(b.len() == 3 + h);
    assert(b[0] as int == h);
    assert(forall|i: int| 0 <= i < h ==> b[1 + i] == host[i]);
    assert(b.subrange(1, 1 + h) =~= host);
    assert(b[1 + h] == spec_be16(port)[0]);
    assert(b[2 + h] == spec_be16(port)[1]);
    lemma_be16_roundtrip(port);
}

/// Append the two big-endian bytes of a 16-bit integer.
pub fn push_be16(out: &mut Vec<u8>, x: u16)
    ensures
        final(out)@ == old(out)@ + spec_be16(x),
{
    proof {
        lemma_be16_bounds(x);
    }
    out.push((x / 256) as u8);
    out.push((x % 256) as u8);
    assert(out@ =~= old(out)@ + spec_be16(x));
}

/// Append the four big-endian bytes of a 32-bit integer.
pub fn push_be32(out: &mut Vec<u8>, x: u32)
    ensures
        final(out)@ == old(out)@ + spec_be32(x),
{
    proof {
        lemma_be32_bounds(x);
    }
    out.push((x / 0x1000000) as u8);
    out.push(((x / 0x10000) % 256) as u8);
    out.push(((x / 256) % 256) as u8);
    out.push((x % 256) as u8);
    assert(out@ =~= old(out)@ + spec_be32(x));
}

fn u16_from_be(hi: u8, lo: u8) -> (x: u16)
    ensures
        x == spec_u16(hi, lo),
{
    (hi as u16) * 256 + (lo as u16)
}

fn u32_from_be(b0: u8, b1: u8, b2: u8, b3: u8) -> (x: u32)
    ensures
        x == spec_u32(b0, b1, b2, b3),
{
    (b0 as u32) * 0x1000000 + (b1 as u32) * 0x10000 + (b2 as u32) * 256 + (b3 as u32)
}

/// Encode a frame for the wire. Fails with `RHostTooLong` exactly when a
/// datagram's host is longer than 255 octets.
pub fn encode_frame(frame: &Frame) -> (r: Result<Vec<u8>, Error>)
    ensures
        match r {
            Ok(bytes) => frame_view_wf(frame@) && bytes@ == spec_encode(frame@),
            Err(e) => e == Error::RHostTooLong && !frame_view_wf(frame@),
        },
{
    match frame {
        Frame::Stream(sf) => {
            let mut out: Vec<u8> = Vec::new();
            out.push(TAG_STREAM);
            push_be16(&mut out, sf.sport);
            push_be16(&mut out, sf.dport);
            out.push(flag_code(sf.flag));
            out.extend_from_slice(sf.data.as_slice());
            assert(out@ =~= spec_encode(frame@));
            Ok(out)
        },
        Frame::Datagram(df) => {
            if df.host.len() > 255 {
                return Err(Error::RHostTooLong);
            }
            let mut out: Vec<u8> = Vec::new();
            out.push(TAG_DATAGRAM);
            out.push(df.host.len() as u8);
            out.extend_from_slice(df.host.as_slice());
            push_be16(&mut out, df.port);
            push_be32(&mut out, df.source_id);
            out.extend_from_slice(df.payload.as_slice());
            assert(out@ =~= spec_encode(frame@));
            Ok(out)
        },
    }
}

/// Decode a binary message. Fails with `InvalidFrame` exactly when no frame
/// is encoded in it.
pub fn decode_frame(data: &Vec<u8>) -> (r: Result<Frame, Error>)
    ensures
        match r {
            Ok(frame) => spec_decode(data@) == Some(frame@),
            Err(e) => e == Error::InvalidFrame && spec_decode(data@) is None,
        },
{
    if data.len() < 1 {
        return Err(Error::InvalidFrame);
    }
    let tag = data[0];
    if tag == TAG_STREAM {
        if data.len() < 6 {
            return Err(Error::InvalidFrame);
        }
        let flag = match data[5] {
            0 => StreamFlag::Syn,
            1 => StreamFlag::Ack,
            2 => StreamFlag::Rst,
            3 => StreamFlag::Fin,
            4 => StreamFlag::Psh,
            _ => {
                return Err(Error::InvalidFrame);
            },
        };
        let sport = u16_from_be(data[1], data[2]);
        let dport = u16_from_be(data[3], data[4]);
        let payload = slice_to_vec(slice_subrange(data.as_slice(), 6, data.len()));
        let sf = StreamFrame { sport, dport, flag, data: payload };
        assert(sf@ =~= spec_decode(data@)->Some_0);
        Ok(Frame::Stream(sf))
    } else if tag == TAG_DATAGRAM {
        if data.len() < 8 {
            return Err(Error::InvalidFrame);
        }
        let hlen: usize = data[1] as usize;
        if data.len() - 8 < hlen {
            return Err(Error::InvalidFrame);
        }
        let host = slice_to_vec(slice_subrange(data.as_slice(), 2, 2 + hlen));
        let port = u16_from_be(data[2 + hlen], data[3 + hlen]);
        let source_id = u32_from_be(
            data[4 + hlen],
            data[5 + hlen],
            data[6 + hlen],
            data[7 + hlen],
        );
        let payload = slice_to_vec(slice_subrange(data.as_slice(), 8 + hlen, data.len()));
        let df = DatagramFrame { host, port, source_id, payload };
        assert(df@ =~= spec_decode(data@)->Some_0);
        Ok(Frame::Datagram(df))
    } else {
        Err(Error::InvalidFrame)
    }
}

/// Build the `Syn` handshake payload for a destination. Fails with
/// `RHostTooLong` exactly when the host is longer than 255 octets.
pub fn make_syn_payload(host: &Vec<u8>, port: u16) -> (r: Result<Vec<u8>, Error>)
    ensures
        match r {
            Ok(p) => host@.len() <= 255 && p@ == spec_syn_payload(host@, port),
            Err(e) => e == Error::RHostTooLong && host@.len() > 255,
        },
{
    if host.len() > 255 {
        return Err(Error::RHostTooLong);
    }
    let mut out: Vec<u8> = Vec::new();
    out.push(host.len() as u8);
    out.extend_from_slice(host.as_slice());
    push_be16(&mut out, port);
    assert(out@ =~= spec_syn_payload(host@, port));
    Ok(out)
}

/// Parse a `Syn` handshake payload into its destination host and port.
/// Fails with `InvalidFrame` exactly when the payload is truncated.
pub fn parse_syn_payload(data: &Vec<u8>) -> (r: Result<(Vec<u8>, u16), Error>)
    ensures
        match r {
            Ok(hp) => spec_parse_syn(data@) == Some((hp.0@, hp.1)),
            Err(e) => e == Error::InvalidFrame && spec_parse_syn(data@) is None,
        },
{
    if data.len() < 3 {
        return Err(Error::InvalidFrame);
    }
    let hlen: usize = data[0] as usize;
    if data.len() - 3 < hlen {
        return Err(Error::InvalidFrame);
    }
    let host = slice_to_vec(slice_subrange(data.as_slice(), 1, 1 + hlen));
    let port = u16_from_be(data[1 + hlen], data[2 + hlen]);
    assert(host@ =~= spec_parse_syn(data@)->Some_0.0);
    Ok((host, port))
}

impl StreamFrame {
    /// A `Syn` frame opening a stream from local port `sport`; the peer has
    /// no port yet, so the destination port is the `0` sentinel.
    pub fn new_syn(sport: u16, handshake: Vec<u8>) -> (r: StreamFrame)
        ensures
            r.sport == sport,
            r.dport == 0,
            r.flag == StreamFlag::Syn,
            r.data@ == handshake@,
    {
        StreamFrame { sport, dport: 0, flag: StreamFlag::Syn, data: handshake }
    }

    /// An `Ack` frame confirming a stream.
    pub fn new_ack(sport: u16, dport: u16) -> (r: StreamFrame)
        ensures
            r.sport == sport,
            r.dport == dport,
            r.flag == StreamFlag::Ack,
            r.data@ == Seq::<u8>::empty(),
    {
        StreamFrame { sport, dport, flag: StreamFlag::Ack, data: Vec::new() }
    }

    /// A `Rst` frame aborting a stream.
    pub fn new_rst(sport: u16, dport: u16) -> (r: StreamFrame)
        ensures
            r.sport == sport,
            r.dport == dport,
            r.flag == StreamFlag::Rst,
            r.data@ == Seq::<u8>::empty(),
    {
        StreamFrame { sport, dport, flag: StreamFlag::Rst, data: Vec::new() }
    }

    /// A `Fin` frame closing the local write half.
    pub fn new_fin(sport: u16, dport: u16) -> (r: StreamFrame)
        ensures
            r.sport == sport,
            r.dport == dport,
            r.flag == StreamFlag::Fin,
            r.data@ == Seq::<u8>::empty(),
    {
        StreamFrame { sport, dport, flag: StreamFlag::Fin, data: Vec::new() }
    }

    /// A `Psh` frame carrying user bytes.
    pub fn new_psh(sport: u16, dport: u16, data: Vec<u8>) -> (r: StreamFrame)
        ensures
            r.sport == sport,
            r.dport == dport,
            r.flag == StreamFlag::Psh,
            r.data@ == data@,
    {
        StreamFrame { sport, dport, flag: StreamFlag::Psh, data }
    }
}

} // verus!
