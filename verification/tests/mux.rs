//! End-to-end scenarios over an in-memory transport: every frame one
//! multiplexor emits is encoded to wire bytes and fed to the peer.

use penguin_mux::frame::{encode_frame, DatagramFrame, Frame, StreamFlag, StreamFrame};
use penguin_mux::inner::{send_datagram, Action, Event, Msg, MultiplexorInner, StreamInit};
use penguin_mux::port::{PortState, PortTable};
use penguin_mux::stream::{MuxStream, ReadResult};
use penguin_mux::{Error, Role, STREAM_FRAME_BUFFER_SIZE};

/// Encode a stream frame as the binary message the peer would receive.
fn wire(frame: StreamFrame) -> Msg {
    Msg::Binary(encode_frame(&Frame::Stream(frame)).unwrap())
}

/// Feed one stream frame to a multiplexor and return its actions.
fn feed(mux: &mut MultiplexorInner, frame: StreamFrame) -> Vec<Action> {
    let (actions, done) = mux.step(Event::Message(wire(frame))).unwrap();
    assert!(!done);
    actions
}

/// Build the user-facing stream endpoint out of an accept-queue entry.
fn stream_of(init: StreamInit) -> MuxStream {
    MuxStream::new(
        init.our_port,
        init.their_port,
        init.dest_host,
        init.dest_port,
        STREAM_FRAME_BUFFER_SIZE,
    )
}

/// Run the SYN/ACK handshake between a fresh client and server pair and
/// hand back both stream endpoints.
fn connect(
    client_mux: &mut MultiplexorInner,
    server_mux: &mut MultiplexorInner,
) -> (MuxStream, MuxStream) {
    let (client_port, syn) = client_mux.client_new_stream_channel(&vec![], 0).unwrap();
    let mut server_init = None;
    let mut ack = None;
    for action in feed(server_mux, syn) {
        match action {
            Action::AcceptStream(init) => server_init = Some(init),
            Action::SendFrame(f) => ack = Some(f),
            other => panic!("unexpected action {other:?}"),
        }
    }
    let server_stream = stream_of(server_init.unwrap());
    let ack = ack.unwrap();
    assert_eq!(ack.flag, StreamFlag::Ack);
    let mut client_init = None;
    for action in feed(client_mux, ack) {
        match action {
            Action::AcceptStream(init) => client_init = Some(init),
            other => panic!("unexpected action {other:?}"),
        }
    }
    let client_stream = stream_of(client_init.unwrap());
    assert_eq!(client_stream.our_port, client_port);
    (client_stream, server_stream)
}

/// Pipe one endpoint's written frames into the peer multiplexor and its
/// peer stream, returning the bytes that arrived.
fn pump(frames: Vec<StreamFrame>, peer_mux: &mut MultiplexorInner, peer: &mut MuxStream) {
    for frame in frames {
        for action in feed(peer_mux, frame) {
            match action {
                Action::Deliver(port, data) => {
                    assert_eq!(port, peer.our_port);
                    assert!(peer.push_frame(data));
                }
                other => panic!("unexpected action {other:?}"),
            }
        }
    }
}

/// Read everything currently available from a stream.
fn read_available(stream: &mut MuxStream) -> Vec<u8> {
    let mut out = Vec::new();
    loop {
        match stream.read(4096) {
            ReadResult::Data(d) => out.extend_from_slice(&d),
            ReadResult::Eof | ReadResult::WouldBlock => return out,
        }
    }
}

#[test]
fn connect_succeeds() {
    let mut client_mux = MultiplexorInner::new(Role::Client, None);
    let mut server_mux = MultiplexorInner::new(Role::Server, None);
    let (client_stream, server_stream) = connect(&mut client_mux, &mut server_mux);
    assert_eq!(server_stream.their_port, client_stream.our_port);
    assert_eq!(client_stream.their_port, server_stream.our_port);
    assert_ne!(client_stream.our_port, 0);
    assert_ne!(server_stream.our_port, 0);
    assert!(client_mux.ports.get(client_stream.our_port).is_some());
    assert!(server_mux.ports.get(server_stream.our_port).is_some());
}

#[test]
fn dropped_connection_rsts() {
    let mut client_mux = MultiplexorInner::new(Role::Client, None);
    let mut server_mux = MultiplexorInner::new(Role::Server, None);
    let (client_stream, mut server_stream) = connect(&mut client_mux, &mut server_mux);

    let frames = client_stream.write(&b"hello".to_vec()).unwrap();
    pump(frames, &mut server_mux, &mut server_stream);
    assert_eq!(read_available(&mut server_stream), b"hello".to_vec());

    // Drop the client stream without a shutdown: exactly one Rst goes out.
    let (our_port, their_port, fin_sent) = client_stream.drop_notice();
    assert!(!fin_sent);
    let (actions, done) = client_mux
        .step(Event::DropNotify(our_port, their_port, fin_sent))
        .unwrap();
    assert!(!done);
    let mut rst = None;
    let mut rst_count = 0;
    for action in actions {
        if let Action::SendFrame(f) = action {
            assert_eq!(f.flag, StreamFlag::Rst);
            rst_count += 1;
            rst = Some(f);
        }
    }
    assert_eq!(rst_count, 1);
    assert!(client_mux.ports.get(our_port).is_none());

    // The peer closes the port without answering the Rst.
    let mut sent_back = 0;
    for action in feed(&mut server_mux, rst.unwrap()) {
        match action {
            Action::Deliver(port, data) => {
                assert_eq!(port, server_stream.our_port);
                assert!(data.is_empty());
                assert!(server_stream.push_frame(data));
            }
            Action::SetRemoved(port) => {
                assert_eq!(port, server_stream.our_port);
                server_stream.mark_removed();
            }
            Action::SendFrame(_) => sent_back += 1,
            other => panic!("unexpected action {other:?}"),
        }
    }
    assert_eq!(sent_back, 0);
    assert!(server_mux.ports.get(server_stream.our_port).is_none());
    assert_eq!(server_stream.write(&b"x".to_vec()), Err(Error::BrokenPipe));
    assert!(matches!(server_stream.read(16), ReadResult::Eof));
}

#[test]
fn orderly_close() {
    let mut client_mux = MultiplexorInner::new(Role::Client, None);
    let mut server_mux = MultiplexorInner::new(Role::Server, None);
    let (mut client_stream, mut server_stream) = connect(&mut client_mux, &mut server_mux);

    // The client closes its write half.
    let fin = client_stream.shutdown().unwrap();
    assert_eq!(fin.flag, StreamFlag::Fin);
    assert!(client_stream.shutdown().is_none());
    for action in feed(&mut server_mux, fin) {
        match action {
            Action::Deliver(port, data) => {
                assert_eq!(port, server_stream.our_port);
                assert!(data.is_empty());
                assert!(server_stream.push_frame(data));
            }
            other => panic!("unexpected action {other:?}"),
        }
    }
    assert!(matches!(server_stream.read(16), ReadResult::Eof));

    // The server's write half is still usable and its bytes arrive.
    let frames = server_stream.write(&b"bye".to_vec()).unwrap();
    pump(frames, &mut client_mux, &mut client_stream);
    assert_eq!(read_available(&mut client_stream), b"bye".to_vec());

    // Dropping the client stream after Fin frees the port without a Rst.
    let (our_port, their_port, fin_sent) = client_stream.drop_notice();
    assert!(fin_sent);
    let (actions, _) = client_mux
        .step(Event::DropNotify(our_port, their_port, fin_sent))
        .unwrap();
    for action in &actions {
        assert!(!matches!(action, Action::SendFrame(_)));
    }
    assert!(client_mux.ports.get(our_port).is_none());
}

#[test]
fn protocol_violation_terminates() {
    let mut client_mux = MultiplexorInner::new(Role::Client, None);
    let mut server_mux = MultiplexorInner::new(Role::Server, None);
    let (_client_stream, mut server_stream) = connect(&mut client_mux, &mut server_mux);

    // A crafted Syn delivered to the client-role multiplexor.
    let crafted = StreamFrame::new_syn(9, vec![0, 0, 80]);
    let err = client_mux.step(Event::Message(wire(crafted))).unwrap_err();
    assert_eq!(err, Error::ClientReceivedSyn);

    // A server never accepts an Ack either.
    let err = server_mux
        .step(Event::Message(wire(StreamFrame::new_ack(1, 2))))
        .unwrap_err();
    assert_eq!(err, Error::ServerReceivedAck);

    // The task then shuts the multiplexor down: every stream sees EOF and
    // the transport closes last.
    let actions = server_mux.shutdown();
    assert!(matches!(actions.last().unwrap(), Action::CloseTransport));
    for action in actions {
        match action {
            Action::Deliver(port, data) => {
                assert_eq!(port, server_stream.our_port);
                assert!(data.is_empty());
                assert!(server_stream.push_frame(data));
            }
            Action::SetRemoved(port) => {
                assert_eq!(port, server_stream.our_port);
                server_stream.mark_removed();
            }
            Action::CloseTransport => {}
            other => panic!("unexpected action {other:?}"),
        }
    }
    assert!(matches!(server_stream.read(16), ReadResult::Eof));
    assert_eq!(server_stream.write(&b"x".to_vec()), Err(Error::BrokenPipe));
    assert!(server_mux.ports.get(server_stream.our_port).is_none());
}

#[test]
fn backpressure_suspends_delivery() {
    // A per-port queue of size 4 with a stalled reader.
    let mut stream = MuxStream::new(1, 2, vec![], 0, 4);
    for i in 0..4u8 {
        assert!(stream.push_frame(vec![i]));
    }
    // The fifth delivery is refused: the demultiplex loop must suspend.
    assert!(!stream.push_frame(vec![4]));

    // A ping is still answered by the multiplexor once the loop runs again,
    // after the reader drained the queue.
    match stream.read(16) {
        ReadResult::Data(d) => assert_eq!(d, vec![0]),
        other => panic!("unexpected read result {other:?}"),
    }
    assert!(stream.push_frame(vec![4]));

    let mut mux = MultiplexorInner::new(Role::Server, None);
    let (actions, done) = mux.step(Event::Message(Msg::Ping(vec![7]))).unwrap();
    assert!(!done);
    assert_eq!(actions.len(), 1);
    match &actions[0] {
        Action::SendPong(p) => assert_eq!(p, &vec![7]),
        other => panic!("unexpected action {other:?}"),
    }
}

#[test]
fn datagram_round_trip() {
    let mut server_mux = MultiplexorInner::new(Role::Server, None);
    let payload = vec![1, 2, 3, 4, 5, 6, 7, 8];
    let action = send_datagram(DatagramFrame {
            host: b"127.0.0.1".to_vec(),
            port: 53,
            source_id: 7,
            payload: payload.clone(),
    })
    .unwrap();
    let frame = match action {
        Action::SendDatagram(df) => df,
        other => panic!("unexpected action {other:?}"),
    };
    let bytes = encode_frame(&Frame::Datagram(frame)).unwrap();
    let (actions, done) = server_mux.step(Event::Message(Msg::Binary(bytes))).unwrap();
    assert!(!done);
    assert_eq!(actions.len(), 1);
    match &actions[0] {
        Action::DeliverDatagram(df) => {
            assert_eq!(df.host, b"127.0.0.1".to_vec());
            assert_eq!(df.port, 53);
            assert_eq!(df.source_id, 7);
            assert_eq!(df.payload, payload);
        }
        other => panic!("unexpected action {other:?}"),
    }
}

#[test]
fn port_exhaustion_fails_allocation() {
    let mut table = PortTable::new();
    assert!(table.next_available_port().is_ok());
    for p in 1..=65534u16 {
        table.insert(p, PortState::Open);
    }
    assert_eq!(table.next_available_port(), Err(Error::NoAvailablePorts));
    // Freeing any port makes allocation succeed again.
    table.remove(123);
    assert_eq!(table.next_available_port(), Ok(123));
}

#[test]
fn client_allocates_distinct_nonzero_ports() {
    let mut mux = MultiplexorInner::new(Role::Client, None);
    let (p1, syn1) = mux.client_new_stream_channel(&b"a".to_vec(), 1).unwrap();
    let (p2, _syn2) = mux.client_new_stream_channel(&b"a".to_vec(), 1).unwrap();
    assert_ne!(p1, 0);
    assert_ne!(p2, 0);
    assert_ne!(p1, p2);
    assert_eq!(syn1.flag, StreamFlag::Syn);
    assert_eq!(syn1.sport, p1);
    assert_eq!(syn1.dport, 0);
    // A host longer than 255 octets cannot be opened.
    assert_eq!(
        mux.client_new_stream_channel(&vec![b'h'; 256], 1).unwrap_err(),
        Error::RHostTooLong
    );
}

#[test]
fn keepalive_disabled_never_pings() {
    let mut mux = MultiplexorInner::new(Role::Client, None);
    for _ in 0..3 {
        let (actions, done) = mux.step(Event::Tick).unwrap();
        assert!(!done);
        assert!(actions.is_empty());
    }
    let mut with_keepalive = MultiplexorInner::new(Role::Client, Some(1000));
    let (actions, _) = with_keepalive.step(Event::Tick).unwrap();
    assert_eq!(actions.len(), 1);
    assert!(matches!(actions[0], Action::SendPing));
}

#[test]
fn close_and_text_messages_end_or_fail_the_session() {
    let mut mux = MultiplexorInner::new(Role::Server, None);
    let (actions, done) = mux.step(Event::Message(Msg::Close)).unwrap();
    assert!(done);
    assert!(actions.is_empty());
    let err = mux
        .step(Event::Message(Msg::Text("nope".to_string())))
        .unwrap_err();
    assert_eq!(err, Error::TextMessage);
    let err = mux
        .step(Event::Message(Msg::Binary(vec![9, 9, 9])))
        .unwrap_err();
    assert_eq!(err, Error::InvalidFrame);
    // A pong is ignored.
    let (actions, done) = mux.step(Event::Message(Msg::Pong(vec![1]))).unwrap();
    assert!(!done);
    assert!(actions.is_empty());
}

#[test]
fn psh_to_unknown_port_is_answered_with_rst() {
    let mut mux = MultiplexorInner::new(Role::Server, None);
    let actions = feed(&mut mux, StreamFrame::new_psh(7, 42, vec![1]));
    assert_eq!(actions.len(), 1);
    match &actions[0] {
        Action::SendFrame(f) => {
            assert_eq!(f.flag, StreamFlag::Rst);
            assert_eq!(f.sport, 42);
            assert_eq!(f.dport, 7);
        }
        other => panic!("unexpected action {other:?}"),
    }
}
