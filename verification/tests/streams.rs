//! Tests of the virtual stream endpoint: ordered reads, carry-over,
//! end-of-stream, chunked writes, and shutdown.

use penguin_mux::stream::{MuxStream, ReadResult};
use penguin_mux::{Error, MAX_PAYLOAD_SIZE, STREAM_FRAME_BUFFER_SIZE};

fn fresh() -> MuxStream {
    MuxStream::new(10, 20, vec![], 0, STREAM_FRAME_BUFFER_SIZE)
}

#[test]
fn reads_observe_payloads_in_order() {
    let mut s = fresh();
    assert!(s.push_frame(b"hel".to_vec()));
    assert!(s.push_frame(b"lo ".to_vec()));
    assert!(s.push_frame(b"world".to_vec()));
    let mut got = Vec::new();
    loop {
        match s.read(4096) {
            ReadResult::Data(d) => got.extend_from_slice(&d),
            ReadResult::WouldBlock => break,
            ReadResult::Eof => panic!("no end of stream was queued"),
        }
    }
    assert_eq!(got, b"hello world".to_vec());
}

#[test]
fn short_reads_serve_carry_over_first() {
    let mut s = fresh();
    assert!(s.push_frame(b"hello".to_vec()));
    match s.read(2) {
        ReadResult::Data(d) => assert_eq!(d, b"he".to_vec()),
        other => panic!("unexpected read result {other:?}"),
    }
    match s.read(100) {
        ReadResult::Data(d) => assert_eq!(d, b"llo".to_vec()),
        other => panic!("unexpected read result {other:?}"),
    }
    assert!(matches!(s.read(1), ReadResult::WouldBlock));
}

#[test]
fn empty_payload_is_eof_exactly_once() {
    let mut s = fresh();
    assert!(s.push_frame(b"tail".to_vec()));
    assert!(s.push_frame(Vec::new()));
    match s.read(16) {
        ReadResult::Data(d) => assert_eq!(d, b"tail".to_vec()),
        other => panic!("unexpected read result {other:?}"),
    }
    assert!(matches!(s.read(16), ReadResult::Eof));
    // Further reads keep returning end of stream, even if a misbehaving
    // peer queues more bytes afterwards.
    assert!(matches!(s.read(16), ReadResult::Eof));
    assert!(s.push_frame(b"junk".to_vec()));
    assert!(matches!(s.read(16), ReadResult::Eof));
}

#[test]
fn write_chunks_at_the_payload_limit() {
    let s = fresh();
    let data = vec![7u8; MAX_PAYLOAD_SIZE + 3];
    let frames = s.write(&data).unwrap();
    assert_eq!(frames.len(), 2);
    assert_eq!(frames[0].data.len(), MAX_PAYLOAD_SIZE);
    assert_eq!(frames[1].data.len(), 3);
    let mut total = Vec::new();
    for f in &frames {
        assert_eq!(f.sport, 10);
        assert_eq!(f.dport, 20);
        total.extend_from_slice(&f.data);
    }
    assert_eq!(total, data);
    // An empty write produces no frame at all: an empty payload would mean
    // end of stream to the peer.
    assert!(s.write(&Vec::new()).unwrap().is_empty());
}

#[test]
fn writes_fail_after_shutdown_or_removal() {
    let mut s = fresh();
    assert!(s.shutdown().is_some());
    assert_eq!(s.write(&b"late".to_vec()), Err(Error::BrokenPipe));
    let mut r = fresh();
    r.mark_removed();
    assert_eq!(r.write(&b"late".to_vec()), Err(Error::BrokenPipe));
    // A removed stream does not emit Fin either.
    assert!(r.shutdown().is_none());
}

#[test]
fn drop_notice_reports_ports_and_fin() {
    let mut s = fresh();
    assert_eq!(s.drop_notice(), (10, 20, false));
    assert!(s.shutdown().is_some());
    assert_eq!(s.drop_notice(), (10, 20, true));
}
