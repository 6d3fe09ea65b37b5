//! Tests of the frame codec: exact wire bytes, round trips, and the
//! decoder's rejections.

use penguin_mux::frame::{
    decode_frame, encode_frame, make_syn_payload, parse_syn_payload, DatagramFrame, Frame,
    StreamFlag, StreamFrame,
};
use penguin_mux::Error;

#[test]
fn stream_frame_wire_bytes_exact() {
    let frame = Frame::Stream(StreamFrame {
        sport: 0x0102,
        dport: 0x0304,
        flag: StreamFlag::Psh,
        data: vec![0xAA, 0xBB],
    });
    let bytes = encode_frame(&frame).unwrap();
    assert_eq!(bytes, vec![0x01, 0x01, 0x02, 0x03, 0x04, 0x04, 0xAA, 0xBB]);
}

#[test]
fn datagram_frame_wire_bytes_exact() {
    let frame = Frame::Datagram(DatagramFrame {
        host: b"ab".to_vec(),
        port: 53,
        source_id: 7,
        payload: vec![9],
    });
    let bytes = encode_frame(&frame).unwrap();
    assert_eq!(bytes, vec![0x02, 0x02, b'a', b'b', 0x00, 0x35, 0x00, 0x00, 0x00, 0x07, 0x09]);
}

#[test]
fn flag_codes_follow_the_wire_table() {
    for (flag, code) in [
        (StreamFlag::Syn, 0u8),
        (StreamFlag::Ack, 1),
        (StreamFlag::Rst, 2),
        (StreamFlag::Fin, 3),
        (StreamFlag::Psh, 4),
    ] {
        let frame = Frame::Stream(StreamFrame { sport: 1, dport: 2, flag, data: vec![] });
        let bytes = encode_frame(&frame).unwrap();
        assert_eq!(bytes[5], code);
    }
}

#[test]
fn stream_frame_round_trips() {
    let frame = Frame::Stream(StreamFrame {
        sport: 65535,
        dport: 0,
        flag: StreamFlag::Syn,
        data: vec![1, 2, 3, 4, 5],
    });
    let bytes = encode_frame(&frame).unwrap();
    match decode_frame(&bytes).unwrap() {
        Frame::Stream(sf) => {
            assert_eq!(sf.sport, 65535);
            assert_eq!(sf.dport, 0);
            assert_eq!(sf.flag, StreamFlag::Syn);
            assert_eq!(sf.data, vec![1, 2, 3, 4, 5]);
        }
        Frame::Datagram(_) => panic!("decoded the wrong frame kind"),
    }
}

#[test]
fn datagram_frame_round_trips() {
    let frame = Frame::Datagram(DatagramFrame {
        host: b"example.com".to_vec(),
        port: 4433,
        source_id: 0xDEADBEEF,
        payload: vec![0; 100],
    });
    let bytes = encode_frame(&frame).unwrap();
    match decode_frame(&bytes).unwrap() {
        Frame::Datagram(df) => {
            assert_eq!(df.host, b"example.com".to_vec());
            assert_eq!(df.port, 4433);
            assert_eq!(df.source_id, 0xDEADBEEF);
            assert_eq!(df.payload, vec![0; 100]);
        }
        Frame::Stream(_) => panic!("decoded the wrong frame kind"),
    }
}

#[test]
fn host_of_255_octets_round_trips() {
    let frame = Frame::Datagram(DatagramFrame {
        host: vec![b'h'; 255],
        port: 1,
        source_id: 2,
        payload: vec![3],
    });
    let bytes = encode_frame(&frame).unwrap();
    match decode_frame(&bytes).unwrap() {
        Frame::Datagram(df) => {
            assert_eq!(df.host.len(), 255);
            assert_eq!(df.payload, vec![3]);
        }
        Frame::Stream(_) => panic!("decoded the wrong frame kind"),
    }
}

#[test]
fn host_of_256_octets_fails_encoding() {
    let frame = Frame::Datagram(DatagramFrame {
        host: vec![b'h'; 256],
        port: 1,
        source_id: 2,
        payload: vec![],
    });
    assert_eq!(encode_frame(&frame), Err(Error::RHostTooLong));
}

#[test]
fn decoder_rejects_garbage() {
    // Empty message.
    assert_eq!(decode_frame(&vec![]), Err(Error::InvalidFrame));
    // Unknown tag.
    assert_eq!(decode_frame(&vec![3, 0, 0, 0, 0, 0]), Err(Error::InvalidFrame));
    // Truncated stream header.
    assert_eq!(decode_frame(&vec![1, 0, 1, 0]), Err(Error::InvalidFrame));
    // Unknown flag code.
    assert_eq!(decode_frame(&vec![1, 0, 1, 0, 2, 5]), Err(Error::InvalidFrame));
    // Truncated datagram header.
    assert_eq!(decode_frame(&vec![2, 1, b'h', 0, 53]), Err(Error::InvalidFrame));
    // Host length past the end of the message.
    assert_eq!(decode_frame(&vec![2, 9, b'h', 0, 53, 0, 0, 0, 7]), Err(Error::InvalidFrame));
}

#[test]
fn syn_payload_round_trips() {
    let payload = make_syn_payload(&b"example.com".to_vec(), 8080).unwrap();
    assert_eq!(payload[0], 11);
    let (host, port) = parse_syn_payload(&payload).unwrap();
    assert_eq!(host, b"example.com".to_vec());
    assert_eq!(port, 8080);
}

#[test]
fn syn_payload_rejects_long_host_and_truncation() {
    assert_eq!(make_syn_payload(&vec![b'h'; 256], 1), Err(Error::RHostTooLong));
    assert_eq!(parse_syn_payload(&vec![5, b'a']), Err(Error::InvalidFrame));
    assert_eq!(parse_syn_payload(&vec![]), Err(Error::InvalidFrame));
}
