//! Tests for the frame and message codecs.

use palantir::frame::{encode_frame, parse_frame, encode_u32_le, read_u32_le};
use palantir::messages::{
    encode_message, decode_message, encode_purpose, decode_purpose, ActorID, ChannelPurpose,
    PalantirMessage,
};
use palantir::error::{FramedError, TransmissionError};

#[test]
fn u32_le_round_trip() {
    let bytes = encode_u32_le(0xDEADBEEF);
    assert_eq!(bytes, vec![0xEF, 0xBE, 0xAD, 0xDE]);
    assert_eq!(read_u32_le(&bytes, 0), 0xDEADBEEF);
}

#[test]
fn frame_exact_bytes() {
    let frame = encode_frame(&vec![0xAB]).unwrap();
    assert_eq!(frame, vec![1, 0, 0, 0, 0xAB]);
}

#[test]
fn frame_round_trip() {
    let payload = vec![1u8, 2, 3, 4, 5];
    let frame = encode_frame(&payload).unwrap();
    let (parsed, consumed) = parse_frame(&frame).unwrap();
    assert_eq!(parsed, payload);
    assert_eq!(consumed, 9);
}

#[test]
fn frame_zero_byte_payload() {
    let frame = encode_frame(&vec![]).unwrap();
    assert_eq!(frame, vec![0, 0, 0, 0]);
    let (parsed, consumed) = parse_frame(&frame).unwrap();
    assert_eq!(parsed, Vec::<u8>::new());
    assert_eq!(consumed, 4);
}

#[test]
fn frame_short_prefix() {
    let buf = vec![1u8, 0];
    let err = parse_frame(&buf).unwrap_err();
    match err {
        TransmissionError::TransmissionEndedEarly { expected_size, received_size, .. } => {
            assert_eq!(expected_size, 4);
            assert_eq!(received_size, 2);
        },
        _ => panic!("expected a short read on the prefix"),
    }
}

#[test]
fn frame_short_payload() {
    // A frame announcing five bytes whose stream closed after three.
    let mut buf = encode_u32_le(5);
    buf.extend_from_slice(&[1, 2, 3]);
    let err = parse_frame(&buf).unwrap_err();
    match err {
        TransmissionError::TransmissionEndedEarly { expected_size, received_size, .. } => {
            assert_eq!(expected_size, 5);
            assert_eq!(received_size, 3);
        },
        _ => panic!("expected a short read on the payload"),
    }
}

#[test]
fn message_exact_bytes() {
    let done = encode_message(&PalantirMessage::HandshakeCompleted).unwrap();
    assert_eq!(done, vec![3]);
    let req = encode_message(&PalantirMessage::Request { id: 1, data: vec![2] }).unwrap();
    assert_eq!(req, vec![4, 1, 0, 0, 0, 1, 0, 0, 0, 2]);
}

#[test]
fn message_round_trip_handshake_variants() {
    let m = PalantirMessage::ClientInitiation {
        magic: "PALANTIR".to_string(),
        name: "alice".to_string(),
    };
    let bytes = encode_message(&m).unwrap();
    match decode_message(&bytes).unwrap() {
        PalantirMessage::ClientInitiation { magic, name } => {
            assert_eq!(magic, "PALANTIR");
            assert_eq!(name, "alice");
        },
        _ => panic!("wrong variant"),
    }

    let m = PalantirMessage::ServerResponse {
        magic: "PALANTIR".to_string(),
        name: "böb".to_string(),
    };
    let bytes = encode_message(&m).unwrap();
    match decode_message(&bytes).unwrap() {
        PalantirMessage::ServerResponse { magic, name } => {
            assert_eq!(magic, "PALANTIR");
            assert_eq!(name, "böb");
        },
        _ => panic!("wrong variant"),
    }
}

#[test]
fn message_round_trip_payload_variants() {
    let bytes = encode_message(&PalantirMessage::ValidatorPacket(vec![9, 8, 7])).unwrap();
    match decode_message(&bytes).unwrap() {
        PalantirMessage::ValidatorPacket(d) => assert_eq!(d, vec![9, 8, 7]),
        _ => panic!("wrong variant"),
    }

    let bytes =
        encode_message(&PalantirMessage::Request { id: 42, data: vec![1, 2, 3] }).unwrap();
    match decode_message(&bytes).unwrap() {
        PalantirMessage::Request { id, data } => {
            assert_eq!(id, 42);
            assert_eq!(data, vec![1, 2, 3]);
        },
        _ => panic!("wrong variant"),
    }

    let bytes = encode_message(&PalantirMessage::Response { id: 7, data: vec![] }).unwrap();
    match decode_message(&bytes).unwrap() {
        PalantirMessage::Response { id, data } => {
            assert_eq!(id, 7);
            assert_eq!(data, Vec::<u8>::new());
        },
        _ => panic!("wrong variant"),
    }
}

#[test]
fn message_round_trip_unit_variants() {
    let variants = [
        PalantirMessage::HandshakeCompleted,
        PalantirMessage::NameTaken,
        PalantirMessage::InvalidMagic,
        PalantirMessage::UnexpectedPacket,
        PalantirMessage::MalformedData,
    ];
    for (i, m) in variants.into_iter().enumerate() {
        let bytes = encode_message(&m).unwrap();
        let back = decode_message(&bytes).unwrap();
        let ok = match (i, back) {
            (0, PalantirMessage::HandshakeCompleted) => true,
            (1, PalantirMessage::NameTaken) => true,
            (2, PalantirMessage::InvalidMagic) => true,
            (3, PalantirMessage::UnexpectedPacket) => true,
            (4, PalantirMessage::MalformedData) => true,
            _ => false,
        };
        assert!(ok);
    }
}

#[test]
fn decode_rejects_garbage() {
    let garbage = vec![99u8, 1, 2];
    match decode_message(&garbage).unwrap_err() {
        FramedError::InvalidEncoding { packet } => assert_eq!(packet, garbage),
        _ => panic!("expected InvalidEncoding"),
    }
    // A truncated string field is refused too.
    let truncated = vec![0u8, 8, 0, 0, 0, b'P'];
    assert!(matches!(
        decode_message(&truncated),
        Err(FramedError::InvalidEncoding { .. })
    ));
    // Trailing bytes after a whole message are refused.
    let mut padded = encode_message(&PalantirMessage::HandshakeCompleted).unwrap();
    padded.push(0);
    assert!(matches!(
        decode_message(&padded),
        Err(FramedError::InvalidEncoding { .. })
    ));
}

#[test]
fn purpose_round_trip() {
    let bytes = encode_purpose(&ChannelPurpose::Handshake).unwrap();
    assert_eq!(bytes, vec![0]);
    assert!(matches!(
        decode_purpose(&bytes).unwrap(),
        ChannelPurpose::Handshake
    ));

    let p = ChannelPurpose::RequestResponse(ActorID::Numeric(7), "ping".to_string());
    let bytes = encode_purpose(&p).unwrap();
    match decode_purpose(&bytes).unwrap() {
        ChannelPurpose::RequestResponse(ActorID::Numeric(id), m) => {
            assert_eq!(id, 7);
            assert_eq!(m, "ping");
        },
        _ => panic!("wrong variant"),
    }

    let p = ChannelPurpose::RequestResponse(ActorID::Named("echo".to_string()), "m".to_string());
    let bytes = encode_purpose(&p).unwrap();
    match decode_purpose(&bytes).unwrap() {
        ChannelPurpose::RequestResponse(ActorID::Named(n), m) => {
            assert_eq!(n, "echo");
            assert_eq!(m, "m");
        },
        _ => panic!("wrong variant"),
    }

    assert!(matches!(
        decode_purpose(&vec![7u8]),
        Err(FramedError::InvalidEncoding { .. })
    ));
}
