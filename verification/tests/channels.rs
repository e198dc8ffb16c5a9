//! Tests for the timeout registry and the request/response channel.

use palantir::timeout::TimeoutChannels;
use palantir::channel::Channel;
use palantir::frame::parse_frame;
use palantir::messages::{decode_message, PalantirMessage};
use palantir::error::{FramedError, TransmissionError};

#[test]
fn registry_keys_are_unique() {
    let mut reg = TimeoutChannels::new(30_000);
    let (_r1, k1) = reg.add(0);
    let (_r2, k2) = reg.add(1);
    let (_r3, k3) = reg.add(2);
    assert_ne!(k1, k2);
    assert_ne!(k1, k3);
    assert_ne!(k2, k3);
}

#[test]
fn registry_next_deadline_tracks_the_front_entry() {
    let mut reg = TimeoutChannels::new(1_000);
    assert!(reg.next_deadline().is_none());
    let (_r1, _k1) = reg.add(5);
    let (_r2, _k2) = reg.add(300);
    assert_eq!(reg.next_deadline(), Some(1_005));
    let expired = reg.tick(1_005);
    assert_eq!(expired.len(), 1);
    assert_eq!(reg.next_deadline(), Some(1_300));
}

#[test]
fn registry_pop_some_iff_live() {
    let mut reg = TimeoutChannels::new(30_000);
    let (_recv, key) = reg.add(0);
    assert!(reg.pop(key).is_some());
    // Popped already: gone.
    assert!(reg.pop(key).is_none());
    // Never issued: gone.
    assert!(reg.pop(key + 1).is_none());
}

#[test]
fn registry_pop_none_after_expiry() {
    let mut reg = TimeoutChannels::new(30_000);
    let (recv, key) = reg.add(0);
    let expired = reg.tick(30_000);
    assert_eq!(expired, vec![key]);
    assert!(reg.pop(key).is_none());
    // Dropping the slot wakes the receiving half with an error.
    let mut recv = recv;
    assert!(recv.try_recv().is_err());
}

#[test]
fn registry_tick_expires_exactly_the_due_prefix() {
    let mut reg = TimeoutChannels::new(1_000);
    let (_r1, k1) = reg.add(0);
    let (_r2, k2) = reg.add(400);
    let (_r3, k3) = reg.add(2_000);
    // At 1400 the first two entries are past their deadline, the third is not.
    let expired = reg.tick(1_400);
    assert_eq!(expired, vec![k1, k2]);
    assert!(reg.pop(k3).is_some());
}

#[test]
fn channel_request_echo_round_trip() {
    let mut ch = Channel::new(30_000);
    let data = vec![5u8, 6, 7];
    let (frame, response, id) = ch.request(0, data.clone()).unwrap();

    // The peer decodes exactly the request that was sent.
    let (payload, _consumed) = parse_frame(&frame).unwrap();
    let (req_id, req_data) = match decode_message(&payload).unwrap() {
        PalantirMessage::Request { id, data } => (id, data),
        _ => panic!("expected a request frame"),
    };
    assert_eq!(req_id, id);
    assert_eq!(req_data, data);

    // An echoing handler answers with the identical bytes.
    let echo = PalantirMessage::Response { id: req_id, data: req_data };
    let step = ch.run_step(Ok(echo));
    assert_eq!(step.delivered, Some(id));
    assert!(!step.terminated);

    // The caller's response future yields the data it sent.
    let mut response = response;
    assert_eq!(response.try_recv().unwrap(), data);
}

#[test]
fn channel_empty_request_yields_empty_bytes() {
    let mut ch = Channel::new(30_000);
    let (frame, response, id) = ch.request(0, vec![]).unwrap();
    let (payload, _) = parse_frame(&frame).unwrap();
    match decode_message(&payload).unwrap() {
        PalantirMessage::Request { id: rid, data } => {
            assert_eq!(rid, id);
            assert_eq!(data, Vec::<u8>::new());
        },
        _ => panic!("expected a request frame"),
    }
    let step = ch.run_step(Ok(PalantirMessage::Response { id, data: vec![] }));
    assert_eq!(step.delivered, Some(id));
    let mut response = response;
    assert_eq!(response.try_recv().unwrap(), Vec::<u8>::new());
}

#[test]
fn channel_ignores_unknown_response_ids() {
    let mut ch = Channel::new(30_000);
    let step = ch.run_step(Ok(PalantirMessage::Response { id: 12345, data: vec![1] }));
    assert_eq!(step.delivered, None);
    assert!(!step.terminated);
    // Other message kinds are discarded without terminating.
    let step = ch.run_step(Ok(PalantirMessage::HandshakeCompleted));
    assert_eq!(step.delivered, None);
    assert!(!step.terminated);
}

#[test]
fn channel_terminates_after_five_consecutive_errors() {
    let mut ch = Channel::new(30_000);
    for _ in 0..4 {
        let step = ch.run_step(Err(FramedError::InvalidEncoding { packet: vec![0xFF] }));
        assert!(!step.terminated);
    }
    let step = ch.run_step(Err(FramedError::InvalidEncoding { packet: vec![0xFF] }));
    assert!(step.terminated);
    assert!(ch.is_terminated());

    // A request sent after the run-loop died resolves through its timeout.
    let (_frame, response, id) = ch.request(0, vec![1, 2]).unwrap();
    let expired = ch.tick(30_000);
    assert_eq!(expired, vec![id]);
    let mut response = response;
    assert!(response.try_recv().is_err());
}

#[test]
fn channel_error_counter_resets_on_success() {
    let mut ch = Channel::new(30_000);
    for _ in 0..4 {
        let step = ch.run_step(Err(FramedError::TransmissionError(
            TransmissionError::TransportError,
        )));
        assert!(!step.terminated);
    }
    // One decodable frame resets the counter; four more errors do not kill it.
    ch.run_step(Ok(PalantirMessage::MalformedData));
    for _ in 0..4 {
        let step = ch.run_step(Err(FramedError::TransmissionError(
            TransmissionError::TransportError,
        )));
        assert!(!step.terminated);
    }
}

#[test]
fn channel_short_read_counts_one_error_and_continues() {
    // A frame announcing five bytes arrives with only three: the codec
    // reports the exact short read and the run-loop keeps going.
    let mut buf = palantir::frame::encode_u32_le(5);
    buf.extend_from_slice(&[1, 2, 3]);
    let err = parse_frame(&buf).unwrap_err();
    match &err {
        TransmissionError::TransmissionEndedEarly { expected_size, received_size, .. } => {
            assert_eq!(*expected_size, 5);
            assert_eq!(*received_size, 3);
        },
        _ => panic!("expected a short read"),
    }
    let mut ch = Channel::new(30_000);
    let step = ch.run_step(Err(FramedError::TransmissionError(err)));
    assert!(!step.terminated);
    assert!(!ch.is_terminated());
}
