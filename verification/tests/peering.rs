//! Tests for the handshake state machine, the peer table, the router, and
//! peer identification.

use palantir::handshake::{HandshakeMachine, HandshakeState};
use palantir::messages::{decode_message, encode_message, ActorID, PalantirMessage, Side};
use palantir::peer::{admit_session, open_channel, PeerTable};
use palantir::router::{HandlerRegistry, Identifier};
use palantir::request::Request;
use palantir::error::{FramedError, HandshakeError, OpenChannelError};
use palantir::identification::{assemble_id, generate_random_id};

/// Sends a message through the wire codec, as one peer's frame reaching the
/// other.
fn over_the_wire(m: &PalantirMessage) -> PalantirMessage {
    let bytes = encode_message(m).unwrap();
    decode_message(&bytes).unwrap()
}

#[test]
fn handshake_two_nodes_succeed() {
    let table_a = PeerTable::new();
    let table_b = PeerTable::new();
    let mut a = HandshakeMachine::new(Side::Initiator, "a".to_string());
    let mut b = HandshakeMachine::new(Side::Acceptor, "b".to_string());

    // Step 1: the initiator transmits its initiation.
    let initiation = a.initiation();
    let out_b = b.on_frame(Ok(over_the_wire(&initiation)), &table_b);
    assert!(out_b.run_validator);
    let response = out_b.reply.expect("the acceptor answers with its response");

    // Step 2: the initiator receives the acceptor's response.
    let out_a = a.on_frame(Ok(over_the_wire(&response)), &table_a);
    assert!(out_a.run_validator);
    assert!(out_a.reply.is_none());

    // Step 3: permissive validators accept on both sides.
    let out_b = b.on_validator(true);
    assert!(out_b.reply.is_none());
    let out_a = a.on_validator(true);
    assert!(out_a.done);
    let completed = out_a.reply.expect("the initiator closes the handshake");

    // Step 4: the acceptor receives the completion.
    let out_b = b.on_frame(Ok(over_the_wire(&completed)), &table_b);
    assert!(out_b.done);

    assert_eq!(a.state(), HandshakeState::Complete);
    assert_eq!(b.state(), HandshakeState::Complete);
    assert_eq!(a.peer_name().as_deref(), Some("b"));
    assert_eq!(b.peer_name().as_deref(), Some("a"));

    // Each side inserts the counterparty; the tables hold exactly one entry.
    let mut table_a = table_a;
    let mut table_b = table_b;
    assert!(table_a.insert(a.peer_name().clone().unwrap(), 1));
    assert!(table_b.insert(b.peer_name().clone().unwrap(), 2));
    assert_eq!(table_a.len(), 1);
    assert_eq!(table_b.len(), 1);
    assert!(table_a.contains(&"b".to_string()));
    assert!(table_b.contains(&"a".to_string()));
    // A second handshake under the same name cannot add a second entry.
    assert!(!table_a.insert("b".to_string(), 3));
    assert_eq!(table_a.len(), 1);
}

#[test]
fn handshake_name_taken_gains_no_entry() {
    // A's table already holds "a" for its peer; B dials A under "a" again.
    let mut table = PeerTable::new();
    assert!(table.insert("a".to_string(), 1));
    let mut acceptor = HandshakeMachine::new(Side::Acceptor, "x".to_string());
    let initiation = PalantirMessage::ClientInitiation {
        magic: "PALANTIR".to_string(),
        name: "a".to_string(),
    };
    let out = acceptor.on_frame(Ok(over_the_wire(&initiation)), &table);
    assert!(out.failed);
    assert!(matches!(acceptor.errors()[0], HandshakeError::NameTaken));
    assert_eq!(acceptor.state(), HandshakeState::Failed);
    // The machine learned no name, so nothing is inserted: the table kept
    // its single entry.
    assert!(acceptor.peer_name().is_none());
    assert_eq!(table.len(), 1);

    // The detecting side transmitted its terminal reason; the rejected
    // dialer receives that frame and comes away with NameTaken itself,
    // answering nothing: the peer has already terminated.
    let reason = out.reply.expect("the detecting side transmits NameTaken");
    assert!(matches!(reason, PalantirMessage::NameTaken));
    let dialer_table = PeerTable::new();
    let mut dialer = HandshakeMachine::new(Side::Initiator, "a".to_string());
    let out = dialer.on_frame(Ok(over_the_wire(&reason)), &dialer_table);
    assert!(out.failed);
    assert!(out.reply.is_none());
    assert!(matches!(dialer.errors()[0], HandshakeError::NameTaken));
    assert!(dialer.peer_name().is_none());
    assert_eq!(dialer_table.len(), 0);
}

#[test]
fn received_terminal_reasons_surface_as_reported() {
    // Whatever the peer's terminal reason frame reports, the receiving
    // side fails with that reason and sends nothing back.
    let table = PeerTable::new();

    let mut m = HandshakeMachine::new(Side::Initiator, "x".to_string());
    let out = m.on_frame(Ok(over_the_wire(&PalantirMessage::InvalidMagic)), &table);
    assert!(out.failed && out.reply.is_none());
    assert!(matches!(m.errors()[0], HandshakeError::InvalidMagic));

    let mut m = HandshakeMachine::new(Side::Acceptor, "x".to_string());
    let out = m.on_frame(Ok(over_the_wire(&PalantirMessage::UnexpectedPacket)), &table);
    assert!(out.failed && out.reply.is_none());
    assert!(matches!(m.errors()[0], HandshakeError::UnexpectedPacket));

    let mut m = HandshakeMachine::new(Side::Initiator, "x".to_string());
    let out = m.on_frame(Ok(over_the_wire(&PalantirMessage::MalformedData)), &table);
    assert!(out.failed && out.reply.is_none());
    match &m.errors()[0] {
        HandshakeError::FramedError(FramedError::InvalidEncoding { packet }) => {
            assert!(packet.is_empty());
        },
        _ => panic!("a reported MalformedData surfaces as the wrapped InvalidEncoding"),
    }
}

#[test]
fn handshake_invalid_magic() {
    let table = PeerTable::new();
    let mut acceptor = HandshakeMachine::new(Side::Acceptor, "x".to_string());
    let initiation = PalantirMessage::ClientInitiation {
        magic: "PELENNOR!".to_string(),
        name: "a".to_string(),
    };
    let out = acceptor.on_frame(Ok(over_the_wire(&initiation)), &table);
    assert!(out.failed);
    assert!(matches!(out.reply, Some(PalantirMessage::InvalidMagic)));
    assert!(matches!(acceptor.errors()[0], HandshakeError::InvalidMagic));
}

#[test]
fn handshake_unexpected_packet() {
    let table = PeerTable::new();
    let mut acceptor = HandshakeMachine::new(Side::Acceptor, "x".to_string());
    let wrong = PalantirMessage::Request { id: 1, data: vec![1] };
    let out = acceptor.on_frame(Ok(over_the_wire(&wrong)), &table);
    assert!(out.failed);
    assert!(matches!(out.reply, Some(PalantirMessage::UnexpectedPacket)));
    assert!(matches!(acceptor.errors()[0], HandshakeError::UnexpectedPacket));
}

#[test]
fn handshake_malformed_frame() {
    let table = PeerTable::new();
    let mut initiator = HandshakeMachine::new(Side::Initiator, "x".to_string());
    let out = initiator.on_frame(
        Err(FramedError::InvalidEncoding { packet: vec![0xFF] }),
        &table,
    );
    assert!(out.failed);
    assert!(matches!(out.reply, Some(PalantirMessage::MalformedData)));
    assert!(matches!(initiator.errors()[0], HandshakeError::FramedError(_)));
    // The error chain keeps a failure while informing the peer, too.
    initiator.record_send_failure(FramedError::TransmissionError(
        palantir::error::TransmissionError::NotConnected,
    ));
    assert_eq!(initiator.errors().len(), 2);
}

#[test]
fn handshake_validator_rejection() {
    let table = PeerTable::new();
    let mut acceptor = HandshakeMachine::new(Side::Acceptor, "b".to_string());
    let initiation = PalantirMessage::ClientInitiation {
        magic: "PALANTIR".to_string(),
        name: "a".to_string(),
    };
    let out = acceptor.on_frame(Ok(over_the_wire(&initiation)), &table);
    assert!(out.run_validator);
    let out = acceptor.on_validator(false);
    assert!(out.failed);
    assert_eq!(acceptor.state(), HandshakeState::Failed);
}

#[test]
fn admission_requires_fresh_nonempty_name() {
    let mut table = PeerTable::new();
    assert!(!admit_session(&None, &table));
    assert!(!admit_session(&Some("".to_string()), &table));
    assert!(admit_session(&Some("a".to_string()), &table));
    assert!(table.insert("a".to_string(), 1));
    assert!(!admit_session(&Some("a".to_string()), &table));
}

#[test]
fn peer_table_lookup() {
    let mut table = PeerTable::new();
    assert!(table.insert("a".to_string(), 17));
    assert_eq!(table.get(&"a".to_string()), Some(17));
    assert_eq!(table.get(&"b".to_string()), None);
}

#[test]
fn open_channel_unknown_peer() {
    let table = PeerTable::new();
    let r = open_channel(&table, &"b".to_string(), ActorID::Numeric(7), "ping".to_string());
    assert!(matches!(r, Err(OpenChannelError::PeerDoesntExist)));
}

#[test]
fn open_channel_purpose_frame() {
    let mut table = PeerTable::new();
    assert!(table.insert("b".to_string(), 9));
    let (conn, frame) =
        open_channel(&table, &"b".to_string(), ActorID::Numeric(7), "ping".to_string()).unwrap();
    assert_eq!(conn, 9);
    let (payload, _) = palantir::frame::parse_frame(&frame).unwrap();
    match palantir::messages::decode_purpose(&payload).unwrap() {
        palantir::messages::ChannelPurpose::RequestResponse(ActorID::Numeric(id), m) => {
            assert_eq!(id, 7);
            assert_eq!(m, "ping");
        },
        _ => panic!("wrong purpose"),
    }
}

#[test]
fn identifier_narrowing() {
    assert!(ActorID::from_identifier(Identifier::Local(3)).is_none());
    assert!(ActorID::from_identifier(Identifier::LocalNamed("x".to_string())).is_none());
    match ActorID::from_identifier(Identifier::Foreign(7, "b".to_string())).unwrap() {
        (ActorID::Numeric(id), system) => {
            assert_eq!(id, 7);
            assert_eq!(system, "b");
        },
        _ => panic!("wrong narrowing"),
    }
    match ActorID::from_identifier(Identifier::ForeignNamed("e".to_string(), "b".to_string()))
        .unwrap()
    {
        (ActorID::Named(n), system) => {
            assert_eq!(n, "e");
            assert_eq!(system, "b");
        },
        _ => panic!("wrong narrowing"),
    }
}

#[test]
fn router_dispatches_to_reversing_handler() {
    // Register on the remote node an actor with id 7 handling "ping" that
    // returns its input reversed, and route one request through its inbox.
    let mut registry = HandlerRegistry::new();
    let mut inbox = registry.register(ActorID::Numeric(7), "ping".to_string(), 256);

    let sender = registry
        .lookup(&ActorID::Numeric(7), &"ping".to_string())
        .expect("registered handler found");
    let (request, mut response) = Request::new(vec![0x01, 0x02, 0x03]);
    sender.try_send(request).unwrap();

    // The handler task: receive, reverse, respond.
    let request = inbox.try_recv().unwrap();
    let mut reversed = request.data().clone();
    reversed.reverse();
    request.respond(reversed).unwrap();

    assert_eq!(response.try_recv().unwrap(), vec![0x03, 0x02, 0x01]);
}

#[test]
fn router_drops_unregistered_targets() {
    let mut registry = HandlerRegistry::new();
    let _inbox = registry.register(ActorID::Numeric(7), "ping".to_string(), 256);
    assert!(registry.lookup(&ActorID::Numeric(8), &"ping".to_string()).is_none());
    assert!(registry.lookup(&ActorID::Numeric(7), &"pong".to_string()).is_none());
    assert!(registry
        .lookup(&ActorID::Named("seven".to_string()), &"ping".to_string())
        .is_none());
}

#[test]
fn router_reregistration_replaces_the_inbox() {
    let mut registry = HandlerRegistry::new();
    let _old = registry.register(ActorID::Numeric(7), "ping".to_string(), 256);
    let mut newer = registry.register(ActorID::Numeric(7), "ping".to_string(), 256);
    assert_eq!(registry.len(), 1);
    let sender = registry.lookup(&ActorID::Numeric(7), &"ping".to_string()).unwrap();
    let (request, _response) = Request::new(vec![1]);
    sender.try_send(request).unwrap();
    assert_eq!(newer.try_recv().unwrap().data(), &vec![1]);
}

#[test]
fn slow_handler_times_out_but_stays_alive() {
    // The remote actor sleeps past the deadline: the caller's request
    // expires at the timeout, and the handler's inbox remains usable for
    // later requests.
    let mut ch = palantir::channel::Channel::new(30_000);
    let (_frame, mut response, id) = ch.request(0, vec![1]).unwrap();
    let expired = ch.tick(30_000);
    assert_eq!(expired, vec![id]);
    assert!(response.try_recv().is_err());

    // A later request on the same channel still works end to end.
    let (_frame, mut response2, id2) = ch.request(31_000, vec![9]).unwrap();
    let step = ch.run_step(Ok(PalantirMessage::Response { id: id2, data: vec![9] }));
    assert_eq!(step.delivered, Some(id2));
    assert_eq!(response2.try_recv().unwrap(), vec![9]);
}

#[test]
fn assembled_ids_follow_the_documented_construction() {
    // Recompute the id by hand with the same primitives the library names.
    let namespace = 0u128;
    let timestamp = 0u64;
    let draw64 = 0u64;
    let draw128 = 0u128;
    let first: u128 = ((timestamp as u128) << 64) | (draw64 as u128);
    let masked = first ^ draw128;
    let uuid = uuid::Uuid::new_v5(&uuid::Uuid::from_u128(namespace), &masked.to_le_bytes());
    let mut preimage = first.to_le_bytes().to_vec();
    preimage.extend_from_slice(uuid.as_bytes());
    let digest = <sha2::Sha256 as sha2::Digest>::digest(&preimage);
    let lo = u128::from_le_bytes(digest[0..16].try_into().unwrap());
    let hi = u128::from_le_bytes(digest[16..32].try_into().unwrap());

    let id = assemble_id(namespace, timestamp, draw64, draw128);
    assert_eq!(id, [lo, hi]);

    // The construction is a function of its inputs alone.
    let again = assemble_id(namespace, timestamp, draw64, draw128);
    assert_eq!(id, again);
    // And it depends on the namespace.
    let other = assemble_id(1, timestamp, draw64, draw128);
    assert_ne!(id, other);
}

#[test]
fn random_ids_are_well_formed() {
    let a = generate_random_id(42);
    let b = generate_random_id(42);
    // Two random draws collide with negligible probability.
    assert_ne!(a, b);
}
