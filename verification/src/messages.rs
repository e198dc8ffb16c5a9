//! The wire message schema and its byte encoding.
//!
//! All messages exchanged between peers are one tagged enumeration,
//! [`PalantirMessage`]. A message is encoded as a tag byte followed by its
//! fields: strings as a little-endian `u32` byte length and UTF-8 bytes,
//! byte payloads as a little-endian `u32` length and the raw bytes, request
//! identifiers as a little-endian `u32`. Decoding accepts exactly the byte
//! strings that encoding produces, and decoding an encoded message yields
//! the message back.

use vstd::prelude::*;
use vstd::utf8::{encode_utf8, decode_utf8, valid_utf8, encode_utf8_valid_utf8, encode_utf8_decode_utf8};
use vstd::string::StrSliceExecFns;
use crate::error::FramedError;
use crate::frame::{u32_le_bytes, le_to_u32, lemma_u32_le_round, encode_u32_le, read_u32_le, copy_range, append_bytes};

verus! {

/// Which end of a connection the handshake is executing on.
#[derive(Debug, PartialEq, Eq, Structural, Clone, Copy)]
pub enum Side {
    /// The side that dialed and transmits first.
    Initiator,
    /// The side that accepted the connection.
    Acceptor,
}

/// A way to address an actor over the network: either the actor's numeric
/// id, or its name.
#[derive(Debug)]
pub enum ActorID {
    Numeric(u64),
    Named(String),
}

/// The mathematical value of an [`ActorID`].
pub enum ActorIdView {
    Numeric(u64),
    Named(Seq<char>),
}

impl View for ActorID {
    type V = ActorIdView;

    open spec fn view(&self) -> ActorIdView {
        match self {
            ActorID::Numeric(n) => ActorIdView::Numeric(*n),
            ActorID::Named(s) => ActorIdView::Named(s@),
        }
    }
}

/// The message structure that peers send over the wire.
#[derive(Debug)]
pub enum PalantirMessage {
    /// Sent by the initiator to the acceptor as the first handshake frame.
    /// Carries the initiator's name and a magic string that is always
    /// `PALANTIR`.
    ClientInitiation { magic: String, name: String },
    /// Sent by the acceptor to the initiator in response to a
    /// `ClientInitiation`. Carries the acceptor's name and the magic string.
    ServerResponse { magic: String, name: String },
    /// An arbitrary packet exchanged by the validator after
    /// `ServerResponse` and before `HandshakeCompleted`.
    ValidatorPacket(Vec<u8>),
    /// Sent by the initiator to the acceptor to terminate the handshake.
    HandshakeCompleted,
    /// A request with the given id and arbitrary payload.
    Request { id: u32, data: Vec<u8> },
    /// The response to the request with the given id.
    Response { id: u32, data: Vec<u8> },
    /// Terminal reason: the transmitted name was already taken.
    NameTaken,
    /// Terminal reason: the transmitted magic value was invalid.
    InvalidMagic,
    /// Terminal reason: an unexpected packet was received.
    UnexpectedPacket,
    /// Terminal reason: a received frame could not be decoded.
    MalformedData,
}

/// The mathematical value of a [`PalantirMessage`].
pub enum MessageView {
    ClientInitiation { magic: Seq<char>, name: Seq<char> },
    ServerResponse { magic: Seq<char>, name: Seq<char> },
    ValidatorPacket(Seq<u8>),
    HandshakeCompleted,
    Request { id: u32, data: Seq<u8> },
    Response { id: u32, data: Seq<u8> },
    NameTaken,
    InvalidMagic,
    UnexpectedPacket,
    MalformedData,
}

impl View for PalantirMessage {
    type V = MessageView;

    open spec fn view(&self) -> MessageView {
        match self {
            PalantirMessage::ClientInitiation { magic, name } => (MessageView::ClientInitiation {
                magic: magic@,
                name: name@,
            }),
            PalantirMessage::ServerResponse { magic, name } => (MessageView::ServerResponse {
                magic: magic@,
                name: name@,
            }),
            PalantirMessage::ValidatorPacket(d) => MessageView::ValidatorPacket(d@),
            PalantirMessage::HandshakeCompleted => MessageView::HandshakeCompleted,
            PalantirMessage::Request { id, data } => (MessageView::Request {
                id: *id,
                data: data@,
            }),
            PalantirMessage::Response { id, data } => (MessageView::Response {
                id: *id,
                data: data@,
            }),
            PalantirMessage::NameTaken => MessageView::NameTaken,
            PalantirMessage::InvalidMagic => MessageView::InvalidMagic,
            PalantirMessage::UnexpectedPacket => MessageView::UnexpectedPacket,
            PalantirMessage::MalformedData => MessageView::MalformedData,
        }
    }
}

/// What a channel will be used for; the first frame on a fresh stream.
#[derive(Debug)]
pub enum ChannelPurpose {
    /// The stream will carry a single handshake.
    Handshake,
    /// The stream is a request/response channel bound to the given actor
    /// and message type on the remote peer.
    RequestResponse(ActorID, String),
}

/// The mathematical value of a [`ChannelPurpose`].
pub enum PurposeView {
    Handshake,
    RequestResponse(ActorIdView, Seq<char>),
}

impl View for ChannelPurpose {
    type V = PurposeView;

    open spec fn view(&self) -> PurposeView {
        match self {
            ChannelPurpose::Handshake => PurposeView::Handshake,
            ChannelPurpose::RequestResponse(a, m) => PurposeView::RequestResponse(a@, m@),
        }
    }
}

/// The character sequence of the handshake magic string.
pub open spec fn spec_magic() -> Seq<char> {
    "PALANTIR"@
}

/// Whether a message is one of the four terminal reason frames that a
/// detecting side transmits before terminating a handshake.
pub open spec fn is_terminal_reason(m: MessageView) -> bool {
    m is NameTaken || m is InvalidMagic || m is UnexpectedPacket || m is MalformedData
}

/// A length-prefixed byte field: a little-endian `u32` length and the bytes.
pub open spec fn enc_bytes(b: Seq<u8>) -> Seq<u8>
    recommends
        b.len() < u32::MAX,
{
    u32_le_bytes(b.len() as u32) + b
}

/// A length-prefixed string field: the UTF-8 bytes of the string behind a
/// little-endian `u32` byte length.
pub open spec fn enc_str(s: Seq<char>) -> Seq<u8>
    recommends
        encode_utf8(s).len() < u32::MAX,
{
    enc_bytes(encode_utf8(s))
}

/// Whether a message fits the wire format: every length-prefixed field must
/// be shorter than `u32::MAX` bytes.
pub open spec fn msg_wf(m: MessageView) -> bool {
    match m {
        MessageView::ClientInitiation { magic, name } => encode_utf8(magic).len() < u32::MAX
            && encode_utf8(name).len() < u32::MAX,
        MessageView::ServerResponse { magic, name } => encode_utf8(magic).len() < u32::MAX
            && encode_utf8(name).len() < u32::MAX,
        MessageView::ValidatorPacket(d) => d.len() < u32::MAX,
        MessageView::Request { id, data } => data.len() < u32::MAX,
        MessageView::Response { id, data } => data.len() < u32::MAX,
        _ => true,
    }
}

/// The byte encoding of a message.
pub open spec fn spec_encode_message(m: MessageView) -> Seq<u8>
    recommends
        msg_wf(m),
{
    match m {
        MessageView::ClientInitiation { magic, name } => seq![0u8] + enc_str(magic) + enc_str(
            name,
        ),
        MessageView::ServerResponse { magic, name } => seq![1u8] + enc_str(magic) + enc_str(name),
        MessageView::ValidatorPacket(d) => seq![2u8] + enc_bytes(d),
        MessageView::HandshakeCompleted => seq![3u8],
        MessageView::Request { id, data } => seq![4u8] + u32_le_bytes(id) + enc_bytes(data),
        MessageView::Response { id, data } => seq![5u8] + u32_le_bytes(id) + enc_bytes(data),
        MessageView::NameTaken => seq![6u8],
        MessageView::InvalidMagic => seq![7u8],
        MessageView::UnexpectedPacket => seq![8u8],
        MessageView::MalformedData => seq![9u8],
    }
}

/// Parses a little-endian `u32` at `off`, yielding the value and the offset
/// just past it.
pub open spec fn dec_u32(b: Seq<u8>, off: int) -> Option<(u32, int)> {
    if 0 <= off && off + 4 <= b.len() {
        Some((le_to_u32(b.subrange(off, off + 4)) as u32, off + 4))
    } else {
        None
    }
}

/// Parses a length-prefixed byte field at `off`.
pub open spec fn dec_bytes(b: Seq<u8>, off: int) -> Option<(Seq<u8>, int)> {
    match dec_u32(b, off) {
        Option::None => None,
        Option::Some((l, o2)) => if o2 + l <= b.len() {
            Some((b.subrange(o2, o2 + l), o2 + l))
        } else {
            None
        },
    }
}

/// Parses a length-prefixed string field at `off`. The bytes must be valid
/// UTF-8.
pub open spec fn dec_str(b: Seq<u8>, off: int) -> Option<(Seq<char>, int)> {
    match dec_bytes(b, off) {
        Option::None => None,
        Option::Some((bs, o2)) => if valid_utf8(bs) {
            Some((decode_utf8(bs), o2))
        } else {
            None
        },
    }
}

/// The message held by a byte string, if the bytes are exactly one
/// well-formed encoded message.
pub open spec fn spec_decode_message(b: Seq<u8>) -> Option<MessageView> {
    if b.len() < 1 {
        None
    } else {
        let tag = b[0];
        if tag == 0 || tag == 1 {
            match dec_str(b, 1) {
                Option::None => None,
                Option::Some((magic, o1)) => match dec_str(b, o1) {
                    Option::None => None,
                    Option::Some((name, o2)) => if o2 == b.len() {
                        if tag == 0 {
                            Some(MessageView::ClientInitiation { magic, name })
                        } else {
                            Some(MessageView::ServerResponse { magic, name })
                        }
                    } else {
                        None
                    },
                },
            }
        } else if tag == 2 {
            match dec_bytes(b, 1) {
                Option::None => None,
                Option::Some((d, o1)) => if o1 == b.len() {
                    Some(MessageView::ValidatorPacket(d))
                } else {
                    None
                },
            }
        } else if tag == 3 {
            if b.len() == 1 {
                Some(MessageView::HandshakeCompleted)
            } else {
                None
            }
        } else if tag == 4 || tag == 5 {
            match dec_u32(b, 1) {
                Option::None => None,
                Option::Some((id, o1)) => match dec_bytes(b, o1) {
                    Option::None => None,
                    Option::Some((d, o2)) => if o2 == b.len() {
                        if tag == 4 {
                            Some(MessageView::Request { id, data: d })
                        } else {
                            Some(MessageView::Response { id, data: d })
                        }
                    } else {
                        None
                    },
                },
            }
        } else if tag == 6 {
            if b.len() == 1 {
                Some(MessageView::NameTaken)
            } else {
                None
            }
        } else if tag == 7 {
            if b.len() == 1 {
                Some(MessageView::InvalidMagic)
            } else {
                None
            }
        } else if tag == 8 {
            if b.len() == 1 {
                Some(MessageView::UnexpectedPacket)
            } else {
                None
            }
        } else if tag == 9 {
            if b.len() == 1 {
                Some(MessageView::MalformedData)
            } else {
                None
            }
        } else {
            None
        }
    }
}

/// Parsing a `u32` out of a byte string that holds its encoding at `off`
/// yields the value back.
proof fn lemma_dec_u32_at(b: Seq<u8>, off: int, n: u32)
    requires
        0 <= off,
        off + 4 <= b.len(),
        b.subrange(off, off + 4) == u32_le_bytes(n),
    ensures
        dec_u32(b, off) == Some((n, off + 4)),
{
    lemma_u32_le_round(n);
}

/// Parsing a byte field out of a byte string that holds its encoding at
/// `off` yields the field back.
proof fn lemma_dec_bytes_at(b: Seq<u8>, off: int, d: Seq<u8>)
    requires
        0 <= off,
        d.len() < u32::MAX,
        off + 4 + d.len() <= b.len(),
        b.subrange(off, off + 4 + d.len()) == enc_bytes(d),
    ensures
        dec_bytes(b, off) == Some((d, off + 4 + d.len() as int)),
{
    let piece = b.subrange(off, off + 4 + d.len());
    assert(b.subrange(off, off + 4) =~= piece.subrange(0, 4));
    assert(piece.subrange(0, 4) =~= u32_le_bytes(d.len() as u32));
    lemma_dec_u32_at(b, off, d.len() as u32);
    assert(b.subrange(off + 4, off + 4 + d.len() as int) =~= piece.subrange(4, 4 + d.len() as int));
    assert(piece.subrange(4, 4 + d.len() as int) =~= d);
}

/// Parsing a string field out of a byte string that holds its encoding at
/// `off` yields the string back.
proof fn lemma_dec_str_at(b: Seq<u8>, off: int, s: Seq<char>)
    requires
        0 <= off,
        encode_utf8(s).len() < u32::MAX,
        off + 4 + encode_utf8(s).len() <= b.len(),
        b.subrange(off, off + 4 + encode_utf8(s).len()) == enc_str(s),
    ensures
        dec_str(b, off) == Some((s, off + 4 + encode_utf8(s).len() as int)),
{
    lemma_dec_bytes_at(b, off, encode_utf8(s));
    broadcast use encode_utf8_valid_utf8, encode_utf8_decode_utf8;

    assert(decode_utf8(encode_utf8(s)) == s);
}

/// Round trip for the two handshake variants that carry a magic and a name.
proof fn lemma_rt_two_strings(m: MessageView)
    requires
        msg_wf(m),
        m is ClientInitiation || m is ServerResponse,
    ensures
        spec_decode_message(spec_encode_message(m)) == Some(m),
{
    let b = spec_encode_message(m);
    let magic = if m is ClientInitiation {
        m->ClientInitiation_magic
    } else {
        m->ServerResponse_magic
    };
    let name = if m is ClientInitiation {
        m->ClientInitiation_name
    } else {
        m->ServerResponse_name
    };
    let e1 = enc_str(magic);
    let e2 = enc_str(name);
    let l1 = encode_utf8(magic).len() as int;
    let l2 = encode_utf8(name).len() as int;
    assert(b.len() == 1 + e1.len() + e2.len());
    assert(b.subrange(1, 1 + 4 + l1) =~= e1);
    lemma_dec_str_at(b, 1, magic);
    assert(b.subrange(5 + l1, 5 + l1 + 4 + l2) =~= e2);
    lemma_dec_str_at(b, 5 + l1, name);
    assert(b[0] == if m is ClientInitiation { 0u8 } else { 1u8 });
}

/// Round trip for the two variants that carry a request id and a payload.
proof fn lemma_rt_id_bytes(m: MessageView)
    requires
        msg_wf(m),
        m is Request || m is Response,
    ensures
        spec_decode_message(spec_encode_message(m)) == Some(m),
{
    let b = spec_encode_message(m);
    let id = if m is Request {
        m->Request_id
    } else {
        m->Response_id
    };
    let data = if m is Request {
        m->Request_data
    } else {
        m->Response_data
    };
    assert(b.subrange(1, 5) =~= u32_le_bytes(id));
    lemma_dec_u32_at(b, 1, id);
    assert(b.subrange(5, 5 + 4 + data.len() as int) =~= enc_bytes(data));
    lemma_dec_bytes_at(b, 5, data);
    assert(b[0] == if m is Request { 4u8 } else { 5u8 });
}

/// Round trip for the validator packet variant.
proof fn lemma_rt_validator(m: MessageView)
    requires
        msg_wf(m),
        m is ValidatorPacket,
    ensures
        spec_decode_message(spec_encode_message(m)) == Some(m),
{
    let b = spec_encode_message(m);
    let d = m->ValidatorPacket_0;
    assert(b.subrange(1, 1 + 4 + d.len() as int) =~= enc_bytes(d));
    lemma_dec_bytes_at(b, 1, d);
    assert(b[0] == 2u8);
}

/// Decoding the encoding of any well-formed wire message yields the
/// identical message: serialize then deserialize is the identity.
pub proof fn lemma_message_round_trip(m: MessageView)
    requires
        msg_wf(m),
    ensures
        spec_decode_message(spec_encode_message(m)) == Some(m),
{
    let b = spec_encode_message(m);
    match m {
        MessageView::ClientInitiation { magic, name } => {
            lemma_rt_two_strings(m);
        },
        MessageView::ServerResponse { magic, name } => {
            lemma_rt_two_strings(m);
        },
        MessageView::ValidatorPacket(d) => {
            lemma_rt_validator(m);
        },
        MessageView::HandshakeCompleted => {
            assert(b[0] == 3u8);
        },
        MessageView::Request { id, data } => {
            lemma_rt_id_bytes(m);
        },
        MessageView::Response { id, data } => {
            lemma_rt_id_bytes(m);
        },
        MessageView::NameTaken => {
            assert(b[0] == 6u8);
        },
        MessageView::InvalidMagic => {
            assert(b[0] == 7u8);
        },
        MessageView::UnexpectedPacket => {
            assert(b[0] == 8u8);
        },
        MessageView::MalformedData => {
            assert(b[0] == 9u8);
        },
    }
}

/// The eight little-endian bytes of a `u64`, as two `u32` halves.
pub open spec fn u64_le_bytes(n: u64) -> Seq<u8> {
    u32_le_bytes((n % 0x100000000) as u32) + u32_le_bytes((n / 0x100000000) as u32)
}

/// The byte encoding of an actor id within a purpose frame.
pub open spec fn enc_actor(a: ActorIdView) -> Seq<u8> {
    match a {
        ActorIdView::Numeric(n) => seq![0u8] + u64_le_bytes(n),
        ActorIdView::Named(s) => seq![1u8] + enc_str(s),
    }
}

/// Whether an actor id fits the wire format.
pub open spec fn actor_wf(a: ActorIdView) -> bool {
    match a {
        ActorIdView::Numeric(_) => true,
        ActorIdView::Named(s) => encode_utf8(s).len() < u32::MAX,
    }
}

/// Whether a purpose fits the wire format.
pub open spec fn purpose_wf(p: PurposeView) -> bool {
    match p {
        PurposeView::Handshake => true,
        PurposeView::RequestResponse(a, m) => actor_wf(a) && encode_utf8(m).len() < u32::MAX,
    }
}

/// The byte encoding of a channel purpose, the first frame on a fresh
/// stream.
pub open spec fn spec_encode_purpose(p: PurposeView) -> Seq<u8>
    recommends
        purpose_wf(p),
{
    match p {
        PurposeView::Handshake => seq![0u8],
        PurposeView::RequestResponse(a, m) => seq![1u8] + enc_actor(a) + enc_str(m),
    }
}

/// Parses an actor id at `off`.
pub open spec fn dec_actor(b: Seq<u8>, off: int) -> Option<(ActorIdView, int)> {
    if 0 <= off && off < b.len() {
        let tag = b[off];
        if tag == 0 {
            if off + 9 <= b.len() {
                let lo = le_to_u32(b.subrange(off + 1, off + 5));
                let hi = le_to_u32(b.subrange(off + 5, off + 9));
                Some((ActorIdView::Numeric((lo + 0x100000000 * hi) as u64), off + 9))
            } else {
                None
            }
        } else if tag == 1 {
            match dec_str(b, off + 1) {
                Option::None => None,
                Option::Some((s, o2)) => Some((ActorIdView::Named(s), o2)),
            }
        } else {
            None
        }
    } else {
        None
    }
}

/// The purpose held by a byte string, if the bytes are exactly one
/// well-formed encoded purpose.
pub open spec fn spec_decode_purpose(b: Seq<u8>) -> Option<PurposeView> {
    if b.len() < 1 {
        None
    } else {
        let tag = b[0];
        if tag == 0 {
            if b.len() == 1 {
                Some(PurposeView::Handshake)
            } else {
                None
            }
        } else if tag == 1 {
            match dec_actor(b, 1) {
                Option::None => None,
                Option::Some((a, o1)) => match dec_str(b, o1) {
                    Option::None => None,
                    Option::Some((m, o2)) => if o2 == b.len() {
                        Some(PurposeView::RequestResponse(a, m))
                    } else {
                        None
                    },
                },
            }
        } else {
            None
        }
    }
}

/// Parsing an actor id out of a byte string that holds its encoding at
/// `off` yields the id back.
proof fn lemma_dec_actor_at(b: Seq<u8>, off: int, a: ActorIdView)
    requires
        0 <= off,
        actor_wf(a),
        off + enc_actor(a).len() <= b.len(),
        b.subrange(off, off + enc_actor(a).len()) == enc_actor(a),
    ensures
        dec_actor(b, off) == Some((a, off + enc_actor(a).len() as int)),
{
    let piece = b.subrange(off, off + enc_actor(a).len());
    assert(b[off] == piece[0]);
    match a {
        ActorIdView::Numeric(n) => {
            let lo = (n % 0x100000000) as u32;
            let hi = (n / 0x100000000) as u32;
            assert(b.subrange(off + 1, off + 5) =~= piece.subrange(1, 5));
            assert(piece.subrange(1, 5) =~= u32_le_bytes(lo));
            assert(b.subrange(off + 5, off + 9) =~= piece.subrange(5, 9));
            assert(piece.subrange(5, 9) =~= u32_le_bytes(hi));
            lemma_u32_le_round(lo);
            lemma_u32_le_round(hi);
            assert(lo + 0x100000000 * hi == n) by (nonlinear_arith)
                requires
                    lo == n % 0x100000000,
                    hi == n / 0x100000000,
            ;
        },
        ActorIdView::Named(s) => {
            assert(b.subrange(off + 1, off + 1 + 4 + encode_utf8(s).len()) =~= piece.subrange(
                1,
                1 + 4 + encode_utf8(s).len() as int,
            ));
            assert(piece.subrange(1, 1 + 4 + encode_utf8(s).len() as int) =~= enc_str(s));
            lemma_dec_str_at(b, off + 1, s);
        },
    }
}

/// Decoding the encoding of any well-formed channel purpose yields the
/// identical purpose.
pub proof fn lemma_purpose_round_trip(p: PurposeView)
    requires
        purpose_wf(p),
    ensures
        spec_decode_purpose(spec_encode_purpose(p)) == Some(p),
{
    let b = spec_encode_purpose(p);
    match p {
        PurposeView::Handshake => {
            assert(b[0] == 0u8);
        },
        PurposeView::RequestResponse(a, m) => {
            let ea = enc_actor(a);
            let em = enc_str(m);
            let la = ea.len() as int;
            assert(b[0] == 1u8);
            assert(b.subrange(1, 1 + la) =~= ea);
            lemma_dec_actor_at(b, 1, a);
            assert(b.subrange(1 + la, 1 + la + 4 + encode_utf8(m).len()) =~= em);
            lemma_dec_str_at(b, 1 + la, m);
        },
    }
}

/// Encodes a channel purpose to its wire bytes. A purpose with a field
/// whose encoding would not fit behind a `u32` length prefix is refused
/// with `ExceedsSizeLimit`.
pub fn encode_purpose(p: &ChannelPurpose) -> (r: Result<Vec<u8>, FramedError>)
    ensures
        purpose_wf(p@) ==> (r matches Ok(v) && v@ == spec_encode_purpose(p@)),
        !purpose_wf(p@) ==> (r matches Err(e) && e matches FramedError::ExceedsSizeLimit { .. }),
{
    let limit = u32::MAX as usize;
    match p {
        ChannelPurpose::Handshake => {
            let mut out: Vec<u8> = Vec::new();
            out.push(0u8);
            proof {
                assert(out@ =~= spec_encode_purpose(p@));
            }
            Ok(out)
        },
        ChannelPurpose::RequestResponse(a, m) => {
            let mb = m.as_str().as_bytes_vec();
            if mb.len() >= limit {
                return Err(FramedError::ExceedsSizeLimit {
                    packet_size: mb.len(),
                    size_limit: limit,
                    reason: String::new(),
                });
            }
            let mut out: Vec<u8> = Vec::new();
            out.push(1u8);
            match a {
                ActorID::Numeric(n) => {
                    out.push(0u8);
                    let lo = encode_u32_le((n % 0x100000000) as u32);
                    let hi = encode_u32_le((n / 0x100000000) as u32);
                    append_bytes(&mut out, &lo);
                    append_bytes(&mut out, &hi);
                },
                ActorID::Named(s) => {
                    let sb = s.as_str().as_bytes_vec();
                    if sb.len() >= limit {
                        return Err(FramedError::ExceedsSizeLimit {
                            packet_size: sb.len(),
                            size_limit: limit,
                            reason: String::new(),
                        });
                    }
                    out.push(1u8);
                    push_bytes_field(&mut out, &sb);
                },
            }
            proof {
                assert(out@ =~= seq![1u8] + enc_actor(a@));
            }
            push_bytes_field(&mut out, &mb);
            proof {
                assert(out@ =~= spec_encode_purpose(p@));
            }
            Ok(out)
        },
    }
}

/// Decodes a channel purpose from its wire bytes. Exactly the byte strings
/// that `encode_purpose` produces are accepted; everything else is refused
/// with `InvalidEncoding` carrying the packet back.
pub fn decode_purpose(bytes: &Vec<u8>) -> (r: Result<ChannelPurpose, FramedError>)
    ensures
        r matches Ok(p) ==> spec_decode_purpose(bytes@) == Some(p@),
        r matches Err(e) ==> spec_decode_purpose(bytes@) is None && (e
            matches FramedError::InvalidEncoding { packet } && packet@ == bytes@),
{
    let n = bytes.len();
    if n < 1 {
        return Err(invalid_encoding(bytes));
    }
    let tag = bytes[0];
    if tag == 0 {
        if n == 1 {
            Ok(ChannelPurpose::Handshake)
        } else {
            Err(invalid_encoding(bytes))
        }
    } else if tag == 1 {
        if n < 2 {
            return Err(invalid_encoding(bytes));
        }
        let atag = bytes[1];
        if atag == 0 {
            if n < 10 {
                return Err(invalid_encoding(bytes));
            }
            let lo = read_u32_le(bytes, 2);
            let hi = read_u32_le(bytes, 6);
            let id = lo as u64 + 0x100000000u64 * (hi as u64);
            proof {
                assert(bytes@.subrange(2, 6) =~= bytes@.subrange(1int + 1, 1int + 5));
                assert(bytes@.subrange(6, 10) =~= bytes@.subrange(1int + 5, 1int + 9));
                assert(dec_actor(bytes@, 1) == Some(
                    (ActorIdView::Numeric(id), 10int),
                ));
            }
            match read_str_at(bytes, 10) {
                Option::None => Err(invalid_encoding(bytes)),
                Option::Some((m, o2)) => {
                    if o2 == n {
                        Ok(ChannelPurpose::RequestResponse(ActorID::Numeric(id), m))
                    } else {
                        Err(invalid_encoding(bytes))
                    }
                },
            }
        } else if atag == 1 {
            match read_str_at(bytes, 2) {
                Option::None => Err(invalid_encoding(bytes)),
                Option::Some((s, o1)) => {
                    proof {
                        assert(dec_actor(bytes@, 1) == Some(
                            (ActorIdView::Named(s@), o1 as int),
                        ));
                    }
                    match read_str_at(bytes, o1) {
                        Option::None => Err(invalid_encoding(bytes)),
                        Option::Some((m, o2)) => {
                            if o2 == n {
                                Ok(ChannelPurpose::RequestResponse(ActorID::Named(s), m))
                            } else {
                                Err(invalid_encoding(bytes))
                            }
                        },
                    }
                },
            }
        } else {
            Err(invalid_encoding(bytes))
        }
    } else {
        Err(invalid_encoding(bytes))
    }
}

/// Relies on `String::from_utf8`: it succeeds exactly on valid UTF-8 input
/// and returns the string whose UTF-8 encoding is that input.
#[verifier::external_body]
fn bytes_to_string(bytes: Vec<u8>) -> (r: Option<String>)
    ensures
        r matches Some(s) ==> bytes@ == encode_utf8(s@),
        r is None ==> !valid_utf8(bytes@),
{
    String::from_utf8(bytes).ok()
}

/// Appends a length-prefixed byte field to `out`.
fn push_bytes_field(out: &mut Vec<u8>, field: &Vec<u8>)
    requires
        field@.len() < u32::MAX,
    ensures
        final(out)@ == old(out)@ + enc_bytes(field@),
{
    let l = encode_u32_le(field.len() as u32);
    append_bytes(out, &l);
    append_bytes(out, field);
    proof {
        assert(old(out)@ + u32_le_bytes(field@.len() as u32) + field@ =~= old(out)@ + enc_bytes(
            field@,
        ));
    }
}

/// Reads a length-prefixed byte field at `off`.
fn read_bytes_at(b: &Vec<u8>, off: usize) -> (r: Option<(Vec<u8>, usize)>)
    requires
        off <= b@.len(),
    ensures
        match r {
            Some((v, o2)) => dec_bytes(b@, off as int) == Some((v@, o2 as int)) && off < o2
                <= b@.len(),
            None => dec_bytes(b@, off as int) is None,
        },
{
    let n = b.len();
    if n - off < 4 {
        return None;
    }
    let l = read_u32_le(b, off);
    let lu = l as usize;
    if n - (off + 4) < lu {
        return None;
    }
    let v = copy_range(b, off + 4, off + 4 + lu);
    Some((v, off + 4 + lu))
}

/// Reads a length-prefixed string field at `off`.
fn read_str_at(b: &Vec<u8>, off: usize) -> (r: Option<(String, usize)>)
    requires
        off <= b@.len(),
    ensures
        match r {
            Some((s, o2)) => dec_str(b@, off as int) == Some((s@, o2 as int)) && off < o2
                <= b@.len(),
            None => dec_str(b@, off as int) is None,
        },
{
    match read_bytes_at(b, off) {
        Option::None => None,
        Option::Some((bs, o2)) => {
            proof {
                broadcast use encode_utf8_valid_utf8, encode_utf8_decode_utf8;

            }
            match bytes_to_string(bs) {
                Option::None => None,
                Option::Some(s) => Some((s, o2)),
            }
        },
    }
}

/// Encodes a message to its wire bytes. A message with a field whose
/// encoding would not fit behind a `u32` length prefix is refused with
/// `ExceedsSizeLimit`.
pub fn encode_message(m: &PalantirMessage) -> (r: Result<Vec<u8>, FramedError>)
    ensures
        msg_wf(m@) ==> (r matches Ok(v) && v@ == spec_encode_message(m@)),
        !msg_wf(m@) ==> (r matches Err(e) && e matches FramedError::ExceedsSizeLimit { .. }),
{
    let limit = u32::MAX as usize;
    match m {
        PalantirMessage::ClientInitiation { magic, name } => {
            let mb = magic.as_str().as_bytes_vec();
            let nb = name.as_str().as_bytes_vec();
            if mb.len() >= limit || nb.len() >= limit {
                return Err(FramedError::ExceedsSizeLimit {
                    packet_size: if mb.len() >= limit {
                        mb.len()
                    } else {
                        nb.len()
                    },
                    size_limit: limit,
                    reason: String::new(),
                });
            }
            let mut out: Vec<u8> = Vec::new();
            out.push(0u8);
            push_bytes_field(&mut out, &mb);
            push_bytes_field(&mut out, &nb);
            proof {
                assert(out@ =~= spec_encode_message(m@));
            }
            Ok(out)
        },
        PalantirMessage::ServerResponse { magic, name } => {
            let mb = magic.as_str().as_bytes_vec();
            let nb = name.as_str().as_bytes_vec();
            if mb.len() >= limit || nb.len() >= limit {
                return Err(FramedError::ExceedsSizeLimit {
                    packet_size: if mb.len() >= limit {
                        mb.len()
                    } else {
                        nb.len()
                    },
                    size_limit: limit,
                    reason: String::new(),
                });
            }
            let mut out: Vec<u8> = Vec::new();
            out.push(1u8);
            push_bytes_field(&mut out, &mb);
            push_bytes_field(&mut out, &nb);
            proof {
                assert(out@ =~= spec_encode_message(m@));
            }
            Ok(out)
        },
        PalantirMessage::ValidatorPacket(d) => {
            if d.len() >= limit {
                return Err(FramedError::ExceedsSizeLimit {
                    packet_size: d.len(),
                    size_limit: limit,
                    reason: String::new(),
                });
            }
            let mut out: Vec<u8> = Vec::new();
            out.push(2u8);
            push_bytes_field(&mut out, d);
            proof {
                assert(out@ =~= spec_encode_message(m@));
            }
            Ok(out)
        },
        PalantirMessage::HandshakeCompleted => {
            let mut out: Vec<u8> = Vec::new();
            out.push(3u8);
            proof {
                assert(out@ =~= spec_encode_message(m@));
            }
            Ok(out)
        },
        PalantirMessage::Request { id, data } => {
            if data.len() >= limit {
                return Err(FramedError::ExceedsSizeLimit {
                    packet_size: data.len(),
                    size_limit: limit,
                    reason: String::new(),
                });
            }
            let mut out: Vec<u8> = Vec::new();
            out.push(4u8);
            let idb = encode_u32_le(*id);
            append_bytes(&mut out, &idb);
            push_bytes_field(&mut out, data);
            proof {
                assert(out@ =~= spec_encode_message(m@));
            }
            Ok(out)
        },
        PalantirMessage::Response { id, data } => {
            if data.len() >= limit {
                return Err(FramedError::ExceedsSizeLimit {
                    packet_size: data.len(),
                    size_limit: limit,
                    reason: String::new(),
                });
            }
            let mut out: Vec<u8> = Vec::new();
            out.push(5u8);
            let idb = encode_u32_le(*id);
            append_bytes(&mut out, &idb);
            push_bytes_field(&mut out, data);
            proof {
                assert(out@ =~= spec_encode_message(m@));
            }
            Ok(out)
        },
        PalantirMessage::NameTaken => {
            let mut out: Vec<u8> = Vec::new();
            out.push(6u8);
            proof {
                assert(out@ =~= spec_encode_message(m@));
            }
            Ok(out)
        },
        PalantirMessage::InvalidMagic => {
            let mut out: Vec<u8> = Vec::new();
            out.push(7u8);
            proof {
                assert(out@ =~= spec_encode_message(m@));
            }
            Ok(out)
        },
        PalantirMessage::UnexpectedPacket => {
            let mut out: Vec<u8> = Vec::new();
            out.push(8u8);
            proof {
                assert(out@ =~= spec_encode_message(m@));
            }
            Ok(out)
        },
        PalantirMessage::MalformedData => {
            let mut out: Vec<u8> = Vec::new();
            out.push(9u8);
            proof {
                assert(out@ =~= spec_encode_message(m@));
            }
            Ok(out)
        },
    }
}

/// The whole frame for one message: its encoding behind the length prefix.
/// A message whose encoding does not fit the frame format is refused with
/// `ExceedsSizeLimit` before anything touches the network.
pub fn frame_message(m: &PalantirMessage) -> (r: Result<Vec<u8>, FramedError>)
    ensures
        msg_wf(m@) && spec_encode_message(m@).len() < u32::MAX ==> (r matches Ok(f) && f@
            == crate::frame::spec_frame(spec_encode_message(m@))),
        !(msg_wf(m@) && spec_encode_message(m@).len() < u32::MAX) ==> (r matches Err(e) && e
            matches FramedError::ExceedsSizeLimit { .. }),
{
    let payload = match encode_message(m) {
        Result::Ok(v) => v,
        Result::Err(e) => {
            return Err(e);
        },
    };
    crate::frame::encode_frame(&payload)
}

/// The `InvalidEncoding` error carrying the offending packet bytes.
fn invalid_encoding(bytes: &Vec<u8>) -> (r: FramedError)
    ensures
        r matches FramedError::InvalidEncoding { packet } && packet@ == bytes@,
{
    let packet = copy_range(bytes, 0, bytes.len());
    proof {
        assert(bytes@.subrange(0, bytes@.len() as int) =~= bytes@);
    }
    FramedError::InvalidEncoding { packet }
}

/// Decodes a message from its wire bytes. Exactly the byte strings that
/// `encode_message` produces are accepted; everything else is refused with
/// `InvalidEncoding` carrying the packet back.
pub fn decode_message(bytes: &Vec<u8>) -> (r: Result<PalantirMessage, FramedError>)
    ensures
        r matches Ok(msg) ==> spec_decode_message(bytes@) == Some(msg@),
        r matches Err(e) ==> spec_decode_message(bytes@) is None && (e
            matches FramedError::InvalidEncoding { packet } && packet@ == bytes@),
{
    let n = bytes.len();
    if n < 1 {
        return Err(invalid_encoding(bytes));
    }
    let tag = bytes[0];
    if tag == 0 || tag == 1 {
        match read_str_at(bytes, 1) {
            Option::None => Err(invalid_encoding(bytes)),
            Option::Some((magic, o1)) => match read_str_at(bytes, o1) {
                Option::None => Err(invalid_encoding(bytes)),
                Option::Some((name, o2)) => {
                    if o2 == n {
                        if tag == 0 {
                            Ok(PalantirMessage::ClientInitiation { magic, name })
                        } else {
                            Ok(PalantirMessage::ServerResponse { magic, name })
                        }
                    } else {
                        Err(invalid_encoding(bytes))
                    }
                },
            },
        }
    } else if tag == 2 {
        match read_bytes_at(bytes, 1) {
            Option::None => Err(invalid_encoding(bytes)),
            Option::Some((d, o1)) => {
                if o1 == n {
                    Ok(PalantirMessage::ValidatorPacket(d))
                } else {
                    Err(invalid_encoding(bytes))
                }
            },
        }
    } else if tag == 3 {
        if n == 1 {
            Ok(PalantirMessage::HandshakeCompleted)
        } else {
            Err(invalid_encoding(bytes))
        }
    } else if tag == 4 || tag == 5 {
        if n - 1 < 4 {
            return Err(invalid_encoding(bytes));
        }
        let id = read_u32_le(bytes, 1);
        proof {
            assert(dec_u32(bytes@, 1) == Some((id, 5int)));
        }
        match read_bytes_at(bytes, 5) {
            Option::None => Err(invalid_encoding(bytes)),
            Option::Some((d, o2)) => {
                if o2 == n {
                    if tag == 4 {
                        Ok(PalantirMessage::Request { id, data: d })
                    } else {
                        Ok(PalantirMessage::Response { id, data: d })
                    }
                } else {
                    Err(invalid_encoding(bytes))
                }
            },
        }
    } else if tag == 6 {
        if n == 1 {
            Ok(PalantirMessage::NameTaken)
        } else {
            Err(invalid_encoding(bytes))
        }
    } else if tag == 7 {
        if n == 1 {
            Ok(PalantirMessage::InvalidMagic)
        } else {
            Err(invalid_encoding(bytes))
        }
    } else if tag == 8 {
        if n == 1 {
            Ok(PalantirMessage::UnexpectedPacket)
        } else {
            Err(invalid_encoding(bytes))
        }
    } else if tag == 9 {
        if n == 1 {
            Ok(PalantirMessage::MalformedData)
        } else {
            Err(invalid_encoding(bytes))
        }
    } else {
        Err(invalid_encoding(bytes))
    }
}

} // verus!
