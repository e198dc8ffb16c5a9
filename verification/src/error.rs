//! The error taxonomy of the peer core.
//!
//! Connecting errors come from dial paths, connection errors from the live
//! session, transmission errors from single stream operations, framed errors
//! from the codec, handshake errors from the handshake state machine, and
//! router errors from actor routing.

use vstd::prelude::*;

verus! {

/// A general error that can occur during the transmission of a payload
/// over one stream.
#[derive(Debug)]
pub enum TransmissionError {
    /// Attempted to send or receive data without being connected.
    NotConnected,
    /// The peer disconnected with the given code.
    PeerDisconnected(u64),
    /// There was an internal error in the underlying transport.
    TransportError,
    /// A specific number of bytes was expected, but fewer were received.
    TransmissionEndedEarly { expected_size: usize, received_size: usize, reason: String },
    /// The peer refused to open a new stream.
    Refused,
}

/// An error during the transmission or reception of framed packets.
#[derive(Debug)]
pub enum FramedError {
    /// A received packet had an invalid encoding.
    InvalidEncoding { packet: Vec<u8> },
    /// A packet could not be sent because it exceeds a size limit.
    ExceedsSizeLimit { packet_size: usize, size_limit: usize, reason: String },
    /// An error occurred during the attempted transmission of a packet.
    TransmissionError(TransmissionError),
}

/// An error with the overall connection.
#[derive(Debug)]
pub enum ConnectionError {
    /// The peer closed the connection.
    ConnectionClose { reason: String },
    /// This peer closed the connection.
    LocallyClosed,
    /// The connection was aborted due to an underlying protocol violation.
    LocallyAborted { reason: String },
    /// The connection timed out.
    TimedOut,
    /// The connection was closed due to an error raised by the underlying
    /// transport.
    TransportError { reason: String },
}

/// An error in connecting to a remote peer.
#[derive(Debug)]
pub enum ConnectingError {
    /// The peer address was invalid. Carries the address as text.
    InvalidPeerAddress(String),
    /// An invalid URL or domain was used.
    InvalidUrlOrDomain,
    /// A connection error was experienced while connecting.
    ConnectionError(ConnectionError),
    /// The connection was rejected by the remote.
    Rejected,
    /// The local client is in a state such that it cannot connect.
    LocalConnectingError,
}

/// An error that occurs during a handshake with a peer.
#[derive(Debug)]
pub enum HandshakeError {
    /// There was a framed error during the handshake.
    FramedError(FramedError),
    /// The peer sent an unexpected packet.
    UnexpectedPacket,
    /// The peer sent an invalid magic value.
    InvalidMagic,
    /// The peer tried to use a name that already exists.
    NameTaken,
    /// There was a transmission error during the handshake.
    TransmissionError(TransmissionError),
    /// There was a connection error during the handshake.
    ConnectionError(ConnectionError),
}

/// The top-level error type of the peer core.
#[derive(Debug)]
pub enum PalantirError {
    ConnectingError(ConnectingError),
    ConnectionError(ConnectionError),
    HandshakeError(HandshakeError),
    FramedError(FramedError),
    /// The node is not yet initialized.
    NotInitialized,
    /// The node is already running.
    AlreadyRunning,
}

/// An error while dialing and handshaking a new peer.
#[derive(Debug)]
pub enum AddPeerError {
    /// The dial itself failed.
    ConnectingError(ConnectingError),
    /// The handshake failed with the collected error chain.
    HandshakeFailed(Vec<HandshakeError>),
}

/// An error while opening a request/response channel to a peer.
#[derive(Debug)]
pub enum OpenChannelError {
    /// The named peer does not have an active connection.
    PeerDoesntExist,
    /// A connection error was returned while opening the stream.
    ConnectionError(ConnectionError),
    /// A transmission error occurred while opening the stream.
    TransmissionError(TransmissionError),
    /// There was an error conducting a framed send.
    FramedError(FramedError),
}

/// An error while running the accept loop of a peer.
#[derive(Debug)]
pub enum RunPeerError {
    /// The server endpoint could not be created. Carries the reason as text.
    EndpointCreationError { reason: String },
}

/// An error produced by the actor router.
#[derive(Debug)]
pub enum RouterError {
    /// The target peer is not in the peer table.
    UnknownPeer,
    /// The target actor has no registration for the message type.
    UnknownActor,
    /// The request could not be sent.
    SendFailed,
    /// The response could not be decoded.
    DecodeFailed,
}

impl From<TransmissionError> for FramedError {
    fn from(v: TransmissionError) -> Self {
        FramedError::TransmissionError(v)
    }
}

impl vstd::std_specs::convert::FromSpecImpl<TransmissionError> for FramedError {
    open spec fn obeys_from_spec() -> bool {
        true
    }

    open spec fn from_spec(v: TransmissionError) -> Self {
        FramedError::TransmissionError(v)
    }
}

impl From<FramedError> for HandshakeError {
    fn from(v: FramedError) -> Self {
        HandshakeError::FramedError(v)
    }
}

impl vstd::std_specs::convert::FromSpecImpl<FramedError> for HandshakeError {
    open spec fn obeys_from_spec() -> bool {
        true
    }

    open spec fn from_spec(v: FramedError) -> Self {
        HandshakeError::FramedError(v)
    }
}

impl From<TransmissionError> for HandshakeError {
    fn from(v: TransmissionError) -> Self {
        HandshakeError::TransmissionError(v)
    }
}

impl vstd::std_specs::convert::FromSpecImpl<TransmissionError> for HandshakeError {
    open spec fn obeys_from_spec() -> bool {
        true
    }

    open spec fn from_spec(v: TransmissionError) -> Self {
        HandshakeError::TransmissionError(v)
    }
}

impl From<ConnectionError> for HandshakeError {
    fn from(v: ConnectionError) -> Self {
        HandshakeError::ConnectionError(v)
    }
}

impl vstd::std_specs::convert::FromSpecImpl<ConnectionError> for HandshakeError {
    open spec fn obeys_from_spec() -> bool {
        true
    }

    open spec fn from_spec(v: ConnectionError) -> Self {
        HandshakeError::ConnectionError(v)
    }
}

impl From<ConnectionError> for ConnectingError {
    fn from(v: ConnectionError) -> Self {
        ConnectingError::ConnectionError(v)
    }
}

impl vstd::std_specs::convert::FromSpecImpl<ConnectionError> for ConnectingError {
    open spec fn obeys_from_spec() -> bool {
        true
    }

    open spec fn from_spec(v: ConnectionError) -> Self {
        ConnectingError::ConnectionError(v)
    }
}

impl From<ConnectionError> for OpenChannelError {
    fn from(v: ConnectionError) -> Self {
        OpenChannelError::ConnectionError(v)
    }
}

impl vstd::std_specs::convert::FromSpecImpl<ConnectionError> for OpenChannelError {
    open spec fn obeys_from_spec() -> bool {
        true
    }

    open spec fn from_spec(v: ConnectionError) -> Self {
        OpenChannelError::ConnectionError(v)
    }
}

impl From<TransmissionError> for OpenChannelError {
    fn from(v: TransmissionError) -> Self {
        OpenChannelError::TransmissionError(v)
    }
}

impl vstd::std_specs::convert::FromSpecImpl<TransmissionError> for OpenChannelError {
    open spec fn obeys_from_spec() -> bool {
        true
    }

    open spec fn from_spec(v: TransmissionError) -> Self {
        OpenChannelError::TransmissionError(v)
    }
}

impl From<FramedError> for OpenChannelError {
    fn from(v: FramedError) -> Self {
        OpenChannelError::FramedError(v)
    }
}

impl vstd::std_specs::convert::FromSpecImpl<FramedError> for OpenChannelError {
    open spec fn obeys_from_spec() -> bool {
        true
    }

    open spec fn from_spec(v: FramedError) -> Self {
        OpenChannelError::FramedError(v)
    }
}

impl From<ConnectingError> for PalantirError {
    fn from(v: ConnectingError) -> Self {
        PalantirError::ConnectingError(v)
    }
}

impl vstd::std_specs::convert::FromSpecImpl<ConnectingError> for PalantirError {
    open spec fn obeys_from_spec() -> bool {
        true
    }

    open spec fn from_spec(v: ConnectingError) -> Self {
        PalantirError::ConnectingError(v)
    }
}

impl From<ConnectionError> for PalantirError {
    fn from(v: ConnectionError) -> Self {
        PalantirError::ConnectionError(v)
    }
}

impl vstd::std_specs::convert::FromSpecImpl<ConnectionError> for PalantirError {
    open spec fn obeys_from_spec() -> bool {
        true
    }

    open spec fn from_spec(v: ConnectionError) -> Self {
        PalantirError::ConnectionError(v)
    }
}

impl From<HandshakeError> for PalantirError {
    fn from(v: HandshakeError) -> Self {
        PalantirError::HandshakeError(v)
    }
}

impl vstd::std_specs::convert::FromSpecImpl<HandshakeError> for PalantirError {
    open spec fn obeys_from_spec() -> bool {
        true
    }

    open spec fn from_spec(v: HandshakeError) -> Self {
        PalantirError::HandshakeError(v)
    }
}

impl From<FramedError> for PalantirError {
    fn from(v: FramedError) -> Self {
        PalantirError::FramedError(v)
    }
}

impl vstd::std_specs::convert::FromSpecImpl<FramedError> for PalantirError {
    open spec fn obeys_from_spec() -> bool {
        true
    }

    open spec fn from_spec(v: FramedError) -> Self {
        PalantirError::FramedError(v)
    }
}

} // verus!
