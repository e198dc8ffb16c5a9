//! Palantir: a peer-to-peer networking core for connecting actor-runtime
//! instances over a QUIC / WebTransport style substrate.
//!
//! The library holds the verified core of the protocol: the length-prefixed
//! framed codec, the wire-message schema and its byte encoding, the
//! timeout-expiring oneshot registry, the request/response channel layer,
//! the handshake state machine, the peer table, and the actor router.
//! Endpoint management, stream I/O and task spawning are left to the
//! embedding program, which drives the state machines in this crate with
//! the frames and events it observes on the network.

pub mod channel;
pub mod error;
pub mod frame;
pub mod handshake;
pub mod identification;
pub mod messages;
pub mod peer;
pub mod request;
pub mod router;
pub mod sync;
pub mod timeout;

use vstd::prelude::*;

verus! {

/// The number of consecutive receive failures after which a channel
/// run-loop gives the connection up for lost.
pub const ERROR_THRESHOLD: u32 = 5;

} // verus!
