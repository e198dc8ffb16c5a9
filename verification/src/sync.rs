//! Trusted bindings to tokio's synchronization primitives.
//!
//! The registry and the router hold tokio oneshot and mpsc handles; the
//! embedding program awaits on the receiving halves. Everything stated here
//! is what tokio's own documentation promises of these calls.

use vstd::prelude::*;
use crate::request::Request;

verus! {

#[verifier::external_type_specification]
#[verifier::external_body]
#[verifier::reject_recursive_types(T)]
pub struct ExOneshotSender<T>(tokio::sync::oneshot::Sender<T>);

#[verifier::external_type_specification]
#[verifier::external_body]
#[verifier::reject_recursive_types(T)]
pub struct ExOneshotReceiver<T>(tokio::sync::oneshot::Receiver<T>);

#[verifier::external_type_specification]
#[verifier::external_body]
pub struct ExOneshotRecvError(tokio::sync::oneshot::error::RecvError);

#[verifier::external_type_specification]
#[verifier::external_body]
#[verifier::reject_recursive_types(T)]
pub struct ExMpscSender<T>(tokio::sync::mpsc::Sender<T>);

#[verifier::external_type_specification]
#[verifier::external_body]
#[verifier::reject_recursive_types(T)]
pub struct ExMpscReceiver<T>(tokio::sync::mpsc::Receiver<T>);

/// Relies on `tokio::sync::oneshot::channel`: creates a linked
/// single-use sender/receiver pair for one response payload.
#[verifier::external_body]
pub fn oneshot_channel() -> (
    tokio::sync::oneshot::Sender<Vec<u8>>,
    tokio::sync::oneshot::Receiver<Vec<u8>>,
) {
    tokio::sync::oneshot::channel()
}

/// Relies on `tokio::sync::oneshot::Sender::send`: delivers the value to
/// the receiving half, or hands it back when the receiver was dropped.
#[verifier::external_body]
pub fn oneshot_send(sender: tokio::sync::oneshot::Sender<Vec<u8>>, value: Vec<u8>) -> (r: Result<
    (),
    Vec<u8>,
>)
    ensures
        r matches Err(v) ==> v@ == value@,
{
    sender.send(value)
}

/// Relies on `tokio::sync::mpsc::channel`: creates a bounded queue of
/// pending inbound requests; panics when the capacity is zero.
#[verifier::external_body]
pub fn request_channel(capacity: usize) -> (
    tokio::sync::mpsc::Sender<Request>,
    tokio::sync::mpsc::Receiver<Request>,
)
    requires
        capacity > 0,
{
    tokio::sync::mpsc::channel(capacity)
}

/// Relies on `tokio::sync::mpsc::Sender::clone`: another handle to the
/// same queue.
#[verifier::external_body]
pub fn clone_request_sender(s: &tokio::sync::mpsc::Sender<Request>) -> tokio::sync::mpsc::Sender<
    Request,
> {
    s.clone()
}

} // verus!
