//! In-process requests: a payload paired with a single-use response slot.
//!
//! A `Request` travels from the connection tasks to a registered actor
//! handler over an inbox queue; the handler answers exactly once through the
//! response slot, or drops the request, which closes the slot.

use vstd::prelude::*;
use crate::sync::{oneshot_channel, oneshot_send};

verus! {

/// A request: opaque payload bytes and the slot that accepts one reply.
pub struct Request {
    data: Vec<u8>,
    responder: tokio::sync::oneshot::Sender<Vec<u8>>,
}

impl View for Request {
    type V = Seq<u8>;

    closed spec fn view(&self) -> Seq<u8> {
        self.data@
    }
}

impl Request {
    /// Creates a new request carrying `data`, returning the request and the
    /// receiving half of its response slot.
    pub fn new(data: Vec<u8>) -> (r: (Request, tokio::sync::oneshot::Receiver<Vec<u8>>))
        ensures
            r.0@ == data@,
    {
        let (responder, response) = oneshot_channel();
        (Request { data, responder }, response)
    }

    /// The request's payload.
    pub fn data(&self) -> (r: &Vec<u8>)
        ensures
            r@ == self@,
    {
        &self.data
    }

    /// Answers the request, consuming it. When the response slot was
    /// already closed, the reply bytes are handed back as the error.
    pub fn respond(self, response: Vec<u8>) -> (r: Result<(), Vec<u8>>)
        ensures
            r matches Err(v) ==> v@ == response@,
    {
        oneshot_send(self.responder, response)
    }
}

} // verus!
