//! The request/response channel layer.
//!
//! A channel multiplexes many requests over one bidirectional stream. Each
//! request registers a response slot in the timeout registry, and the frame
//! it sends carries the slot's key as the request id; the run-loop
//! correlates inbound `Response` frames back to their slots by that id, so
//! responses may arrive in any order. The embedding program owns the stream:
//! it writes the frame bytes this module computes, reads frames in a loop,
//! and feeds every decode result to [`Channel::run_step`].

use vstd::prelude::*;
use crate::error::FramedError;
use crate::frame::{encode_frame, spec_frame};
use crate::messages::{PalantirMessage, MessageView, spec_encode_message, msg_wf};
use crate::sync::oneshot_send;
use crate::timeout::TimeoutChannels;

verus! {

/// The outcome of one run-loop step.
pub struct ChannelStep {
    /// The request id a response was delivered for, if any.
    pub delivered: Option<u32>,
    /// Whether the run-loop must terminate: the connection is assumed lost
    /// after five consecutive receive failures.
    pub terminated: bool,
}

/// One request/response channel: the timeout registry of pending requests
/// and the run-loop's consecutive-failure counter.
pub struct Channel {
    /// The pending response slots, keyed by request id.
    responders: TimeoutChannels,
    /// How many receive failures the run-loop has seen in a row.
    error_count: u32,
    /// Whether the run-loop has terminated.
    terminated: bool,
}

impl Channel {
    /// The registry of pending requests.
    pub closed spec fn registry(&self) -> TimeoutChannels {
        self.responders
    }

    /// The run-loop's count of consecutive receive failures.
    pub closed spec fn spec_error_count(&self) -> u32 {
        self.error_count
    }

    /// Whether the run-loop has terminated.
    pub closed spec fn spec_terminated(&self) -> bool {
        self.terminated
    }

    /// Well-formedness: the registry is well-formed, the failure counter
    /// never passes the threshold, and the channel is terminated exactly
    /// when the counter reached it.
    pub open spec fn wf(&self) -> bool {
        &&& self.registry().wf()
        &&& self.spec_error_count() <= crate::ERROR_THRESHOLD
        &&& self.spec_terminated() <==> self.spec_error_count() == crate::ERROR_THRESHOLD
    }

    /// Creates a channel whose pending requests expire after `timeout_ms`
    /// milliseconds.
    pub fn new(timeout_ms: u64) -> (r: Channel)
        ensures
            r.wf(),
            !r.spec_terminated(),
            r.registry().entries().len() == 0,
            r.registry().spec_timeout() == timeout_ms,
    {
        Channel { responders: TimeoutChannels::new(timeout_ms), error_count: 0, terminated: false }
    }

    /// Begins a request: registers a fresh response slot and computes the
    /// frame to write. Returns the frame bytes, the receiving half of the
    /// response slot, and the request id. A payload too large for the wire
    /// format is refused with `ExceedsSizeLimit` before anything is
    /// registered or touches the network.
    pub fn request(&mut self, now: u64, data: Vec<u8>) -> (r: Result<
        (Vec<u8>, tokio::sync::oneshot::Receiver<Vec<u8>>, u32),
        FramedError,
    >)
        requires
            old(self).wf(),
            old(self).registry().spec_next_key() < u32::MAX,
        ensures
            final(self).wf(),
            final(self).spec_error_count() == old(self).spec_error_count(),
            final(self).spec_terminated() == old(self).spec_terminated(),
            data@.len() + 9 < u32::MAX ==> (r matches Ok((frame, _recv, id)) && {
                &&& id == old(self).registry().spec_next_key()
                &&& !old(self).registry().live(id)
                &&& final(self).registry().live(id)
                &&& final(self).registry().entries() == old(self).registry().entries().push(
                    (
                        if old(self).registry().entries().len() > 0
                            && old(self).registry().entries().last().0 > now {
                            old(self).registry().entries().last().0
                        } else {
                            now
                        },
                        id,
                    ),
                )
                &&& frame@ == spec_frame(
                    spec_encode_message(MessageView::Request { id, data: data@ }),
                )
            }),
            data@.len() + 9 >= u32::MAX ==> (r matches Err(e) && e
                matches FramedError::ExceedsSizeLimit { .. } && *final(self) == *old(self)),
    {
        if data.len() >= u32::MAX as usize - 9 {
            return Err(FramedError::ExceedsSizeLimit {
                packet_size: data.len(),
                size_limit: u32::MAX as usize - 9,
                reason: String::new(),
            });
        }
        let (receiver, id) = self.responders.add(now);
        let msg = PalantirMessage::Request { id, data };
        let payload = match encode_message_total(&msg) {
            Result::Ok(v) => v,
            Result::Err(e) => {
                return Err(e);
            },
        };
        let frame = match encode_frame(&payload) {
            Result::Ok(v) => v,
            Result::Err(e) => {
                proof {
                    assert(false);
                }
                return Err(e);
            },
        };
        Ok((frame, receiver, id))
    }

    /// One step of the channel's run-loop, fed with the result of decoding
    /// the next frame from the stream.
    ///
    /// A receive failure of any kind raises the consecutive-failure
    /// counter; at five in a row the run-loop terminates. A decodable frame
    /// resets the counter. A `Response` frame pops the slot for its id and
    /// delivers the body there; a response for an id that already expired
    /// or was answered is ignored, and so is every other message kind: the
    /// run-loop never terminates on well-formed traffic.
    pub fn run_step(&mut self, event: Result<PalantirMessage, FramedError>) -> (r: ChannelStep)
        requires
            old(self).wf(),
            !old(self).spec_terminated(),
        ensures
            final(self).wf(),
            final(self).registry().spec_timeout() == old(self).registry().spec_timeout(),
            final(self).registry().spec_next_key() == old(self).registry().spec_next_key(),
            event matches Err(_) ==> {
                &&& final(self).spec_error_count() == old(self).spec_error_count() + 1
                &&& r.terminated <==> final(self).spec_error_count() == crate::ERROR_THRESHOLD
                &&& r.delivered is None
                &&& final(self).registry() == old(self).registry()
            },
            event matches Ok(m) ==> final(self).spec_error_count() == 0 && !r.terminated,
            event matches Ok(m) ==> match m@ {
                MessageView::Response { id, data } => {
                    &&& old(self).registry().live(id) ==> r.delivered == Some(id)
                    &&& !old(self).registry().live(id) ==> r.delivered is None && final(self).registry() == old(self).registry()
                    &&& !final(self).registry().live(id)
                },
                _ => r.delivered is None && final(self).registry() == old(self).registry(),
            },
            r.terminated == final(self).spec_terminated(),
    {
        match event {
            Result::Err(_e) => {
                self.error_count = self.error_count + 1;
                if self.error_count == crate::ERROR_THRESHOLD {
                    self.terminated = true;
                    ChannelStep { delivered: None, terminated: true }
                } else {
                    ChannelStep { delivered: None, terminated: false }
                }
            },
            Result::Ok(msg) => {
                self.error_count = 0;
                match msg {
                    PalantirMessage::Response { id, data } => {
                        match self.responders.pop(id) {
                            Option::Some(slot) => {
                                let _ = oneshot_send(slot, data);
                                ChannelStep { delivered: Some(id), terminated: false }
                            },
                            Option::None => ChannelStep { delivered: None, terminated: false },
                        }
                    },
                    _ => ChannelStep { delivered: None, terminated: false },
                }
            },
        }
    }

    /// Expires every pending request whose deadline has passed, returning
    /// their ids; every pending request that remains is unexpired.
    /// Dropping the slots wakes the corresponding response futures with an
    /// error.
    pub fn tick(&mut self, now: u64) -> (r: Vec<u32>)
        requires
            old(self).wf(),
        ensures
            final(self).wf(),
            final(self).spec_error_count() == old(self).spec_error_count(),
            final(self).spec_terminated() == old(self).spec_terminated(),
            r@.len() <= old(self).registry().entries().len(),
            final(self).registry().entries() == old(self).registry().entries().skip(
                r@.len() as int,
            ),
            forall|i: int|
                0 <= i < r@.len() ==> r@[i] == (#[trigger] old(self).registry().entries()[i]).1
                    && old(self).registry().entries()[i].0 + old(self).registry().spec_timeout()
                    <= now,
            forall|i: int|
                0 <= i < final(self).registry().entries().len() ==> (#[trigger] final(self).registry().entries()[i]).0 + old(self).registry().spec_timeout() > now,
    {
        self.responders.tick(now)
    }

    /// Whether another request can still be registered: ids are handed out
    /// from a counter that is never reused.
    pub fn has_capacity(&self) -> (r: bool)
        ensures
            r == (self.registry().spec_next_key() < u32::MAX),
    {
        self.responders.has_capacity()
    }

    /// The deadline of the oldest pending request: when the next
    /// [`Channel::tick`] has work.
    pub fn next_deadline(&self) -> (r: Option<u64>)
        ensures
            r is Some <==> self.registry().entries().len() > 0,
            r matches Some(d) ==> d == if self.registry().entries()[0].0
                + self.registry().spec_timeout() <= u64::MAX {
                (self.registry().entries()[0].0 + self.registry().spec_timeout()) as u64
            } else {
                u64::MAX
            },
    {
        self.responders.next_deadline()
    }

    /// Whether the run-loop has terminated; the embedding program's receive
    /// loop exits when this holds.
    pub fn is_terminated(&self) -> (r: bool)
        ensures
            r == self.spec_terminated(),
    {
        self.terminated
    }
}

/// A request to an echoing handler yields the request's own data: the
/// framed request decodes on the peer to exactly the id and payload that
/// [`Channel::request`] sent, and the echoed response frame decodes back to
/// exactly that id and payload, which [`Channel::run_step`] then delivers
/// to the slot registered under that id.
#[verifier::rlimit(80)]
pub proof fn lemma_echo_round_trip(id: u32, data: Seq<u8>)
    requires
        data.len() + 9 < u32::MAX,
    ensures
        ({
            let req = MessageView::Request { id, data };
            let resp = MessageView::Response { id, data };
            &&& crate::frame::spec_parse_frame(spec_frame(spec_encode_message(req))) == Some(
                (spec_encode_message(req), 4 + spec_encode_message(req).len() as int),
            )
            &&& crate::messages::spec_decode_message(spec_encode_message(req)) == Some(req)
            &&& crate::frame::spec_parse_frame(spec_frame(spec_encode_message(resp))) == Some(
                (spec_encode_message(resp), 4 + spec_encode_message(resp).len() as int),
            )
            &&& crate::messages::spec_decode_message(spec_encode_message(resp)) == Some(resp)
        }),
{
    let req = MessageView::Request { id, data };
    let resp = MessageView::Response { id, data };
    crate::messages::lemma_message_round_trip(req);
    crate::messages::lemma_message_round_trip(resp);
    crate::frame::lemma_frame_round_trip(spec_encode_message(req));
    crate::frame::lemma_frame_round_trip(spec_encode_message(resp));
}

/// `encode_message`, total on messages known to fit the wire format.
fn encode_message_total(m: &PalantirMessage) -> (r: Result<Vec<u8>, FramedError>)
    requires
        msg_wf(m@),
    ensures
        r matches Ok(v) && v@ == spec_encode_message(m@),
{
    crate::messages::encode_message(m)
}

} // verus!
