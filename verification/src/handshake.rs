//! The handshake state machine.
//!
//! The handshake runs once per new connection on a dedicated bidirectional
//! stream, opened by the initiator and accepted by the acceptor. Four steps:
//! the initiator sends `ClientInitiation` with the magic string and its
//! name; the acceptor answers with `ServerResponse`; the validator exchanges
//! any number of `ValidatorPacket` frames; the initiator closes with
//! `HandshakeCompleted`. Any violation fails the handshake, and before the
//! connection is torn down the detecting side transmits one terminal reason
//! frame, which this machine hands back as the `reply`; the side that
//! receives such a frame fails with the reported reason itself, so a
//! rejected dialer learns that its name was taken.
//!
//! The embedding program performs the sends and receives and feeds each
//! decode result to [`HandshakeMachine::on_frame`]; it runs the validator
//! window when asked and reports the verdict to
//! [`HandshakeMachine::on_validator`].

use vstd::prelude::*;
use vstd::string::StringExecFns;
use crate::error::{FramedError, HandshakeError};
use crate::messages::{PalantirMessage, MessageView, Side, spec_magic, is_terminal_reason};
use crate::peer::PeerTable;

verus! {

/// Where in the four-step exchange this side stands.
#[derive(Debug, PartialEq, Eq, Structural, Clone, Copy)]
pub enum HandshakeState {
    /// Acceptor: awaiting the initiator's `ClientInitiation`.
    AwaitInitiation,
    /// Initiator: sent `ClientInitiation`, awaiting `ServerResponse`.
    AwaitResponse,
    /// Both sides: the validator window is open.
    Validating,
    /// Acceptor: validator passed, awaiting `HandshakeCompleted`.
    AwaitCompletion,
    /// The handshake succeeded; the counterparty's name is known.
    Complete,
    /// The handshake failed; the collected errors say why.
    Failed,
}

/// What the embedding program must do after feeding the machine one event.
pub struct HandshakeOutput {
    /// A frame to transmit now: the next handshake step, or the one
    /// terminal reason frame sent before closing.
    pub reply: Option<PalantirMessage>,
    /// Whether to run the validator window now.
    pub run_validator: bool,
    /// Whether the handshake completed.
    pub done: bool,
    /// Whether the handshake failed.
    pub failed: bool,
}

/// One side of a handshake: its role, this node's name, the step reached,
/// the counterparty's name once learned, and every error collected.
pub struct HandshakeMachine {
    side: Side,
    local_name: String,
    state: HandshakeState,
    peer_name: Option<String>,
    errors: Vec<HandshakeError>,
}

/// The machine failed one step: it moved to `Failed`, appended exactly
/// `err`, and learned no name.
pub open spec fn spec_fail(
    pre: HandshakeMachine,
    post: HandshakeMachine,
    r: HandshakeOutput,
    err: HandshakeError,
) -> bool {
    &&& post.spec_state() is Failed
    &&& r.failed
    &&& !r.done
    &&& !r.run_validator
    &&& post.spec_errors() == pre.spec_errors().push(err)
    &&& post.spec_peer_name() == pre.spec_peer_name()
}

/// The machine surfaced a terminal reason frame received from the peer: it
/// failed with the matching error and replies with nothing, since the peer
/// has already terminated. A reported `MalformedData` surfaces as the
/// wrapped `InvalidEncoding` with an empty packet: the offending bytes
/// stayed on the peer's side.
pub open spec fn spec_fail_reported(
    pre: HandshakeMachine,
    post: HandshakeMachine,
    r: HandshakeOutput,
    m: MessageView,
) -> bool
    recommends
        is_terminal_reason(m),
{
    &&& r.reply is None
    &&& (m is NameTaken ==> spec_fail(pre, post, r, HandshakeError::NameTaken))
    &&& (m is InvalidMagic ==> spec_fail(pre, post, r, HandshakeError::InvalidMagic))
    &&& (m is UnexpectedPacket ==> spec_fail(pre, post, r, HandshakeError::UnexpectedPacket))
    &&& (m is MalformedData ==> {
        &&& post.spec_state() is Failed
        &&& r.failed
        &&& !r.done
        &&& !r.run_validator
        &&& post.spec_errors().len() == pre.spec_errors().len() + 1
        &&& post.spec_errors().drop_last() == pre.spec_errors()
        &&& (post.spec_errors().last() matches HandshakeError::FramedError(f) && (f
            matches FramedError::InvalidEncoding { packet } && packet@.len() == 0))
        &&& post.spec_peer_name() == pre.spec_peer_name()
    })
}

impl HandshakeMachine {
    /// This side's role.
    pub closed spec fn spec_side(&self) -> Side {
        self.side
    }

    /// This node's own name.
    pub closed spec fn spec_local_name(&self) -> Seq<char> {
        self.local_name@
    }

    /// The step reached.
    pub closed spec fn spec_state(&self) -> HandshakeState {
        self.state
    }

    /// The counterparty's name, once its handshake frame was accepted.
    pub closed spec fn spec_peer_name(&self) -> Option<Seq<char>> {
        match self.peer_name {
            Option::Some(s) => Some(s@),
            Option::None => None,
        }
    }

    /// The errors collected so far, in order.
    pub closed spec fn spec_errors(&self) -> Seq<HandshakeError> {
        self.errors@
    }

    /// From the moment the counterparty's frame is accepted, the machine
    /// knows its name.
    pub open spec fn wf(&self) -> bool {
        (self.spec_state() is Validating || self.spec_state() is AwaitCompletion
            || self.spec_state() is Complete) ==> self.spec_peer_name() is Some
    }

    /// Creates the machine for one fresh connection. The initiator starts
    /// by transmitting [`HandshakeMachine::initiation`]; the acceptor
    /// starts by receiving.
    pub fn new(side: Side, local_name: String) -> (r: HandshakeMachine)
        ensures
            r.wf(),
            r.spec_side() == side,
            r.spec_local_name() == local_name@,
            r.spec_state() == (if side is Initiator {
                HandshakeState::AwaitResponse
            } else {
                HandshakeState::AwaitInitiation
            }),
            r.spec_peer_name() is None,
            r.spec_errors().len() == 0,
    {
        let state = if side == Side::Initiator {
            HandshakeState::AwaitResponse
        } else {
            HandshakeState::AwaitInitiation
        };
        HandshakeMachine { side, local_name, state, peer_name: None, errors: Vec::new() }
    }

    /// The first frame of the handshake, which the initiator transmits as
    /// soon as the stream is open: the magic string and this node's name.
    pub fn initiation(&self) -> (r: PalantirMessage)
        requires
            self.spec_side() is Initiator,
        ensures
            r@ == (MessageView::ClientInitiation {
                magic: spec_magic(),
                name: self.spec_local_name(),
            }),
    {
        PalantirMessage::ClientInitiation {
            magic: String::from_str("PALANTIR"),
            name: self.local_name.clone(),
        }
    }

    /// Feeds the machine the result of receiving one frame, together with
    /// the peer table the name-uniqueness check runs against.
    ///
    /// An undecodable frame fails the handshake and replies `MalformedData`;
    /// a transmission failure fails it with no reply. A received terminal
    /// reason frame — the peer detected the violation and has already
    /// terminated — fails the handshake with the reported reason and
    /// replies with nothing, so a rejected dialer comes away with
    /// `NameTaken` when its name was taken. Any other frame of the wrong
    /// variant fails the handshake and replies `UnexpectedPacket`. The
    /// expected variant is checked for the magic string (`InvalidMagic`) and
    /// for name uniqueness against the table (`NameTaken`); when both pass,
    /// the machine records the counterparty's name and opens the validator
    /// window, the acceptor also answering with its `ServerResponse`. In
    /// the last step the acceptor accepts exactly `HandshakeCompleted`.
    pub fn on_frame(
        &mut self,
        frame: Result<PalantirMessage, FramedError>,
        table: &PeerTable,
    ) -> (r: HandshakeOutput)
        requires
            old(self).wf(),
            old(self).spec_state() is AwaitInitiation || old(self).spec_state() is AwaitResponse
                || old(self).spec_state() is AwaitCompletion,
            frame matches Err(e) ==> !(e is ExceedsSizeLimit),
        ensures
            final(self).wf(),
            final(self).spec_side() == old(self).spec_side(),
            final(self).spec_local_name() == old(self).spec_local_name(),
            frame matches Err(e) ==> {
                &&& spec_fail(*old(self), *final(self), r, HandshakeError::FramedError(e))
                &&& (e matches FramedError::InvalidEncoding { .. } ==> r.reply matches Some(rm)
                    && rm@ is MalformedData)
                &&& (e matches FramedError::TransmissionError(_) ==> r.reply is None)
            },
            frame matches Ok(m) ==> (is_terminal_reason(m@) ==> spec_fail_reported(
                *old(self),
                *final(self),
                r,
                m@,
            )),
            frame matches Ok(m) ==> (!is_terminal_reason(m@) ==> match old(self).spec_state() {
                HandshakeState::AwaitResponse => match m@ {
                    MessageView::ServerResponse { magic, name } => {
                        if magic != spec_magic() {
                            spec_fail(*old(self), *final(self), r, HandshakeError::InvalidMagic)
                                && (r.reply matches Some(rm) && rm@ is InvalidMagic)
                        } else if table.contains_name(name) {
                            spec_fail(*old(self), *final(self), r, HandshakeError::NameTaken) && (
                            r.reply matches Some(rm) && rm@ is NameTaken)
                        } else {
                            &&& final(self).spec_state() is Validating
                            &&& final(self).spec_peer_name() == Some(name)
                            &&& final(self).spec_errors() == old(self).spec_errors()
                            &&& r.run_validator
                            &&& !r.done
                            &&& !r.failed
                            &&& r.reply is None
                        }
                    },
                    _ => spec_fail(*old(self), *final(self), r, HandshakeError::UnexpectedPacket)
                        && (r.reply matches Some(rm) && rm@ is UnexpectedPacket),
                },
                HandshakeState::AwaitInitiation => match m@ {
                    MessageView::ClientInitiation { magic, name } => {
                        if magic != spec_magic() {
                            spec_fail(*old(self), *final(self), r, HandshakeError::InvalidMagic)
                                && (r.reply matches Some(rm) && rm@ is InvalidMagic)
                        } else if table.contains_name(name) {
                            spec_fail(*old(self), *final(self), r, HandshakeError::NameTaken) && (
                            r.reply matches Some(rm) && rm@ is NameTaken)
                        } else {
                            &&& final(self).spec_state() is Validating
                            &&& final(self).spec_peer_name() == Some(name)
                            &&& final(self).spec_errors() == old(self).spec_errors()
                            &&& r.run_validator
                            &&& !r.done
                            &&& !r.failed
                            &&& (r.reply matches Some(rm) && rm@ == (MessageView::ServerResponse {
                                magic: spec_magic(),
                                name: old(self).spec_local_name(),
                            }))
                        }
                    },
                    _ => spec_fail(*old(self), *final(self), r, HandshakeError::UnexpectedPacket)
                        && (r.reply matches Some(rm) && rm@ is UnexpectedPacket),
                },
                _ => match m@ {
                    MessageView::HandshakeCompleted => {
                        &&& final(self).spec_state() is Complete
                        &&& final(self).spec_peer_name() == old(self).spec_peer_name()
                        &&& final(self).spec_errors() == old(self).spec_errors()
                        &&& r.done
                        &&& !r.failed
                        &&& !r.run_validator
                        &&& r.reply is None
                    },
                    _ => spec_fail(*old(self), *final(self), r, HandshakeError::UnexpectedPacket)
                        && (r.reply matches Some(rm) && rm@ is UnexpectedPacket),
                },
            }),
    {
        match frame {
            Result::Err(e) => {
                let reply = match &e {
                    FramedError::InvalidEncoding { .. } => Some(PalantirMessage::MalformedData),
                    _ => None,
                };
                self.errors.push(HandshakeError::FramedError(e));
                self.state = HandshakeState::Failed;
                HandshakeOutput { reply, run_validator: false, done: false, failed: true }
            },
            Result::Ok(m) => {
                match m {
                    PalantirMessage::NameTaken => self.fail_reported(HandshakeError::NameTaken),
                    PalantirMessage::InvalidMagic => self.fail_reported(
                        HandshakeError::InvalidMagic,
                    ),
                    PalantirMessage::UnexpectedPacket => self.fail_reported(
                        HandshakeError::UnexpectedPacket,
                    ),
                    PalantirMessage::MalformedData => {
                        let packet: Vec<u8> = Vec::new();
                        let out = self.fail_reported(
                            HandshakeError::FramedError(FramedError::InvalidEncoding { packet }),
                        );
                        proof {
                            assert(self.spec_errors().drop_last() =~= old(self).spec_errors());
                        }
                        out
                    },
                    other => {
                        match self.state {
                            HandshakeState::AwaitResponse => {
                                match other {
                                    PalantirMessage::ServerResponse { magic, name } => {
                                        self.accept_peer_name(magic, name, table, false)
                                    },
                                    _ => self.fail_unexpected(),
                                }
                            },
                            HandshakeState::AwaitInitiation => {
                                match other {
                                    PalantirMessage::ClientInitiation { magic, name } => {
                                        self.accept_peer_name(magic, name, table, true)
                                    },
                                    _ => self.fail_unexpected(),
                                }
                            },
                            _ => {
                                match other {
                                    PalantirMessage::HandshakeCompleted => {
                                        self.state = HandshakeState::Complete;
                                        HandshakeOutput {
                                            reply: None,
                                            run_validator: false,
                                            done: true,
                                            failed: false,
                                        }
                                    },
                                    _ => self.fail_unexpected(),
                                }
                            },
                        }
                    },
                }
            },
        }
    }

    /// Checks the magic string and the name-uniqueness of the counterparty
    /// frame's fields; on success records the name and opens the validator
    /// window, the acceptor answering with its `ServerResponse`.
    fn accept_peer_name(
        &mut self,
        magic: String,
        name: String,
        table: &PeerTable,
        answer: bool,
    ) -> (r: HandshakeOutput)
        ensures
            final(self).wf(),
            final(self).spec_side() == old(self).spec_side(),
            final(self).spec_local_name() == old(self).spec_local_name(),
            magic@ != spec_magic() ==> spec_fail(
                *old(self),
                *final(self),
                r,
                HandshakeError::InvalidMagic,
            ) && (r.reply matches Some(rm) && rm@ is InvalidMagic),
            magic@ == spec_magic() && table.contains_name(name@) ==> spec_fail(
                *old(self),
                *final(self),
                r,
                HandshakeError::NameTaken,
            ) && (r.reply matches Some(rm) && rm@ is NameTaken),
            magic@ == spec_magic() && !table.contains_name(name@) ==> {
                &&& final(self).spec_state() is Validating
                &&& final(self).spec_peer_name() == Some(name@)
                &&& final(self).spec_errors() == old(self).spec_errors()
                &&& r.run_validator
                &&& !r.done
                &&& !r.failed
                &&& (answer ==> (r.reply matches Some(rm) && rm@ == (MessageView::ServerResponse {
                    magic: spec_magic(),
                    name: old(self).spec_local_name(),
                })))
                &&& (!answer ==> r.reply is None)
            },
    {
        if !(magic == String::from_str("PALANTIR")) {
            self.errors.push(HandshakeError::InvalidMagic);
            self.state = HandshakeState::Failed;
            return HandshakeOutput {
                reply: Some(PalantirMessage::InvalidMagic),
                run_validator: false,
                done: false,
                failed: true,
            };
        }
        if table.contains(&name) {
            self.errors.push(HandshakeError::NameTaken);
            self.state = HandshakeState::Failed;
            return HandshakeOutput {
                reply: Some(PalantirMessage::NameTaken),
                run_validator: false,
                done: false,
                failed: true,
            };
        }
        self.peer_name = Some(name);
        self.state = HandshakeState::Validating;
        let reply = if answer {
            Some(
                PalantirMessage::ServerResponse {
                    magic: String::from_str("PALANTIR"),
                    name: self.local_name.clone(),
                },
            )
        } else {
            None
        };
        HandshakeOutput { reply, run_validator: true, done: false, failed: false }
    }

    /// The peer transmitted a terminal reason frame and has already torn
    /// the connection down: the machine fails with the reported reason and
    /// sends nothing back.
    fn fail_reported(&mut self, err: HandshakeError) -> (r: HandshakeOutput)
        ensures
            final(self).wf(),
            final(self).spec_side() == old(self).spec_side(),
            final(self).spec_local_name() == old(self).spec_local_name(),
            spec_fail(*old(self), *final(self), r, err),
            r.reply is None,
    {
        self.errors.push(err);
        self.state = HandshakeState::Failed;
        HandshakeOutput { reply: None, run_validator: false, done: false, failed: true }
    }

    /// One failed step: appends `UnexpectedPacket` and replies in kind.
    fn fail_unexpected(&mut self) -> (r: HandshakeOutput)
        ensures
            final(self).wf(),
            final(self).spec_side() == old(self).spec_side(),
            final(self).spec_local_name() == old(self).spec_local_name(),
            spec_fail(*old(self), *final(self), r, HandshakeError::UnexpectedPacket),
            r.reply matches Some(rm) && rm@ is UnexpectedPacket,
    {
        self.errors.push(HandshakeError::UnexpectedPacket);
        self.state = HandshakeState::Failed;
        HandshakeOutput {
            reply: Some(PalantirMessage::UnexpectedPacket),
            run_validator: false,
            done: false,
            failed: true,
        }
    }

    /// Reports the validator window's verdict. On acceptance the initiator
    /// transmits `HandshakeCompleted` and is done; the acceptor waits for
    /// that frame. On rejection the handshake fails; the validator's own
    /// errors are surfaced by the embedding program alongside the
    /// machine's.
    pub fn on_validator(&mut self, passed: bool) -> (r: HandshakeOutput)
        requires
            old(self).wf(),
            old(self).spec_state() is Validating,
            old(self).spec_peer_name() is Some,
        ensures
            final(self).wf(),
            final(self).spec_side() == old(self).spec_side(),
            final(self).spec_local_name() == old(self).spec_local_name(),
            final(self).spec_peer_name() == old(self).spec_peer_name(),
            final(self).spec_errors() == old(self).spec_errors(),
            passed && old(self).spec_side() is Initiator ==> {
                &&& final(self).spec_state() is Complete
                &&& r.done
                &&& !r.failed
                &&& (r.reply matches Some(rm) && rm@ is HandshakeCompleted)
            },
            passed && old(self).spec_side() is Acceptor ==> {
                &&& final(self).spec_state() is AwaitCompletion
                &&& !r.done
                &&& !r.failed
                &&& r.reply is None
            },
            !passed ==> {
                &&& final(self).spec_state() is Failed
                &&& !r.done
                &&& r.failed
                &&& r.reply is None
            },
            !r.run_validator,
    {
        if !passed {
            self.state = HandshakeState::Failed;
            return HandshakeOutput { reply: None, run_validator: false, done: false, failed: true };
        }
        if self.side == Side::Initiator {
            self.state = HandshakeState::Complete;
            HandshakeOutput {
                reply: Some(PalantirMessage::HandshakeCompleted),
                run_validator: false,
                done: true,
                failed: false,
            }
        } else {
            self.state = HandshakeState::AwaitCompletion;
            HandshakeOutput { reply: None, run_validator: false, done: false, failed: false }
        }
    }

    /// Records that transmitting a terminal reason frame to the peer
    /// failed too: the error chain keeps both.
    pub fn record_send_failure(&mut self, e: FramedError)
        ensures
            final(self).spec_errors() == old(self).spec_errors().push(
                HandshakeError::FramedError(e),
            ),
            final(self).spec_state() == old(self).spec_state(),
            final(self).spec_side() == old(self).spec_side(),
            final(self).spec_local_name() == old(self).spec_local_name(),
            final(self).spec_peer_name() == old(self).spec_peer_name(),
            final(self).wf() == old(self).wf(),
    {
        self.errors.push(HandshakeError::FramedError(e));
    }

    /// The counterparty's name; `Some` from the moment its handshake frame
    /// was accepted, and always once the handshake completed.
    pub fn peer_name(&self) -> (r: &Option<String>)
        ensures
            r matches Some(s) ==> self.spec_peer_name() == Some(s@),
            r is None <==> self.spec_peer_name() is None,
    {
        &self.peer_name
    }

    /// The errors collected so far, in order.
    pub fn errors(&self) -> (r: &Vec<HandshakeError>)
        ensures
            r@ == self.spec_errors(),
    {
        &self.errors
    }

    /// The errors collected, surrendered with the machine.
    pub fn take_errors(self) -> (r: Vec<HandshakeError>)
        ensures
            r@ == self.spec_errors(),
    {
        self.errors
    }

    /// The step reached.
    pub fn state(&self) -> (r: HandshakeState)
        ensures
            r == self.spec_state(),
    {
        self.state
    }
}

} // verus!
