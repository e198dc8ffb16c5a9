//! The actor routing delegate.
//!
//! The router narrows runtime identifiers to foreign actor addresses and
//! keeps the registry of local handlers: one bounded inbox of pending
//! [`Request`]s per `(actor, message type)` key. Inbound requests are
//! dispatched to the inbox registered under their key; a request for a
//! missing registration is dropped, and the caller's own timeout closes the
//! conversation. The typed serialization of payloads, and the tasks that
//! drain the inboxes, belong to the embedding program.

use vstd::prelude::*;
use crate::messages::{ActorID, ActorIdView};
use crate::request::Request;
use crate::sync::{request_channel, clone_request_sender};

verus! {

/// An actor identifier as the runtime supplies it: local or foreign,
/// numeric or named.
#[derive(Debug)]
pub enum Identifier {
    /// An actor on this node, by numeric id.
    Local(u64),
    /// An actor on this node, by name.
    LocalNamed(String),
    /// An actor on the named foreign node, by numeric id.
    Foreign(u64, String),
    /// An actor on the named foreign node, by name.
    ForeignNamed(String, String),
}

impl ActorID {
    /// Narrows an identifier to a foreign actor address: the actor id and
    /// the name of the peer hosting it. A local identifier yields `None`:
    /// the router cannot route to actors on this node.
    pub fn from_identifier(identifier: Identifier) -> (r: Option<(ActorID, String)>)
        ensures
            match identifier {
                Identifier::Local(_) => r is None,
                Identifier::LocalNamed(_) => r is None,
                Identifier::Foreign(id, system) => r matches Some((a, s)) && a@
                    == ActorIdView::Numeric(id) && s@ == system@,
                Identifier::ForeignNamed(name, system) => r matches Some((a, s)) && a@
                    == ActorIdView::Named(name@) && s@ == system@,
            },
    {
        match identifier {
            Identifier::Foreign(id, system) => Some((ActorID::Numeric(id), system)),
            Identifier::ForeignNamed(name, system) => Some((ActorID::Named(name), system)),
            _ => None,
        }
    }

    /// Whether two actor ids address the same actor.
    pub fn same_actor(&self, other: &ActorID) -> (r: bool)
        ensures
            r == (self@ == other@),
    {
        match self {
            ActorID::Numeric(a) => match other {
                ActorID::Numeric(b) => *a == *b,
                _ => false,
            },
            ActorID::Named(s) => match other {
                ActorID::Named(t) => *s == *t,
                _ => false,
            },
        }
    }
}

/// The registry of local actor handlers: one inbox per
/// `(actor, message type)` key.
pub struct HandlerRegistry {
    entries: Vec<(ActorID, String, tokio::sync::mpsc::Sender<Request>)>,
}

impl View for HandlerRegistry {
    type V = Seq<(ActorIdView, Seq<char>)>;

    closed spec fn view(&self) -> Seq<(ActorIdView, Seq<char>)> {
        self.entries@.map_values(
            |e: (ActorID, String, tokio::sync::mpsc::Sender<Request>)| (e.0@, e.1@),
        )
    }
}

impl HandlerRegistry {
    /// Whether a handler is registered under the given key.
    pub open spec fn contains_key(&self, a: ActorIdView, m: Seq<char>) -> bool {
        exists|i: int| 0 <= i < self@.len() && #[trigger] self@[i] == (a, m)
    }

    /// Well-formedness: keys are unique.
    pub open spec fn wf(&self) -> bool {
        forall|i: int, j: int|
            0 <= i < j < self@.len() ==> (#[trigger] self@[i]) != (#[trigger] self@[j])
    }

    /// Creates an empty registry.
    pub fn new() -> (r: HandlerRegistry)
        ensures
            r.wf(),
            r@.len() == 0,
    {
        HandlerRegistry { entries: Vec::new() }
    }

    /// Registers a handler for `(actor, message_type)` with a bounded inbox
    /// of the given capacity, returning the receiving half that the
    /// handler task drains. Registering a key again replaces its inbox.
    pub fn register(&mut self, actor: ActorID, message_type: String, capacity: usize) -> (r:
        tokio::sync::mpsc::Receiver<Request>)
        requires
            old(self).wf(),
            capacity > 0,
        ensures
            final(self).wf(),
            final(self).contains_key(actor@, message_type@),
            old(self).contains_key(actor@, message_type@) ==> final(self)@ == old(self)@,
            !old(self).contains_key(actor@, message_type@) ==> final(self)@ == old(self)@.push(
                (actor@, message_type@),
            ),
    {
        let (sender, receiver) = request_channel(capacity);
        let n = self.entries.len();
        let mut i: usize = 0;
        while i < n
            invariant
                old(self).wf(),
                *self == *old(self),
                n == self.entries@.len(),
                i <= n,
                forall|j: int| 0 <= j < i ==> (#[trigger] self@[j]) != (actor@, message_type@),
            decreases n - i,
        {
            let hit = self.entries[i].0.same_actor(&actor) && self.entries[i].1 == message_type;
            if hit {
                proof {
                    assert(self@[i as int] == (actor@, message_type@));
                }
                self.entries.set(i, (actor, message_type, sender));
                proof {
                    assert(self@ =~= old(self)@);
                    assert(self@ == old(self)@);
                    assert forall|a: int, b: int| 0 <= a < b < self@.len() implies (
                    #[trigger] self@[a]) != (#[trigger] self@[b]) by {
                        assert(old(self)@[a] != old(self)@[b]);
                    }
                }
                return receiver;
            }
            i = i + 1;
        }
        self.entries.push((actor, message_type, sender));
        proof {
            assert(self@ =~= old(self)@.push((actor@, message_type@)));
            assert(self@[self@.len() - 1] == (actor@, message_type@));
        }
        receiver
    }

    /// The inbox registered under `(actor, message_type)`, if any: the
    /// sending half, cloned, over which one inbound request is forwarded.
    pub fn lookup(&self, actor: &ActorID, message_type: &String) -> (r: Option<
        tokio::sync::mpsc::Sender<Request>,
    >)
        ensures
            r is Some <==> self.contains_key(actor@, message_type@),
    {
        let n = self.entries.len();
        let mut i: usize = 0;
        while i < n
            invariant
                n == self.entries@.len(),
                i <= n,
                forall|j: int| 0 <= j < i ==> (#[trigger] self@[j]) != (actor@, message_type@),
            decreases n - i,
        {
            let hit = self.entries[i].0.same_actor(actor) && self.entries[i].1 == *message_type;
            if hit {
                proof {
                    assert(self@[i as int] == (actor@, message_type@));
                }
                return Some(clone_request_sender(&self.entries[i].2));
            }
            i = i + 1;
        }
        None
    }

    /// The number of registered handlers.
    pub fn len(&self) -> (r: usize)
        ensures
            r == self@.len(),
    {
        self.entries.len()
    }
}

} // verus!
