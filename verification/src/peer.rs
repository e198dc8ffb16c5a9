//! The peer table and session admission.
//!
//! The peer table maps peer names to connection tokens. A token stands for
//! one live connection handle owned by the embedding program; the table's
//! own guarantee is name uniqueness: at most one entry per name, and a name
//! is inserted only after a successful handshake.

use vstd::prelude::*;
use crate::error::{FramedError, OpenChannelError};
use crate::frame::{encode_frame, spec_frame};
use crate::messages::{
    ActorID, ChannelPurpose, PurposeView, encode_purpose, spec_encode_purpose, purpose_wf,
};

verus! {

/// The table of established peers: one `(name, connection token)` entry per
/// peer, with names unique.
pub struct PeerTable {
    entries: Vec<(String, u64)>,
}

impl View for PeerTable {
    type V = Seq<(Seq<char>, u64)>;

    closed spec fn view(&self) -> Seq<(Seq<char>, u64)> {
        self.entries@.map_values(|p: (String, u64)| (p.0@, p.1))
    }
}

impl PeerTable {
    /// Whether the table holds an entry named `n`.
    pub open spec fn contains_name(&self, n: Seq<char>) -> bool {
        exists|i: int| 0 <= i < self@.len() && (#[trigger] self@[i]).0 == n
    }

    /// Well-formedness: names are unique.
    pub open spec fn wf(&self) -> bool {
        forall|i: int, j: int|
            0 <= i < j < self@.len() ==> (#[trigger] self@[i]).0 != (#[trigger] self@[j]).0
    }

    /// Creates an empty peer table.
    pub fn new() -> (r: PeerTable)
        ensures
            r.wf(),
            r@.len() == 0,
    {
        PeerTable { entries: Vec::new() }
    }

    /// Whether a peer named `name` is established.
    pub fn contains(&self, name: &String) -> (r: bool)
        ensures
            r == self.contains_name(name@),
    {
        let n = self.entries.len();
        let mut i: usize = 0;
        while i < n
            invariant
                n == self.entries@.len(),
                i <= n,
                forall|j: int| 0 <= j < i ==> (#[trigger] self@[j]).0 != name@,
            decreases n - i,
        {
            if self.entries[i].0 == *name {
                proof {
                    assert(self@[i as int].0 == name@);
                }
                return true;
            }
            i = i + 1;
        }
        false
    }

    /// The connection token of the peer named `name`.
    pub fn get(&self, name: &String) -> (r: Option<u64>)
        ensures
            r is Some <==> self.contains_name(name@),
            r matches Some(c) ==> exists|i: int|
                0 <= i < self@.len() && (#[trigger] self@[i]) == (name@, c),
    {
        let n = self.entries.len();
        let mut i: usize = 0;
        while i < n
            invariant
                n == self.entries@.len(),
                i <= n,
                forall|j: int| 0 <= j < i ==> (#[trigger] self@[j]).0 != name@,
            decreases n - i,
        {
            if self.entries[i].0 == *name {
                proof {
                    assert(self@[i as int] == (name@, self.entries@[i as int].1));
                }
                return Some(self.entries[i].1);
            }
            i = i + 1;
        }
        None
    }

    /// Inserts a freshly handshaken peer. Returns whether the entry was
    /// inserted: a name already present is refused, so the table never
    /// gains a second entry for a name.
    pub fn insert(&mut self, name: String, conn: u64) -> (r: bool)
        requires
            old(self).wf(),
        ensures
            final(self).wf(),
            r <==> !old(self).contains_name(name@),
            r ==> final(self)@ == old(self)@.push((name@, conn)),
            !r ==> final(self)@ == old(self)@,
            final(self).contains_name(name@),
    {
        if self.contains(&name) {
            return false;
        }
        self.entries.push((name, conn));
        proof {
            assert(self@ =~= old(self)@.push((name@, conn)));
            assert(self@[self@.len() - 1].0 == name@);
        }
        true
    }

    /// The number of established peers.
    pub fn len(&self) -> (r: usize)
        ensures
            r == self@.len(),
    {
        self.entries.len()
    }

    /// A peer table holds at most one entry per name: any two entries with
    /// the same name are the same entry. Together with
    /// [`PeerTable::insert`], which inserts only a name that is absent,
    /// each side of a successful handshake holds exactly one entry for its
    /// counterparty.
    pub proof fn lemma_entry_unique(&self, n: Seq<char>, i: int, j: int)
        requires
            self.wf(),
            0 <= i < self@.len(),
            0 <= j < self@.len(),
            self@[i].0 == n,
            self@[j].0 == n,
        ensures
            i == j,
    {
    }
}

/// After a successful handshake the detecting side inserts the
/// counterparty into a table that did not hold its name; the table then
/// holds exactly one entry for the counterparty: the new one, and no
/// other.
pub proof fn lemma_handshake_gains_one_entry(
    pre: PeerTable,
    post: PeerTable,
    name: Seq<char>,
    conn: u64,
)
    requires
        pre.wf(),
        !pre.contains_name(name),
        post@ == pre@.push((name, conn)),
    ensures
        post.wf(),
        post.contains_name(name),
        forall|i: int, j: int|
            0 <= i < post@.len() && 0 <= j < post@.len() && (#[trigger] post@[i]).0 == name && (
            #[trigger] post@[j]).0 == name ==> i == j,
{
    let last = post@.len() - 1;
    assert(post@[last] == (name, conn));
    assert forall|i: int| 0 <= i < last implies (#[trigger] post@[i]).0 != name by {
        assert(post@[i] == pre@[i]);
    }
}

/// Opens a request/response channel to an actor on an established peer:
/// looks the peer up in the table and computes the stream's first frame,
/// which announces the channel's purpose. Returns the peer's connection
/// token and the frame bytes to write on the fresh stream; a peer without
/// an active connection is refused with `PeerDoesntExist`.
pub fn open_channel(
    table: &PeerTable,
    peer: &String,
    actor: ActorID,
    message_type: String,
) -> (r: Result<(u64, Vec<u8>), OpenChannelError>)
    ensures
        !table.contains_name(peer@) ==> (r matches Err(e) && e is PeerDoesntExist),
        table.contains_name(peer@) ==> ({
            let p = PurposeView::RequestResponse(actor@, message_type@);
            if purpose_wf(p) && spec_encode_purpose(p).len() < u32::MAX {
                r matches Ok((conn, frame)) && (exists|i: int|
                    0 <= i < table@.len() && #[trigger] table@[i] == (peer@, conn)) && frame@
                    == spec_frame(spec_encode_purpose(p))
            } else {
                r matches Err(e) && (e matches OpenChannelError::FramedError(f) && f
                    matches FramedError::ExceedsSizeLimit { .. })
            }
        }),
{
    let conn = match table.get(peer) {
        Option::Some(c) => c,
        Option::None => {
            return Err(OpenChannelError::PeerDoesntExist);
        },
    };
    let purpose = ChannelPurpose::RequestResponse(actor, message_type);
    let payload = match encode_purpose(&purpose) {
        Result::Ok(v) => v,
        Result::Err(e) => {
            return Err(OpenChannelError::FramedError(e));
        },
    };
    match encode_frame(&payload) {
        Result::Ok(frame) => Ok((conn, frame)),
        Result::Err(e) => Err(OpenChannelError::FramedError(e)),
    }
}

/// The admission decision for an incoming session: the name header must be
/// present, non-empty, and not already taken in the peer table.
pub fn admit_session(name: &Option<String>, table: &PeerTable) -> (r: bool)
    ensures
        r <==> (name matches Some(n) && n@.len() > 0 && !table.contains_name(n@)),
{
    match name {
        Option::Some(n) => {
            if n.as_str().unicode_len() == 0 {
                return false;
            }
            !table.contains(n)
        },
        Option::None => false,
    }
}

} // verus!
