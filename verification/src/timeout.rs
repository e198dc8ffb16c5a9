//! The timeout-expiring oneshot registry.
//!
//! The registry pairs a slot map of pending response slots with a FIFO queue
//! of insertion times. Its invariants: every slot key appears exactly once
//! in the queue, at the same position; insertion times are non-decreasing,
//! so the expired entries always form a prefix of the queue; and every live
//! key is below the key counter, so a fresh key is never a live one.
//!
//! Time is carried by the caller as milliseconds of a monotone clock; the
//! embedding program sleeps until the front entry's deadline and then calls
//! [`TimeoutChannels::tick`].

use vstd::prelude::*;
use crate::sync::oneshot_channel;

verus! {

/// A slot map of pending oneshot response slots plus an ordered expiry
/// queue. Entries leave when they are popped by their key or when they
/// expire; expiry drops the slot, which wakes the receiving half with an
/// error.
pub struct TimeoutChannels {
    /// The duration, in milliseconds, after which entries expire.
    timeout: u64,
    /// The slot map: key and response slot, in insertion order.
    slots: Vec<(u32, tokio::sync::oneshot::Sender<Vec<u8>>)>,
    /// The expiry queue: insertion time and key, in insertion order.
    queue: Vec<(u64, u32)>,
    /// The next key to hand out. Keys are never reused.
    next_key: u32,
}

impl TimeoutChannels {
    /// The keys of the live entries, oldest first.
    pub closed spec fn keys(&self) -> Seq<u32> {
        self.queue@.map_values(|p: (u64, u32)| p.1)
    }

    /// The expiry queue as (insertion time, key) pairs.
    pub closed spec fn entries(&self) -> Seq<(u64, u32)> {
        self.queue@
    }

    /// The configured timeout in milliseconds.
    pub closed spec fn spec_timeout(&self) -> u64 {
        self.timeout
    }

    /// The key the next `add` will return.
    pub closed spec fn spec_next_key(&self) -> u32 {
        self.next_key
    }

    /// Whether `k` is a live (neither popped nor expired) key.
    pub closed spec fn live(&self, k: u32) -> bool {
        exists|i: int| 0 <= i < self.queue@.len() && (#[trigger] self.queue@[i]).1 == k
    }

    /// Well-formedness: the slot map and the queue hold the same keys in
    /// the same order, keys are unique and below the counter, and times are
    /// non-decreasing.
    pub closed spec fn wf(&self) -> bool {
        &&& self.slots@.len() == self.queue@.len()
        &&& forall|i: int|
            0 <= i < self.queue@.len() ==> (#[trigger] self.slots@[i]).0 == self.queue@[i].1
        &&& forall|i: int, j: int|
            0 <= i < j < self.queue@.len() ==> (#[trigger] self.queue@[i]).1 != (
            #[trigger] self.queue@[j]).1
        &&& forall|i: int, j: int|
            0 <= i <= j < self.queue@.len() ==> (#[trigger] self.queue@[i]).0 <= (
            #[trigger] self.queue@[j]).0
        &&& forall|i: int|
            0 <= i < self.queue@.len() ==> (#[trigger] self.queue@[i]).1 < self.next_key
    }

    /// Creates an empty registry with the given timeout in milliseconds.
    pub fn new(timeout: u64) -> (r: TimeoutChannels)
        ensures
            r.wf(),
            r.entries().len() == 0,
            r.spec_timeout() == timeout,
    {
        TimeoutChannels { timeout, slots: Vec::new(), queue: Vec::new(), next_key: 0 }
    }

    /// Registers a new pending entry, returning the receiving half of its
    /// response slot and its key. The key is fresh: it is distinct from
    /// every key this registry has ever returned, so every returned key is
    /// unique. The entry joins the back of the queue stamped `now`; only
    /// when the caller's clock stepped back past the last entry is the
    /// stamp clamped to that entry's time, keeping the queue non-decreasing.
    pub fn add(&mut self, now: u64) -> (r: (tokio::sync::oneshot::Receiver<Vec<u8>>, u32))
        requires
            old(self).wf(),
            old(self).spec_next_key() < u32::MAX,
        ensures
            final(self).wf(),
            r.1 == old(self).spec_next_key(),
            !old(self).live(r.1),
            final(self).live(r.1),
            final(self).entries() == old(self).entries().push(
                (
                    if old(self).entries().len() > 0 && old(self).entries().last().0 > now {
                        old(self).entries().last().0
                    } else {
                        now
                    },
                    r.1,
                ),
            ),
            final(self).spec_next_key() == old(self).spec_next_key() + 1,
            final(self).spec_timeout() == old(self).spec_timeout(),
    {
        let (sender, receiver) = oneshot_channel();
        let t: u64 = if self.queue.len() > 0 {
            let last = self.queue[self.queue.len() - 1].0;
            if last > now {
                last
            } else {
                now
            }
        } else {
            now
        };
        let key = self.next_key;
        self.slots.push((key, sender));
        self.queue.push((t, key));
        self.next_key = self.next_key + 1;
        proof {
            assert(final(self).queue@[final(self).queue@.len() - 1].1 == key);
        }
        (receiver, key)
    }

    /// The key the next `add` will return is not a live key: every key the
    /// registry ever returns is unique, because keys are handed out from a
    /// counter that only grows and every live key lies below it.
    pub proof fn lemma_fresh_key_not_live(&self)
        requires
            self.wf(),
        ensures
            !self.live(self.spec_next_key()),
    {
    }

    /// Removes and returns the response slot for `key`. Returns `Some`
    /// exactly when the entry is live, that is, when it has neither expired
    /// nor been popped before; the entry leaves both the slot map and the
    /// queue.
    pub fn pop(&mut self, key: u32) -> (r: Option<tokio::sync::oneshot::Sender<Vec<u8>>>)
        requires
            old(self).wf(),
        ensures
            final(self).wf(),
            r is Some <==> old(self).live(key),
            old(self).live(key) ==> exists|i: int|
                0 <= i < old(self).entries().len() && old(self).entries()[i].1 == key && final(self).entries() == old(self).entries().remove(i),
            !old(self).live(key) ==> *final(self) == *old(self),
            !final(self).live(key),
            final(self).spec_next_key() == old(self).spec_next_key(),
            final(self).spec_timeout() == old(self).spec_timeout(),
    {
        let n = self.queue.len();
        let mut i: usize = 0;
        while i < n
            invariant
                *self == *old(self),
                n == self.queue@.len(),
                i <= n,
                old(self).wf(),
                forall|j: int| 0 <= j < i ==> (#[trigger] self.queue@[j]).1 != key,
            decreases n - i,
        {
            if self.queue[i].1 == key {
                let (_t, _k) = self.queue.remove(i);
                let (_k2, sender) = self.slots.remove(i);
                proof {
                    assert(final(self).queue@ =~= old(self).queue@.remove(i as int));
                    assert(final(self).slots@ =~= old(self).slots@.remove(i as int));
                    assert forall|a: int, b: int|
                        0 <= a < b < final(self).queue@.len() implies (#[trigger] final(self).queue@[a]).1 != (#[trigger] final(self).queue@[b]).1 by {
                        let oa = if a < i { a } else { a + 1 };
                        let ob = if b < i { b } else { b + 1 };
                        assert(final(self).queue@[a] == old(self).queue@[oa]);
                        assert(final(self).queue@[b] == old(self).queue@[ob]);
                    }
                    assert forall|k2: u32| final(self).live(k2) implies k2 != key by {
                        let w = choose|w: int|
                            0 <= w < final(self).queue@.len() && (#[trigger] final(self).queue@[w]).1 == k2;
                        let ow = if w < i { w } else { w + 1 };
                        assert(final(self).queue@[w] == old(self).queue@[ow]);
                    }
                    assert(old(self).entries()[i as int].1 == key && final(self).entries()
                        == old(self).entries().remove(i as int));
                }
                return Some(sender);
            }
            i = i + 1;
        }
        None
    }

    /// Whether another entry can still be added: keys are handed out from
    /// a counter that is never reused, so a registry that has issued every
    /// key is exhausted.
    pub fn has_capacity(&self) -> (r: bool)
        ensures
            r == (self.spec_next_key() < u32::MAX),
    {
        self.next_key < u32::MAX
    }

    /// Responses may be delivered in any order: removing the entry of one
    /// key leaves every other live key live, so correlation by key makes
    /// the delivery order irrelevant to callers.
    pub proof fn lemma_pop_preserves_other_keys(
        pre: TimeoutChannels,
        post: TimeoutChannels,
        k1: u32,
        k2: u32,
        i: int,
    )
        requires
            pre.wf(),
            0 <= i < pre.entries().len(),
            pre.entries()[i].1 == k1,
            post.entries() == pre.entries().remove(i),
            k2 != k1,
            pre.live(k2),
        ensures
            post.live(k2),
    {
        let w = choose|w: int| 0 <= w < pre.entries().len() && (#[trigger] pre.entries()[w]).1
            == k2;
        if w < i {
            assert(post.entries()[w] == pre.entries()[w]);
        } else {
            assert(post.entries()[w - 1] == pre.entries()[w]);
        }
    }

    /// The deadline of the front entry: when the next `tick` has work. The
    /// driving task sleeps until this instant, or until a new entry's
    /// deadline where the registry was empty.
    pub fn next_deadline(&self) -> (r: Option<u64>)
        ensures
            r is Some <==> self.entries().len() > 0,
            r matches Some(d) ==> d == if self.entries()[0].0 + self.spec_timeout() <= u64::MAX {
                (self.entries()[0].0 + self.spec_timeout()) as u64
            } else {
                u64::MAX
            },
    {
        if self.queue.len() == 0 {
            None
        } else {
            let t = self.queue[0].0;
            if t <= u64::MAX - self.timeout {
                Some(t + self.timeout)
            } else {
                Some(u64::MAX)
            }
        }
    }

    /// Removes every entry whose deadline has passed and returns their keys
    /// in queue order. Because insertion times are non-decreasing, the
    /// expired entries are exactly a prefix of the queue; every entry that
    /// remains afterwards is unexpired. Dropping the removed slots wakes
    /// the corresponding receivers with an error.
    pub fn tick(&mut self, now: u64) -> (r: Vec<u32>)
        requires
            old(self).wf(),
        ensures
            final(self).wf(),
            r@.len() <= old(self).entries().len(),
            final(self).entries() == old(self).entries().skip(r@.len() as int),
            forall|i: int|
                0 <= i < r@.len() ==> r@[i] == (#[trigger] old(self).entries()[i]).1 && old(self).entries()[i].0 + old(self).spec_timeout() <= now,
            forall|i: int|
                0 <= i < final(self).entries().len() ==> (#[trigger] final(self).entries()[i]).0
                    + old(self).spec_timeout() > now,
            final(self).spec_next_key() == old(self).spec_next_key(),
            final(self).spec_timeout() == old(self).spec_timeout(),
    {
        let mut expired: Vec<u32> = Vec::new();
        loop
            invariant
                old(self).wf(),
                self.wf(),
                self.timeout == old(self).timeout,
                self.next_key == old(self).next_key,
                self.slots@.len() == self.queue@.len(),
                expired@.len() <= old(self).queue@.len(),
                self.queue@ == old(self).queue@.skip(expired@.len() as int),
                self.slots@ == old(self).slots@.skip(expired@.len() as int),
                forall|i: int|
                    0 <= i < expired@.len() ==> expired@[i] == (#[trigger] old(self).queue@[i]).1 && old(self).queue@[i].0 + old(self).timeout <= now,
            ensures
                self.queue@.len() == 0 || self.queue@[0].0 + self.timeout > now,
            decreases self.queue@.len(),
        {
            if self.queue.len() == 0 {
                break ;
            }
            let front = self.queue[0];
            if !(front.0 <= now && now - front.0 >= self.timeout) {
                break ;
            }
            let ghost c = expired@.len() as int;
            let (_t, key) = self.queue.remove(0);
            let (_k, _sender) = self.slots.remove(0);
            expired.push(key);
            proof {
                assert(old(self).queue@[c] == front);
                assert(self.queue@ == old(self).queue@.skip(c).remove(0));
                assert(self.slots@ == old(self).slots@.skip(c).remove(0));
                assert(self.queue@ =~= old(self).queue@.skip(c + 1));
                assert forall|k2: int| 0 <= k2 < self.slots@.len() implies self.slots@[k2]
                    == old(self).slots@.skip(c + 1)[k2] by {
                    assert(self.slots@[k2] == old(self).slots@.skip(c)[k2 + 1]);
                    assert(old(self).slots@.skip(c)[k2 + 1] == old(self).slots@[c + 1 + k2]);
                    assert(old(self).slots@.skip(c + 1)[k2] == old(self).slots@[c + 1 + k2]);
                }
                assert(self.slots@ =~= old(self).slots@.skip(c + 1));
            }
        }
        proof {
            assert forall|i: int| 0 <= i < self.queue@.len() implies (#[trigger] self.queue@[i]).0
                + self.timeout > now by {
                assert(self.queue@[0].0 <= self.queue@[i].0);
            }
        }
        expired
    }
}

} // verus!
