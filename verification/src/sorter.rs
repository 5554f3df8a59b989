//! The message sorter: it numbers outgoing requests and pairs each reply of
//! the server with the request that it answers.

use vstd::prelude::*;
use crate::messages::ButtplugCurrentSpecClientMessage;
use crate::messages::ButtplugCurrentSpecServerMessage;

verus! {

/// A request that waits for its reply: its identifier and the handle of the
/// one-shot slot that the reply is owed to.
#[derive(Clone, Copy, Debug, PartialEq, Eq, Structural)]
pub struct PendingRequest {
    pub id: u32,
    pub waker: u64,
}

/// Whether some pending request carries `id`.
pub open spec fn has_id(entries: Seq<PendingRequest>, id: u32) -> bool {
    exists|i: int| 0 <= i < entries.len() && #[trigger] entries[i].id == id
}

/// The position of the pending request that carries `id`.
pub open spec fn index_of(entries: Seq<PendingRequest>, id: u32) -> int {
    choose|i: int| 0 <= i < entries.len() && #[trigger] entries[i].id == id
}

/// No identifier occurs twice.
pub open spec fn distinct_ids(entries: Seq<PendingRequest>) -> bool {
    forall|i: int, j: int|
        0 <= i < entries.len() && 0 <= j < entries.len() && i != j
            ==> #[trigger] entries[i].id != #[trigger] entries[j].id
}

/// The pending table: from identifier to reply slot.
pub open spec fn pending_map(entries: Seq<PendingRequest>) -> Map<u32, u64> {
    Map::new(|id: u32| has_id(entries, id), |id: u32| entries[index_of(entries, id)].waker)
}

/// The reply slots of the pending requests, oldest request first.
pub open spec fn wakers_of(entries: Seq<PendingRequest>) -> Seq<u64> {
    Seq::new(entries.len(), |i: int| entries[i].waker)
}

/// In a table without repeated identifiers, each entry is the one found
/// under its identifier.
pub proof fn lemma_lookup(entries: Seq<PendingRequest>, i: int)
    requires
        distinct_ids(entries),
        0 <= i < entries.len(),
    ensures
        has_id(entries, entries[i].id),
        index_of(entries, entries[i].id) == i,
        pending_map(entries).contains_key(entries[i].id),
        pending_map(entries)[entries[i].id] == entries[i].waker,
{
    let id = entries[i].id;
    assert(has_id(entries, id));
    let j = index_of(entries, id);
    assert(0 <= j < entries.len() && entries[j].id == id);
}

/// The slot that a reply with the identifier is owed to: that of the
/// pending request that carries the identifier, if there is one.
pub open spec fn owed_to(pending: Map<u32, u64>, reply_id: u32) -> Option<u64> {
    if pending.contains_key(reply_id) {
        Some(pending[reply_id])
    } else {
        None
    }
}

/// The pending table once a reply with the identifier has been resolved.
pub open spec fn pending_after_reply(pending: Map<u32, u64>, reply_id: u32) -> Map<u32, u64> {
    pending.remove(reply_id)
}

/// What `resolve` hands back.
#[derive(Debug, PartialEq, Eq)]
pub enum SortedReply {
    /// The message answers a pending request: it is owed to `waker`.
    Resolved { waker: u64, reply: ButtplugCurrentSpecServerMessage },
    /// No pending request carries the identifier of the message.
    Unmatched(ButtplugCurrentSpecServerMessage),
}

/// What becomes of a reply that is owed to a slot, or to none.
pub open spec fn sorted(owed: Option<u64>, reply: ButtplugCurrentSpecServerMessage) -> SortedReply {
    match owed {
        Some(waker) => SortedReply::Resolved { waker, reply },
        None => SortedReply::Unmatched(reply),
    }
}

/// Owns the counter of identifiers and the pending table.
pub struct ClientMessageSorter {
    next_id: u32,
    pending: Vec<PendingRequest>,
}

impl ClientMessageSorter {
    /// The pending requests, oldest first.
    pub closed spec fn entries(&self) -> Seq<PendingRequest> {
        self.pending@
    }

    /// The identifier that the next request gets.
    pub closed spec fn next_id(&self) -> u32 {
        self.next_id
    }

    /// The pending table: from identifier to reply slot.
    pub open spec fn pending(&self) -> Map<u32, u64> {
        pending_map(self.entries())
    }

    /// Identifiers are positive, below the counter, and none is pending twice.
    pub open spec fn wf(&self) -> bool {
        &&& self.next_id() >= 1
        &&& distinct_ids(self.entries())
        &&& forall|i: int|
            0 <= i < self.entries().len() ==> 1 <= (#[trigger] self.entries()[i]).id
                < self.next_id()
    }

    /// A sorter for a new connection: nothing pending, identifiers start at 1.
    pub fn new() -> (res: Self)
        ensures
            res.wf(),
            res.next_id() == 1,
            res.entries() == Seq::<PendingRequest>::empty(),
            res.pending() == Map::<u32, u64>::empty(),
    {
        let res = ClientMessageSorter { next_id: 1, pending: Vec::new() };
        assert(res.pending() =~= Map::<u32, u64>::empty());
        res
    }

    /// The number of pending requests.
    pub fn pending_count(&self) -> (res: usize)
        ensures
            res == self.entries().len(),
    {
        self.pending.len()
    }

    /// Gives `msg` the next identifier and records `waker` under it. Returns
    /// the message to send, or `None`, with nothing changed, when every
    /// identifier has been used.
    pub fn register(&mut self, msg: ButtplugCurrentSpecClientMessage, waker: u64) -> (res: Option<
        ButtplugCurrentSpecClientMessage,
    >)
        requires
            old(self).wf(),
        ensures
            final(self).wf(),
            old(self).next_id() == u32::MAX ==> res is None && *final(self) == *old(self),
            old(self).next_id() < u32::MAX ==> {
                &&& res == Some(
                    (ButtplugCurrentSpecClientMessage {
                        id: old(self).next_id(),
                        request: msg.request,
                    }),
                )
                &&& final(self).next_id() == old(self).next_id() + 1
                &&& final(self).entries() == old(self).entries().push(
                    (PendingRequest { id: old(self).next_id(), waker }),
                )
                &&& !old(self).pending().contains_key(old(self).next_id())
                &&& final(self).pending() == old(self).pending().insert(
                    old(self).next_id(),
                    waker,
                )
            },
    {
        if self.next_id == u32::MAX {
            return None;
        }
        let id: u32 = self.next_id;
        let ghost before = self.pending@;
        self.pending.push(PendingRequest { id, waker });
        self.next_id = id + 1;
        proof {
            let after = self.pending@;
            assert(distinct_ids(after));
            assert forall|k: u32| #[trigger] has_id(after, k) <==> (k == id || has_id(before, k)) by {
                if has_id(after, k) {
                    let i = index_of(after, k);
                    if i < before.len() {
                        assert(before[i].id == k);
                    }
                }
                if k == id {
                    assert(after[before.len() as int].id == k);
                }
                if has_id(before, k) {
                    let i = index_of(before, k);
                    assert(after[i].id == k);
                }
            }
            assert forall|k: u32| has_id(after, k) implies #[trigger] pending_map(after)[k]
                == pending_map(before).insert(id, waker)[k] by {
                if k == id {
                    lemma_lookup(after, before.len() as int);
                } else {
                    let i = index_of(before, k);
                    assert(after[i] == before[i]);
                    lemma_lookup(after, i);
                }
            }
            assert(pending_map(after) =~= pending_map(before).insert(id, waker));
        }
        Some(ButtplugCurrentSpecClientMessage { id, request: msg.request })
    }

    /// Looks for the pending request that `reply` answers. Where there is
    /// one, it leaves the table and the reply is owed to its slot; where
    /// there is none, the reply comes back and nothing changes.
    pub fn resolve(&mut self, reply: ButtplugCurrentSpecServerMessage) -> (res: SortedReply)
        requires
            old(self).wf(),
        ensures
            final(self).wf(),
            final(self).next_id() == old(self).next_id(),
            res == sorted(owed_to(old(self).pending(), reply.id), reply),
            final(self).pending() == pending_after_reply(old(self).pending(), reply.id),
            old(self).pending().contains_key(reply.id) ==> final(self).entries() == old(
                self,
            ).entries().remove(index_of(old(self).entries(), reply.id)),
            !old(self).pending().contains_key(reply.id) ==> *final(self) == *old(self),
    {
        let mut i: usize = 0;
        while i < self.pending.len()
            invariant
                i <= self.pending.len(),
                *self == *old(self),
                self.wf(),
                forall|j: int| 0 <= j < i ==> (#[trigger] self.pending@[j]).id != reply.id,
            decreases self.pending.len() - i,
        {
            if self.pending[i].id == reply.id {
                let ghost before = self.pending@;
                let found = self.pending.remove(i);
                proof {
                    let after = self.pending@;
                    let id = reply.id;
                    lemma_lookup(before, i as int);
                    assert(distinct_ids(after));
                    assert forall|k: u32| #[trigger] has_id(after, k) <==> (k != id && has_id(
                        before,
                        k,
                    )) by {
                        if has_id(after, k) {
                            let a = index_of(after, k);
                            let b = if a < i { a } else { a + 1 };
                            assert(before[b].id == k);
                        }
                        if k != id && has_id(before, k) {
                            let b = index_of(before, k);
                            let a = if b < i { b } else { b - 1 };
                            assert(after[a].id == k);
                        }
                    }
                    assert forall|k: u32| has_id(after, k) implies #[trigger] pending_map(after)[k]
                        == pending_map(before)[k] by {
                        let a = index_of(after, k);
                        let b = if a < i { a } else { a + 1 };
                        assert(before[b] == after[a]);
                        lemma_lookup(before, b);
                        lemma_lookup(after, a);
                    }
                    assert(pending_map(after) =~= pending_map(before).remove(id));
                }
                return SortedReply::Resolved { waker: found.waker, reply };
            }
            i = i + 1;
        }
        proof {
            if has_id(self.pending@, reply.id) {
                let j = index_of(self.pending@, reply.id);
                assert(self.pending@[j].id == reply.id);
            }
            assert(self.pending().remove(reply.id) =~= self.pending());
        }
        SortedReply::Unmatched(reply)
    }

    /// Empties the pending table and returns the reply slots that were in
    /// it, oldest request first: each is owed a failure.
    pub fn fail_all(&mut self) -> (res: Vec<u64>)
        requires
            old(self).wf(),
        ensures
            final(self).wf(),
            final(self).next_id() == old(self).next_id(),
            final(self).entries() == Seq::<PendingRequest>::empty(),
            final(self).pending() == Map::<u32, u64>::empty(),
            res@ == wakers_of(old(self).entries()),
    {
        let mut wakers: Vec<u64> = Vec::new();
        let mut i: usize = 0;
        while i < self.pending.len()
            invariant
                i <= self.pending.len(),
                *self == *old(self),
                self.wf(),
                wakers@ == wakers_of(self.pending@.take(i as int)),
            decreases self.pending.len() - i,
        {
            wakers.push(self.pending[i].waker);
            i = i + 1;
            assert(wakers@ =~= wakers_of(self.pending@.take(i as int)));
        }
        assert(self.pending@.take(i as int) =~= self.pending@);
        self.pending = Vec::new();
        assert(self.pending() =~= Map::<u32, u64>::empty());
        wakers
    }
}

/// What each of a run of replies is owed to, when the replies are resolved
/// one after the other, each as `resolve` does it.
pub open spec fn deliveries(pending: Map<u32, u64>, reply_ids: Seq<u32>) -> Seq<Option<u64>>
    decreases reply_ids.len(),
{
    if reply_ids.len() == 0 {
        Seq::empty()
    } else {
        seq![owed_to(pending, reply_ids[0])] + deliveries(
            pending_after_reply(pending, reply_ids[0]),
            reply_ids.drop_first(),
        )
    }
}

/// The pending table after a run of replies has been resolved, each as
/// `resolve` does it.
pub open spec fn pending_after(pending: Map<u32, u64>, reply_ids: Seq<u32>) -> Map<u32, u64>
    decreases reply_ids.len(),
{
    if reply_ids.len() == 0 {
        pending
    } else {
        pending_after(pending_after_reply(pending, reply_ids[0]), reply_ids.drop_first())
    }
}

/// Replies find their requests in whatever order they arrive: when the
/// identifiers of a run of replies are distinct, each reply is owed to the
/// slot that was recorded under its own identifier and to no other, and the
/// requests that are left are those that no reply of the run answered.
pub proof fn law_request_reply_pairing(pending: Map<u32, u64>, reply_ids: Seq<u32>)
    requires
        reply_ids.no_duplicates(),
    ensures
        deliveries(pending, reply_ids).len() == reply_ids.len(),
        forall|i: int|
            0 <= i < reply_ids.len() ==> #[trigger] deliveries(pending, reply_ids)[i] == owed_to(
                pending,
                reply_ids[i],
            ),
        forall|id: u32|
            #[trigger] pending_after(pending, reply_ids).contains_key(id) <==> pending.contains_key(
                id,
            ) && !reply_ids.contains(id),
        forall|id: u32|
            pending_after(pending, reply_ids).contains_key(id) ==> #[trigger] pending_after(
                pending,
                reply_ids,
            )[id] == pending[id],
    decreases reply_ids.len(),
{
    if reply_ids.len() > 0 {
        let first = reply_ids[0];
        let rest = reply_ids.drop_first();
        let smaller = pending.remove(first);
        assert(rest.no_duplicates()) by {
            assert forall|i: int, j: int|
                0 <= i < rest.len() && 0 <= j < rest.len() && i != j implies rest[i] != rest[j] by {
                assert(rest[i] == reply_ids[i + 1]);
                assert(rest[j] == reply_ids[j + 1]);
            }
        }
        law_request_reply_pairing(smaller, rest);
        let all = deliveries(pending, reply_ids);
        assert forall|i: int| 0 <= i < reply_ids.len() implies #[trigger] all[i] == owed_to(
            pending,
            reply_ids[i],
        ) by {
            if i > 0 {
                assert(all[i] == deliveries(smaller, rest)[i - 1]);
                assert(rest[i - 1] == reply_ids[i]);
                assert(reply_ids[i] != reply_ids[0]);
            }
        }
        let left = pending_after(pending, reply_ids);
        assert(left == pending_after(smaller, rest));
        assert forall|id: u32| left.contains_key(id) implies #[trigger] left[id] == pending[id] by {
            assert(pending_after(smaller, rest).contains_key(id));
            assert(pending_after(smaller, rest)[id] == smaller[id]);
        }
        assert forall|id: u32| #[trigger]
            left.contains_key(id) <==> pending.contains_key(id) && !reply_ids.contains(id) by {
            assert(pending_after(smaller, rest).contains_key(id) <==> smaller.contains_key(id)
                && !rest.contains(id));
            if id == first {
                assert(reply_ids[0] == id);
            } else {
                if rest.contains(id) {
                    let k = choose|k: int| 0 <= k < rest.len() && rest[k] == id;
                    assert(reply_ids[k + 1] == id);
                }
                if reply_ids.contains(id) {
                    let k = choose|k: int| 0 <= k < reply_ids.len() && reply_ids[k] == id;
                    assert(rest[k - 1] == id);
                }
            }
        }
    }
}

} // verus!
