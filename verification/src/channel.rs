//! The two crossing points between the network domain and the tick
//! domain: a bounded command queue (many producers, one consumer) and a
//! broadcast response bus (one producer, many subscribers).

use vstd::prelude::*;
use crate::server::WsCommand;
use crate::server::WsResponse;
use crate::server::RespM;
use crate::server::resp_m;

verus! {

/// Capacity the application gives both crossing points.
pub const CHANNEL_CAPACITY: usize = 100;

/// A bounded FIFO of decoded commands.  Sending never blocks: a command
/// offered to a full queue is dropped on the floor, and the sender is
/// only told so it can log a diagnostic — the client sees no error.
pub struct CommandChannel {
    pub queue: Vec<WsCommand>,
    pub capacity: usize,
}

impl CommandChannel {
    /// The queue never holds more than its capacity.
    pub open spec fn wf(&self) -> bool {
        self.queue@.len() <= self.capacity
    }

    /// An empty queue of the given capacity.
    pub fn new(capacity: usize) -> (r: Self)
        ensures
            r.wf(),
            r.queue@.len() == 0,
            r.capacity == capacity,
    {
        CommandChannel { queue: Vec::new(), capacity }
    }

    /// How many commands are waiting.
    pub fn len(&self) -> (n: usize)
        ensures
            n == self.queue@.len(),
    {
        self.queue.len()
    }

    /// Appends the command when there is room; a full queue drops it
    /// without blocking and without raising an error, reporting the drop
    /// only as a `false` for the sender's own diagnostics.
    pub fn send(&mut self, cmd: WsCommand) -> (accepted: bool)
        requires
            old(self).wf(),
        ensures
            final(self).wf(),
            final(self).capacity == old(self).capacity,
            accepted == (old(self).queue@.len() < old(self).capacity),
            accepted ==> final(self).queue@ == old(self).queue@.push(cmd),
            !accepted ==> final(self).queue@ == old(self).queue@,
    {
        if self.queue.len() < self.capacity {
            self.queue.push(cmd);
            true
        } else {
            false
        }
    }

    /// Hands out every queued command in arrival order and leaves the
    /// queue empty; the tick owner calls this once per tick.
    pub fn drain_all(&mut self) -> (cmds: Vec<WsCommand>)
        ensures
            final(self).wf(),
            final(self).capacity == old(self).capacity,
            final(self).queue@.len() == 0,
            cmds@ == old(self).queue@,
    {
        let mut cmds: Vec<WsCommand> = Vec::new();
        core::mem::swap(&mut cmds, &mut self.queue);
        cmds
    }
}

/// One subscription: the responses published since the subscriber last
/// drained, oldest first, and a count of responses it lost to lag.
pub struct Subscriber {
    pub id: u64,
    pub pending: Vec<WsResponse>,
    pub lagged: u64,
}

/// The contents of a subscriber's outbox, by observable content.
pub open spec fn pending_m(s: Subscriber) -> Seq<RespM> {
    s.pending@.map_values(|r: WsResponse| resp_m(r))
}

/// Broadcast fan-out with an explicit slow-subscriber policy: every
/// subscriber has a bounded outbox; publishing appends to each outbox,
/// and an outbox already at capacity loses its oldest entry and counts
/// the loss, so the publisher never blocks and never fails.
pub struct ResponseBus {
    pub subs: Vec<Subscriber>,
    pub next_id: u64,
    pub capacity: usize,
}

/// The position of the subscription with this id, if it is live.
pub open spec fn spec_sub_from(s: Seq<Subscriber>, id: u64, k: int) -> Option<int>
    decreases s.len() - k,
{
    if k < 0 || k >= s.len() {
        None
    } else if s[k].id == id {
        Some(k)
    } else {
        spec_sub_from(s, id, k + 1)
    }
}

impl ResponseBus {
    /// Outboxes stay within capacity, ids are pairwise distinct, and
    /// every issued id is below the next one.
    pub open spec fn wf(&self) -> bool {
        &&& 1 <= self.capacity
        &&& (forall|i: int|
            0 <= i < self.subs@.len() ==> (#[trigger] self.subs@[i]).pending@.len()
                <= self.capacity)
        &&& (forall|i: int, j: int|
            0 <= i < j < self.subs@.len() ==> self.subs@[i].id != self.subs@[j].id)
        &&& (forall|i: int|
            0 <= i < self.subs@.len() ==> (#[trigger] self.subs@[i]).id < self.next_id)
    }

    /// The position of the subscription with this id.
    pub open spec fn spec_sub(&self, id: u64) -> Option<int> {
        spec_sub_from(self.subs@, id, 0)
    }

    /// A bus with no subscribers.
    pub fn new(capacity: usize) -> (r: Self)
        requires
            capacity >= 1,
        ensures
            r.wf(),
            r.subs@.len() == 0,
            r.next_id == 0,
            r.capacity == capacity,
    {
        ResponseBus { subs: Vec::new(), next_id: 0, capacity }
    }

    /// Opens a new subscription and returns its id.  The new outbox
    /// starts empty: responses published earlier are never seen.
    pub fn subscribe(&mut self) -> (id: u64)
        requires
            old(self).wf(),
            old(self).next_id < u64::MAX,
        ensures
            final(self).wf(),
            id == old(self).next_id,
            final(self).next_id == old(self).next_id + 1,
            final(self).capacity == old(self).capacity,
            final(self).subs@.len() == old(self).subs@.len() + 1,
            forall|k: int|
                0 <= k < old(self).subs@.len() ==> final(self).subs@[k] == old(self).subs@[k],
            final(self).subs@.last().id == id,
            final(self).subs@.last().pending@.len() == 0,
            final(self).subs@.last().lagged == 0,
    {
        let id = self.next_id;
        self.subs.push(Subscriber { id, pending: Vec::new(), lagged: 0 });
        self.next_id = self.next_id + 1;
        id
    }

    /// Closes a subscription; an unknown id is ignored.
    pub fn unsubscribe(&mut self, id: u64)
        requires
            old(self).wf(),
        ensures
            final(self).wf(),
            final(self).capacity == old(self).capacity,
            final(self).next_id == old(self).next_id,
            match old(self).spec_sub(id) {
                Some(k) => final(self).subs@ == old(self).subs@.remove(k),
                None => final(self).subs@ == old(self).subs@,
            },
    {
        let n = self.subs.len();
        let mut i: usize = 0;
        while i < n
            invariant
                i <= n,
                n == self.subs@.len(),
                *self == *old(self),
                old(self).wf(),
                self.spec_sub(id) == spec_sub_from(self.subs@, id, i as int),
            decreases n - i,
        {
            if self.subs[i].id == id {
                proof {
                    assert(spec_sub_from(self.subs@, id, i as int) == Some(i as int));
                }
                let ghost before = self.subs@;
                self.subs.remove(i);
                proof {
                    assert forall|a: int, b: int|
                        0 <= a < b < self.subs@.len() implies self.subs@[a].id != self.subs@[
                        b
                    ].id by {
                        assert(self.subs@[a] == (if a < i as int {
                            before[a]
                        } else {
                            before[a + 1]
                        }));
                        assert(self.subs@[b] == (if b < i as int {
                            before[b]
                        } else {
                            before[b + 1]
                        }));
                    }
                    assert forall|a: int| 0 <= a < self.subs@.len() implies (
                    #[trigger] self.subs@[a]).pending@.len() <= self.capacity && self.subs@[a].id
                        < self.next_id by {
                        assert(self.subs@[a] == (if a < i as int {
                            before[a]
                        } else {
                            before[a + 1]
                        }));
                    }
                }
                return ;
            }
            i = i + 1;
        }
    }

    /// Publishes one response: every live outbox receives its content,
    /// appended in publish order; an outbox already at capacity drops
    /// its oldest entry and counts the loss.  The publisher never
    /// blocks, whatever the subscribers are doing.
    pub fn publish(&mut self, resp: &WsResponse)
        requires
            old(self).wf(),
        ensures
            final(self).wf(),
            final(self).capacity == old(self).capacity,
            final(self).next_id == old(self).next_id,
            final(self).subs@.len() == old(self).subs@.len(),
            forall|k: int|
                0 <= k < old(self).subs@.len() ==> (#[trigger] final(self).subs@[k]).id == old(
                    self,
                ).subs@[k].id,
            forall|k: int|
                0 <= k < old(self).subs@.len() && old(self).subs@[k].pending@.len() < old(
                    self,
                ).capacity ==> pending_m(#[trigger] final(self).subs@[k]) == pending_m(
                    old(self).subs@[k],
                ).push(resp_m(*resp)) && final(self).subs@[k].lagged == old(self).subs@[k].lagged,
            forall|k: int|
                0 <= k < old(self).subs@.len() && old(self).subs@[k].pending@.len() >= old(
                    self,
                ).capacity ==> pending_m(#[trigger] final(self).subs@[k]) == pending_m(
                    old(self).subs@[k],
                ).drop_first().push(resp_m(*resp)) && final(self).subs@[k].lagged == (if old(
                    self,
                ).subs@[k].lagged < u64::MAX {
                    old(self).subs@[k].lagged + 1
                } else {
                    old(self).subs@[k].lagged as int
                }),
    {
        let cap = self.capacity;
        let n = self.subs.len();
        let mut k: usize = 0;
        while k < n
            invariant
                k <= n,
                n == self.subs@.len(),
                self.capacity == cap,
                old(self).wf(),
                n == old(self).subs@.len(),
                self.next_id == old(self).next_id,
                cap == old(self).capacity,
                forall|j: int| k <= j < n ==> self.subs@[j] == old(self).subs@[j],
                forall|j: int|
                    0 <= j < k ==> (#[trigger] self.subs@[j]).id == old(self).subs@[j].id,
                forall|j: int|
                    0 <= j < k ==> (#[trigger] self.subs@[j]).pending@.len() <= cap,
                forall|j: int|
                    0 <= j < k && old(self).subs@[j].pending@.len() < cap ==> pending_m(
                        #[trigger] self.subs@[j],
                    ) == pending_m(old(self).subs@[j]).push(resp_m(*resp)) && self.subs@[j].lagged
                        == old(self).subs@[j].lagged,
                forall|j: int|
                    0 <= j < k && old(self).subs@[j].pending@.len() >= cap ==> pending_m(
                        #[trigger] self.subs@[j],
                    ) == pending_m(old(self).subs@[j]).drop_first().push(resp_m(*resp))
                        && self.subs@[j].lagged == (if old(self).subs@[j].lagged < u64::MAX {
                        old(self).subs@[j].lagged + 1
                    } else {
                        old(self).subs@[j].lagged as int
                    }),
            decreases n - k,
        {
            let ghost pre = self.subs@[k as int];
            let copy = resp.clone();
            let sub = &mut self.subs[k];
            if sub.pending.len() < cap {
                sub.pending.push(copy);
                proof {
                    assert(pending_m(*sub) =~= pending_m(pre).push(resp_m(*resp)));
                }
            } else {
                sub.pending.remove(0);
                sub.pending.push(copy);
                if sub.lagged < u64::MAX {
                    sub.lagged = sub.lagged + 1;
                }
                proof {
                    assert(pending_m(*sub) =~= pending_m(pre).drop_first().push(resp_m(*resp)));
                }
            }
            k = k + 1;
        }
    }

    /// Hands the subscriber with this id everything published to it
    /// since it last drained, in publish order, together with the count
    /// of responses it lost to lag; both are then reset.  An unknown id
    /// receives nothing.
    pub fn drain(&mut self, id: u64) -> (r: (Vec<WsResponse>, u64))
        requires
            old(self).wf(),
        ensures
            final(self).wf(),
            final(self).capacity == old(self).capacity,
            final(self).next_id == old(self).next_id,
            final(self).subs@.len() == old(self).subs@.len(),
            match old(self).spec_sub(id) {
                Some(k) => {
                    &&& r.0@.map_values(|x: WsResponse| resp_m(x)) == pending_m(
                        old(self).subs@[k],
                    )
                    &&& r.1 == old(self).subs@[k].lagged
                    &&& final(self).subs@[k].id == id
                    &&& final(self).subs@[k].pending@.len() == 0
                    &&& final(self).subs@[k].lagged == 0
                    &&& (forall|j: int|
                        0 <= j < old(self).subs@.len() && j != k ==> final(self).subs@[j] == old(
                            self,
                        ).subs@[j])
                },
                None => final(self).subs@ == old(self).subs@ && r.0@.len() == 0 && r.1 == 0,
            },
    {
        let n = self.subs.len();
        let mut i: usize = 0;
        while i < n
            invariant
                i <= n,
                n == self.subs@.len(),
                *self == *old(self),
                old(self).wf(),
                self.spec_sub(id) == spec_sub_from(self.subs@, id, i as int),
            decreases n - i,
        {
            if self.subs[i].id == id {
                proof {
                    assert(spec_sub_from(self.subs@, id, i as int) == Some(i as int));
                }
                let ghost before = self.subs@;
                let sub = &mut self.subs[i];
                let mut out: Vec<WsResponse> = Vec::new();
                core::mem::swap(&mut out, &mut sub.pending);
                let lag = sub.lagged;
                sub.lagged = 0;
                proof {
                    assert forall|j: int|
                        0 <= j < self.subs@.len() && j != i as int implies self.subs@[j]
                        == before[j] by {}
                    assert(self.subs@[i as int].pending@.len() == 0);
                }
                return (out, lag);
            }
            i = i + 1;
        }
        (Vec::new(), 0)
    }
}

} // verus!
