//! Event fan-out from the scan loop to its subscribers.
//!
//! One producer publishes [`ScanEvent`]s; any number of subscribers each
//! read every event published after they subscribed, in publish order. The
//! broadcaster keeps only the newest `capacity` events: a subscriber that
//! falls further behind loses its oldest unread events in favor of the
//! newest, and publishing never waits for any reader.
use crate::{EventV, ScanEvent};
use vstd::prelude::*;

verus! {

/// The position of the oldest event still retained once `len` events have
/// been published under backlog capacity `cap`.
pub open spec fn oldest_retained(len: nat, cap: nat) -> nat {
    if len > cap {
        (len - cap) as nat
    } else {
        0
    }
}

/// The position a receive at cursor `pos` delivers, when `pos < len`: the
/// cursor itself, or the oldest retained position if the cursor has been
/// overrun.
pub open spec fn recv_index(len: nat, cap: nat, pos: nat) -> nat {
    if pos < oldest_retained(len, cap) {
        oldest_retained(len, cap)
    } else {
        pos
    }
}

/// The cursor after one receive: just past the delivered position, or
/// unchanged when nothing is pending.
pub open spec fn recv_next(len: nat, cap: nat, pos: nat) -> nat {
    if pos < len {
        recv_index(len, cap, pos) + 1
    } else {
        pos
    }
}

/// The fan-out channel: the newest published events, the count of all
/// events ever published, and the backlog capacity. The full publish
/// history exists only as a ghost record, so that contracts can speak of
/// events that were dropped.
pub struct Broadcaster {
    buf: Vec<ScanEvent>,
    total: usize,
    cap: usize,
    hist: Ghost<Seq<EventV>>,
}

/// One subscriber's handle: a cursor into the broadcaster's publish
/// history. Subscribers hold no other shared state, so no subscriber can
/// observe or disturb another's backlog.
pub struct Subscription {
    next: usize,
}

impl Subscription {
    /// The cursor: the position in the publish history this subscriber
    /// reads next.
    pub closed spec fn pos(&self) -> nat {
        self.next as nat
    }
}

impl Broadcaster {
    /// Every event ever published, oldest first.
    pub closed spec fn history(&self) -> Seq<EventV> {
        self.hist@
    }

    /// The backlog capacity the broadcaster was created with.
    pub closed spec fn capacity(&self) -> nat {
        self.cap as nat
    }

    /// The broadcaster retains exactly the newest `capacity` published
    /// events (all of them while fewer were published).
    pub closed spec fn wf(&self) -> bool {
        &&& self.cap >= 1
        &&& self.total == self.hist@.len()
        &&& self.buf@.len() == if self.total <= self.cap {
            self.total as int
        } else {
            self.cap as int
        }
        &&& forall|i: int|
            0 <= i < self.buf@.len() ==> self.buf@[i]@ == self.hist@[self.hist@.len()
                - self.buf@.len() + i]
    }

    /// A fresh broadcaster with the given backlog capacity and no events.
    pub fn new(capacity: usize) -> (r: Self)
        requires
            capacity >= 1,
        ensures
            r.wf(),
            r.history() == Seq::<EventV>::empty(),
            r.capacity() == capacity,
    {
        Broadcaster { buf: Vec::new(), total: 0, cap: capacity, hist: Ghost(Seq::empty()) }
    }

    /// Publish one event: it is appended to the history every subscriber
    /// reads from. When the backlog is full the oldest retained event is
    /// discarded for it. Publishing never waits for a reader; with no
    /// subscribers the event is simply never read.
    pub fn publish(&mut self, event: ScanEvent)
        requires
            old(self).wf(),
            old(self).history().len() < usize::MAX,
        ensures
            final(self).wf(),
            final(self).history() == old(self).history().push(event@),
            final(self).capacity() == old(self).capacity(),
    {
        if self.buf.len() == self.cap {
            self.buf.remove(0);
        }
        self.buf.push(event);
        self.total = self.total + 1;
        proof {
            self.hist@ = self.hist@.push(event@);
        }
    }

    /// A fresh subscription: it observes every event published from this
    /// point on, and never replays what was published before.
    pub fn subscribe(&self) -> (r: Subscription)
        requires
            self.wf(),
        ensures
            r.pos() == self.history().len(),
    {
        Subscription { next: self.total }
    }

    /// Read this subscriber's next pending event, if any: the event at its
    /// cursor, or — when the cursor was overrun by the drop-oldest policy —
    /// the oldest event still retained. The cursor moves just past the
    /// delivered position and never backward.
    pub fn recv(&self, sub: &mut Subscription) -> (r: Option<ScanEvent>)
        requires
            self.wf(),
            old(sub).pos() <= self.history().len(),
        ensures
            final(sub).pos() == recv_next(self.history().len(), self.capacity(), old(sub).pos()),
            final(sub).pos() <= self.history().len(),
            match r {
                Some(event) => old(sub).pos() < self.history().len() && event@ == self.history()[
                    recv_index(self.history().len(), self.capacity(), old(sub).pos()) as int
                ],
                None => old(sub).pos() == self.history().len(),
            },
    {
        if sub.next >= self.total {
            return None;
        }
        let dropped = self.total - self.buf.len();
        let start = if sub.next < dropped {
            dropped
        } else {
            sub.next
        };
        let idx = start - dropped;
        let event = self.buf[idx].clone();
        sub.next = start + 1;
        Some(event)
    }
}

/// Broadcast fan-out: a receive at the position of a retained event — in
/// particular, at a just-published one — delivers exactly that event and
/// moves the cursor just past it. Any number of subscribers standing at
/// that position each receive the event exactly once, in publish order,
/// independently of one another.
pub proof fn lemma_fanout(len: nat, cap: nat, pos: nat)
    requires
        oldest_retained(len, cap) <= pos < len,
    ensures
        recv_index(len, cap, pos) == pos,
        recv_next(len, cap, pos) == pos + 1,
{
}

/// Late subscriber isolation: a subscription starts at the end of the
/// publish history, so every earlier event lies strictly below its cursor;
/// one receive only ever delivers the position at or above the cursor and
/// never moves the cursor down, so an event published before subscription
/// is never delivered, however the history grows afterwards.
pub proof fn lemma_late_subscriber_isolation(len: nat, cap: nat, pos: nat, before: nat)
    requires
        before < pos <= len,
    ensures
        pos < len ==> recv_index(len, cap, pos) > before,
        recv_next(len, cap, pos) >= pos,
        recv_next(len, cap, pos) > before,
{
}

/// Backpressure drop policy: when a subscriber's cursor has been overrun —
/// its backlog was saturated and further events were published — a receive
/// skips the dropped positions and delivers the oldest event still
/// retained, one of the newest `cap`; the publisher was never blocked and
/// nothing deadlocks, since publishing carries no obligation toward
/// readers.
pub proof fn lemma_drop_oldest(len: nat, cap: nat, pos: nat)
    requires
        pos < oldest_retained(len, cap),
    ensures
        recv_index(len, cap, pos) == oldest_retained(len, cap),
        recv_index(len, cap, pos) == len - cap,
        recv_next(len, cap, pos) == oldest_retained(len, cap) + 1,
{
}

} // verus!

