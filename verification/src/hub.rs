//! The broadcast hub: bounded, drop-oldest fan-out feeds with many
//! independent subscribers.
//!
//! A feed keeps the log of everything published on it, in publish order. A
//! subscriber observes only messages published after it subscribed, in that
//! order; one that falls more than the feed's capacity behind loses its
//! oldest unread messages rather than blocking the publisher (documented
//! lossy policy, reported to the subscriber as a lag count).

use vstd::prelude::*;

use crate::types::ChatMessage;

verus! {

/// One fan-out bus. `capacity` is the per-subscriber backlog bound chosen
/// at construction.
pub struct Feed {
    history: Vec<ChatMessage>,
    capacity: usize,
}

/// A receive-only handle onto a feed: a position in the feed's log. It
/// observes exactly the messages published after the subscribe call.
pub struct Subscriber {
    cursor: usize,
}

/// What one receive step yields.
#[derive(Debug)]
pub enum RecvOutcome {
    /// The next unread message, in publish order.
    Message(ChatMessage),
    /// The subscriber fell behind the backlog bound; this many oldest
    /// unread messages were dropped for it, and receiving can continue.
    Lagged(usize),
    /// Nothing unread; a live subscriber would now wait.
    Pending,
}

impl Feed {
    /// Everything ever published on this feed, in publish order.
    pub closed spec fn history(&self) -> Seq<ChatMessage> {
        self.history@
    }

    /// The per-subscriber backlog bound, fixed at construction.
    pub closed spec fn cap(&self) -> int {
        self.capacity as int
    }

    /// A fresh feed with the given backlog bound.
    pub fn new(capacity: usize) -> (r: Feed)
        requires
            capacity >= 1,
        ensures
            r.history() == Seq::<ChatMessage>::empty(),
            r.cap() == capacity,
    {
        Feed { history: Vec::new(), capacity }
    }

    /// The backlog bound this feed was built with, for observability.
    pub fn capacity(&self) -> (c: usize)
        ensures
            c == self.cap(),
    {
        self.capacity
    }

    /// Delivers a message to all current subscribers by appending it to the
    /// log; a slow subscriber loses old messages, the publisher never waits.
    pub fn publish(&mut self, m: ChatMessage)
        ensures
            final(self).history() == old(self).history().push(m),
            final(self).cap() == old(self).cap(),
    {
        self.history.push(m);
    }

    /// A new handle that will see exactly the messages published from now
    /// on — no historical replay.
    pub fn subscribe(&self) -> (s: Subscriber)
        ensures
            s.cursor() == self.history().len(),
    {
        Subscriber { cursor: self.history.len() }
    }

    /// One receive step for a subscriber of this feed: the next unread
    /// message in publish order; or the lag count, skipping the subscriber
    /// forward to the oldest message still within the backlog bound; or
    /// nothing, when the subscriber has seen the whole log.
    pub fn recv(&self, sub: &mut Subscriber) -> (r: RecvOutcome)
        requires
            old(sub).valid_for(self),
        ensures
            final(sub).valid_for(self),
            old(sub).cursor() <= final(sub).cursor(),
            old(sub).cursor() == self.history().len() ==> (r matches RecvOutcome::Pending)
                && *final(sub) == *old(sub),
            old(sub).cursor() < self.history().len() && self.history().len() - old(sub).cursor()
                > self.cap() ==> (r matches RecvOutcome::Lagged(n) ==> n == self.history().len()
                - self.cap() - old(sub).cursor()) && (r matches RecvOutcome::Lagged(_))
                && final(sub).cursor() == self.history().len() - self.cap(),
            old(sub).cursor() < self.history().len() && self.history().len() - old(sub).cursor()
                <= self.cap() ==> (r matches RecvOutcome::Message(m) ==> m == self.history()[old(
                sub,
            ).cursor() as int]) && (r matches RecvOutcome::Message(_)) && final(sub).cursor()
                == old(sub).cursor() + 1,
    {
        if sub.cursor == self.history.len() {
            RecvOutcome::Pending
        } else if self.history.len() - sub.cursor > self.capacity {
            let missed = self.history.len() - self.capacity - sub.cursor;
            sub.cursor = self.history.len() - self.capacity;
            RecvOutcome::Lagged(missed)
        } else {
            let m = self.history[sub.cursor].clone();
            sub.cursor = sub.cursor + 1;
            RecvOutcome::Message(m)
        }
    }
}

impl Subscriber {
    /// The subscriber's position in the feed's log: how much of it this
    /// subscriber has already consumed or lost.
    pub closed spec fn cursor(&self) -> int {
        self.cursor as int
    }

    /// A subscriber handle makes sense for a feed whose log it does not
    /// outrun; every operation here preserves this.
    pub open spec fn valid_for(&self, f: &Feed) -> bool {
        self.cursor() <= f.history().len()
    }
}

/// Everything on a feed log carries `published = true`: the shape of the
/// public, moderated bus.
pub open spec fn all_published(hist: Seq<ChatMessage>) -> bool {
    forall|i: int| 0 <= i < hist.len() ==> (#[trigger] hist[i]).published
}

/// The client feed: the same fan-out discipline, but a message can only be
/// put on it once its `published` flag is set, so no pending message ever
/// reaches the public audience.
pub struct ClientFeed {
    feed: Feed,
}

impl ClientFeed {
    /// Everything ever published on the client feed, in publish order.
    pub closed spec fn history(&self) -> Seq<ChatMessage> {
        self.feed.history()
    }

    /// The per-subscriber backlog bound.
    pub closed spec fn cap(&self) -> int {
        self.feed.cap()
    }

    /// Client-feed invariant: only published messages ever appear on it.
    pub open spec fn wf(&self) -> bool {
        all_published(self.history())
    }

    /// A fresh client feed with the given backlog bound.
    pub fn new(capacity: usize) -> (r: ClientFeed)
        requires
            capacity >= 1,
        ensures
            r.wf(),
            r.history() == Seq::<ChatMessage>::empty(),
            r.cap() == capacity,
    {
        ClientFeed { feed: Feed::new(capacity) }
    }

    /// The backlog bound this feed was built with, for observability.
    pub fn capacity(&self) -> (c: usize)
        ensures
            c == self.cap(),
    {
        self.feed.capacity()
    }

    /// Delivers a message to the public audience. Only a message already
    /// marked published may pass this gate.
    pub fn publish(&mut self, m: ChatMessage)
        requires
            old(self).wf(),
            m.published,
        ensures
            final(self).wf(),
            final(self).history() == old(self).history().push(m),
            final(self).cap() == old(self).cap(),
    {
        self.feed.publish(m);
    }

    /// A new public subscriber, seeing only what is published from now on.
    pub fn subscribe(&self) -> (s: Subscriber)
        ensures
            s.cursor() == self.history().len(),
    {
        self.feed.subscribe()
    }

    /// One receive step on the client feed. Whatever arrives here is a
    /// message whose `published` flag was true when it was delivered.
    pub fn recv(&self, sub: &mut Subscriber) -> (r: RecvOutcome)
        requires
            old(sub).cursor() <= self.history().len(),
            self.wf(),
        ensures
            final(sub).cursor() <= self.history().len(),
            old(sub).cursor() <= final(sub).cursor(),
            r matches RecvOutcome::Message(m) ==> m.published,
            old(sub).cursor() == self.history().len() ==> (r matches RecvOutcome::Pending)
                && *final(sub) == *old(sub),
            old(sub).cursor() < self.history().len() && self.history().len() - old(sub).cursor()
                > self.cap() ==> (r matches RecvOutcome::Lagged(n) ==> n == self.history().len()
                - self.cap() - old(sub).cursor()) && (r matches RecvOutcome::Lagged(_))
                && final(sub).cursor() == self.history().len() - self.cap(),
            old(sub).cursor() < self.history().len() && self.history().len() - old(sub).cursor()
                <= self.cap() ==> (r matches RecvOutcome::Message(m) ==> m == self.history()[old(
                sub,
            ).cursor() as int]) && (r matches RecvOutcome::Message(_)) && final(sub).cursor()
                == old(sub).cursor() + 1,
    {
        self.feed.recv(sub)
    }
}

} // verus!
