//! Fan-out of frames: every published frame goes to each registered
//! subscriber that can take it, and none of them can hold the producer up.

use crate::lidar::Frame;
use vstd::prelude::*;

verus! {

/// What one subscriber is, as plain values.
pub struct Inbox {
    /// The frames delivered and not yet taken, the oldest first.
    pub waiting: Seq<Frame>,
    /// Whether the subscriber still listens.
    pub open: bool,
}

impl Inbox {
    /// Whether the subscriber can take one more frame, given the most that
    /// may wait.
    pub open spec fn takes(self, capacity: int) -> bool {
        self.open && self.waiting.len() < capacity
    }

    /// The inbox after a frame was published: the frame is added where the
    /// subscriber can take it, and dropped where it cannot.
    pub open spec fn offered(self, frame: Frame, capacity: int) -> Inbox {
        if self.takes(capacity) {
            Inbox { waiting: self.waiting.push(frame), ..self }
        } else {
            self
        }
    }
}

/// How many of the inboxes can take one more frame.
pub open spec fn takers(inboxes: Seq<Inbox>, capacity: int) -> int
    decreases inboxes.len(),
{
    if inboxes.len() == 0 {
        0
    } else {
        takers(inboxes.drop_last(), capacity) + if inboxes.last().takes(capacity) {
            1int
        } else {
            0int
        }
    }
}

/// One subscriber's queue.
#[derive(Debug)]
struct Subscriber {
    waiting: Vec<Frame>,
    open: bool,
}

impl View for Subscriber {
    type V = Inbox;

    closed spec fn view(&self) -> Inbox {
        Inbox { waiting: self.waiting@, open: self.open }
    }
}

/// The registry of subscribers.
#[derive(Debug)]
pub struct Fanout {
    subscribers: Vec<Subscriber>,
    capacity: usize,
}

impl View for Fanout {
    type V = Seq<Inbox>;

    closed spec fn view(&self) -> Seq<Inbox> {
        Seq::new(self.subscribers@.len(), |i: int| self.subscribers@[i]@)
    }
}

impl Fanout {
    /// The most frames that may wait for one subscriber.
    pub closed spec fn limit(&self) -> int {
        self.capacity as int
    }

    /// A registry without subscribers, in which at most `capacity` frames
    /// wait for each.
    pub fn new(capacity: usize) -> (fanout: Fanout)
        ensures
            fanout@ =~= Seq::<Inbox>::empty(),
            fanout.limit() == capacity,
    {
        Fanout { subscribers: Vec::new(), capacity }
    }

    /// The number of subscribers ever registered.
    pub fn len(&self) -> (count: usize)
        ensures
            count == self@.len(),
    {
        self.subscribers.len()
    }

    /// Registers a subscriber with nothing waiting, and returns the number
    /// it is known by.
    pub fn subscribe(&mut self) -> (id: usize)
        ensures
            id == old(self)@.len(),
            final(self)@ =~= old(self)@.push(Inbox { waiting: Seq::empty(), open: true }),
            final(self).limit() == old(self).limit(),
    {
        let id = self.subscribers.len();
        self.subscribers.push(Subscriber { waiting: Vec::new(), open: true });
        id
    }

    /// Ends a subscription: nothing more is delivered to it. What waits can
    /// still be taken. An unknown number changes nothing.
    pub fn unsubscribe(&mut self, id: usize)
        ensures
            final(self).limit() == old(self).limit(),
            final(self)@ =~= if id < old(self)@.len() {
                old(self)@.update(id as int, Inbox { open: false, ..old(self)@[id as int] })
            } else {
                old(self)@
            },
    {
        if id < self.subscribers.len() {
            self.subscribers[id].open = false;
        }
    }

    /// Publishes a frame: each subscriber that listens and has room gets a
    /// copy at the end of its queue; for every other the frame is dropped.
    /// Returns the number of copies delivered.
    pub fn publish(&mut self, frame: Frame) -> (delivered: usize)
        ensures
            final(self).limit() == old(self).limit(),
            final(self)@.len() == old(self)@.len(),
            forall|i: int|
                0 <= i < old(self)@.len() ==> #[trigger] final(self)@[i] == old(self)@[i].offered(
                    frame,
                    old(self).limit(),
                ),
            delivered == takers(old(self)@, old(self).limit()),
    {
        let mut delivered: usize = 0;
        let mut i: usize = 0;
        while i < self.subscribers.len()
            invariant
                i <= self.subscribers.len(),
                self.capacity == old(self).capacity,
                self@.len() == old(self)@.len(),
                delivered == takers(old(self)@.take(i as int), self.capacity as int),
                delivered <= i,
                forall|k: int|
                    0 <= k < i ==> #[trigger] self@[k] == old(self)@[k].offered(
                        frame,
                        self.capacity as int,
                    ),
                forall|k: int| i <= k < self@.len() ==> #[trigger] self@[k] == old(self)@[k],
            decreases self.subscribers.len() - i,
        {
            proof {
                let seen = old(self)@.take(i + 1);
                assert(seen.drop_last() =~= old(self)@.take(i as int));
                assert(seen.last() == old(self)@[i as int]);
                assert(self@[i as int] == old(self)@[i as int]);
            }
            let ghost before = self@;
            let ghost held = self.subscribers@;
            if self.subscribers[i].open && self.subscribers[i].waiting.len() < self.capacity {
                self.subscribers[i].waiting.push(frame);
                delivered = delivered + 1;
            }
            proof {
                assert(self.subscribers@.len() == held.len());
                assert forall|k: int| 0 <= k < self@.len() && k != i implies #[trigger] self@[k]
                    == before[k] by {
                    assert(self.subscribers@[k] == held[k]);
                }
                assert(self@[i as int] == before[i as int].offered(frame, self.capacity as int));
            }
            i = i + 1;
        }
        proof {
            assert(old(self)@.take(i as int) =~= old(self)@);
        }
        delivered
    }

    /// Takes the oldest frame that waits for a subscriber, if there is one.
    pub fn receive(&mut self, id: usize) -> (frame: Option<Frame>)
        ensures
            final(self).limit() == old(self).limit(),
            match frame {
                Some(oldest) => id < old(self)@.len() && old(self)@[id as int].waiting.len() > 0
                    && oldest == old(self)@[id as int].waiting[0] && final(self)@
                    =~= old(self)@.update(
                    id as int,
                    Inbox {
                        waiting: old(self)@[id as int].waiting.drop_first(),
                        ..old(self)@[id as int]
                    },
                ),
                None => (id >= old(self)@.len() || old(self)@[id as int].waiting.len() == 0)
                    && final(self)@ =~= old(self)@,
            },
    {
        if id < self.subscribers.len() && self.subscribers[id].waiting.len() > 0 {
            let oldest = self.subscribers[id].waiting.remove(0);
            Some(oldest)
        } else {
            None
        }
    }
}

} // verus!
