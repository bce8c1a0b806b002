//! The two channels the coordination layer is built around.
//!
//! Producers hand requests to the dispatcher over a bounded FIFO queue: the
//! bound is the system's backpressure knob, and a producer that finds the
//! queue full is refused rather than letting the queue grow without limit.
//! Responses fan out through a broadcaster that delivers a copy of every
//! response to every subscriber; a subscriber that has fallen behind its
//! buffer's bound loses the oldest undelivered response rather than ever
//! blocking the dispatcher.

use vstd::prelude::*;
use crate::messages::{DhtResponse, DhtResponseView};

verus! {

/// A bounded first-in-first-out queue. Requests are dequeued in exactly the
/// order they were enqueued.
pub struct BoundedQueue<T> {
    items: Vec<T>,
    capacity: usize,
}

impl<T> BoundedQueue<T> {
    /// The queued items, oldest first.
    pub closed spec fn contents(&self) -> Seq<T> {
        self.items@
    }

    /// The bound the queue was created with.
    pub closed spec fn cap(&self) -> nat {
        self.capacity as nat
    }

    /// Creates an empty queue holding at most `capacity` items.
    pub fn new(capacity: usize) -> (q: BoundedQueue<T>)
        requires
            capacity >= 1,
        ensures
            q.contents() == Seq::<T>::empty(),
            q.cap() == capacity,
    {
        BoundedQueue { items: Vec::new(), capacity }
    }

    /// Enqueues `x` at the back, unless the queue is full, in which case the
    /// queue is left unchanged and `x` is handed back to the producer.
    pub fn try_enqueue(&mut self, x: T) -> (r: Result<(), T>)
        ensures
            final(self).cap() == old(self).cap(),
            old(self).contents().len() < old(self).cap() ==> r is Ok && final(self).contents()
                == old(self).contents().push(x),
            old(self).contents().len() >= old(self).cap() ==> (r matches Err(y) && y == x)
                && final(self).contents() == old(self).contents(),
    {
        if self.items.len() < self.capacity {
            self.items.push(x);
            Ok(())
        } else {
            Err(x)
        }
    }

    /// Dequeues the oldest item, or `None` if the queue is empty.
    pub fn dequeue(&mut self) -> (r: Option<T>)
        ensures
            final(self).cap() == old(self).cap(),
            old(self).contents().len() == 0 ==> r is None && final(self).contents() == old(
                self,
            ).contents(),
            old(self).contents().len() > 0 ==> (r matches Some(x) && x == old(
                self,
            ).contents()[0]) && final(self).contents() == old(self).contents().drop_first(),
    {
        if self.items.len() == 0 {
            None
        } else {
            let x = self.items.remove(0);
            proof {
                assert(self.items@ =~= old(self).contents().drop_first());
            }
            Some(x)
        }
    }
}

/// What one subscriber's buffer holds after a response is published to it:
/// the response goes to the back, and if the buffer already stood at the
/// bound, the oldest undelivered response is dropped to make room.
pub open spec fn push_bounded(
    buf: Seq<DhtResponseView>,
    resp: DhtResponseView,
    cap: nat,
) -> Seq<DhtResponseView> {
    if buf.len() < cap {
        buf.push(resp)
    } else {
        buf.drop_first().push(resp)
    }
}

/// Fans every published response out to every subscriber, each of which
/// reads from its own bounded buffer of undelivered responses.
pub struct Broadcaster {
    subscribers: Vec<Vec<DhtResponse>>,
    capacity: usize,
}

impl Broadcaster {
    /// The subscribers' buffers of undelivered responses, oldest first.
    pub closed spec fn buffers(&self) -> Seq<Seq<DhtResponseView>> {
        self.subscribers.deep_view()
    }

    /// The bound on each subscriber's buffer.
    pub closed spec fn cap(&self) -> nat {
        self.capacity as nat
    }

    /// A broadcaster is well formed when its buffer bound is positive; every
    /// constructor establishes this and every method keeps it.
    pub closed spec fn wf(&self) -> bool {
        self.capacity >= 1
    }

    /// Creates a broadcaster with no subscribers whose buffers will hold at
    /// most `capacity` undelivered responses each.
    pub fn new(capacity: usize) -> (b: Broadcaster)
        requires
            capacity >= 1,
        ensures
            b.wf(),
            b.buffers() == Seq::<Seq<DhtResponseView>>::empty(),
            b.cap() == capacity,
    {
        let b = Broadcaster { subscribers: Vec::new(), capacity };
        proof {
            assert(b.buffers() =~~= Seq::<Seq<DhtResponseView>>::empty());
        }
        b
    }

    /// Registers a new subscriber with an empty buffer and returns its
    /// handle. Subscribers receive only responses published after they
    /// subscribe.
    pub fn subscribe(&mut self) -> (id: usize)
        requires
            old(self).wf(),
        ensures
            final(self).wf(),
            final(self).cap() == old(self).cap(),
            id == old(self).buffers().len(),
            final(self).buffers() == old(self).buffers().push(Seq::<DhtResponseView>::empty()),
    {
        let id = self.subscribers.len();
        self.subscribers.push(Vec::new());
        proof {
            assert(self.buffers() =~~= old(self).buffers().push(Seq::<DhtResponseView>::empty()));
        }
        id
    }

    /// Publishes one response: every subscriber's buffer receives a copy,
    /// dropping its oldest undelivered response if it stood at the bound.
    pub fn publish(&mut self, resp: &DhtResponse)
        requires
            old(self).wf(),
        ensures
            final(self).wf(),
            final(self).cap() == old(self).cap(),
            final(self).buffers().len() == old(self).buffers().len(),
            forall|i: int|
                0 <= i < old(self).buffers().len() ==> #[trigger] final(self).buffers()[i]
                    == push_bounded(old(self).buffers()[i], resp@, old(self).cap()),
    {
        let mut pending: Vec<Vec<DhtResponse>> = Vec::new();
        std::mem::swap(&mut pending, &mut self.subscribers);
        let ghost orig = pending.deep_view();
        let mut done: Vec<Vec<DhtResponse>> = Vec::new();
        while pending.len() > 0
            invariant
                self.capacity >= 1,
                done.deep_view().len() + pending.deep_view().len() == orig.len(),
                forall|i: int|
                    0 <= i < done.deep_view().len() ==> #[trigger] done.deep_view()[i]
                        == push_bounded(orig[i], resp@, self.capacity as nat),
                forall|i: int|
                    0 <= i < pending.deep_view().len() ==> #[trigger] pending.deep_view()[i]
                        == orig[done.deep_view().len() + i],
            decreases pending.len(),
        {
            let ghost k: int = done.deep_view().len() as int;
            let ghost pending_pre = pending.deep_view();
            let ghost done_pre = done.deep_view();
            let mut buf = pending.remove(0);
            proof {
                assert(pending.deep_view() =~= pending_pre.drop_first());
                assert(pending_pre[0] == orig[k]);
                assert(buf.deep_view() == pending_pre[0]);
            }
            let ghost buf_pre = buf.deep_view();
            if buf.len() >= self.capacity {
                buf.remove(0);
                proof {
                    assert(buf.deep_view() =~= buf_pre.drop_first());
                }
            }
            let ghost buf_mid = buf.deep_view();
            buf.push(resp.clone());
            proof {
                assert(buf.deep_view() =~= buf_mid.push(resp@));
                assert(buf.deep_view() == push_bounded(orig[k], resp@, self.capacity as nat));
            }
            done.push(buf);
            proof {
                assert(done.deep_view() =~= done_pre.push(buf.deep_view()));
            }
        }
        self.subscribers = done;
        proof {
            assert forall|i: int| 0 <= i < orig.len() implies #[trigger] self
                .subscribers
                .deep_view()[i] == push_bounded(orig[i], resp@, self.capacity as nat) by {}
        }
    }

    /// Delivers the oldest undelivered response to subscriber `id`, or
    /// `None` if the subscriber has seen everything published so far.
    pub fn recv(&mut self, id: usize) -> (r: Option<DhtResponse>)
        requires
            old(self).wf(),
            id < old(self).buffers().len(),
        ensures
            final(self).wf(),
            final(self).cap() == old(self).cap(),
            final(self).buffers().len() == old(self).buffers().len(),
            forall|i: int|
                0 <= i < old(self).buffers().len() && i != id
                    ==> #[trigger] final(self).buffers()[i] == old(self).buffers()[i],
            old(self).buffers()[id as int].len() == 0 ==> r is None
                && final(self).buffers()[id as int] == old(self).buffers()[id as int],
            old(self).buffers()[id as int].len() > 0 ==> (r matches Some(x)
                && x@ == old(self).buffers()[id as int][0])
                && final(self).buffers()[id as int] == old(self).buffers()[id as int].drop_first(),
    {
        let ghost pre = self.subscribers.deep_view();
        let mut buf = self.subscribers.remove(id);
        let ghost buf0 = buf.deep_view();
        let r = if buf.len() == 0 {
            None
        } else {
            Some(buf.remove(0))
        };
        proof {
            if buf0.len() > 0 {
                assert(buf.deep_view() =~= buf0.drop_first());
            }
        }
        self.subscribers.insert(id, buf);
        proof {
            assert forall|i: int| 0 <= i < pre.len() && i != id implies #[trigger] self
                .subscribers
                .deep_view()[i] == pre[i] by {
                if i < id {
                    assert(self.subscribers@[i] == old(self).subscribers@[i]);
                } else {
                    assert(self.subscribers@[i] == old(self).subscribers@[i]);
                }
            }
            assert(self.subscribers.deep_view()[id as int] == buf.deep_view());
        }
        r
    }
}

} // verus!
