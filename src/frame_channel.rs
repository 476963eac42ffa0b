//! Bounded frame queue between the capture loop and the relay.
//!
//! The producer never waits for room: a frame offered to a full queue is
//! dropped and the drop is reported to the caller. Accepted frames leave the
//! queue in the order they were accepted.
use std::collections::VecDeque;
use vstd::prelude::*;

verus! {

/// Default number of frames the queue holds.
pub const FRAME_CAPACITY: usize = 16;

/// What became of a frame offered to the queue.
#[derive(Debug, Clone, Copy, PartialEq, Eq, Structural)]
pub enum Offer {
    /// The frame was appended to the queue.
    Accepted,
    /// The queue was full; the frame was discarded.
    Dropped,
}

/// The pending frames after `frame` is offered to a queue that holds
/// `pending` and has room for `capacity` frames.
pub open spec fn offered(pending: Seq<Vec<u8>>, capacity: nat, frame: Vec<u8>) -> Seq<Vec<u8>> {
    if pending.len() < capacity {
        pending.push(frame)
    } else {
        pending
    }
}

/// The pending frames after each of `frames` is offered in turn.
pub open spec fn offered_all(pending: Seq<Vec<u8>>, capacity: nat, frames: Seq<Vec<u8>>) -> Seq<
    Vec<u8>,
>
    decreases frames.len(),
{
    if frames.len() == 0 {
        pending
    } else {
        offered_all(offered(pending, capacity, frames[0]), capacity, frames.drop_first())
    }
}

/// A fixed-capacity first-in first-out queue of encoded frames.
pub struct FrameChannel {
    frames: VecDeque<Vec<u8>>,
    capacity: usize,
}

impl FrameChannel {
    /// The frames waiting in the queue, oldest first.
    pub closed spec fn pending(&self) -> Seq<Vec<u8>> {
        self.frames@
    }

    /// The number of frames the queue can hold.
    pub closed spec fn spec_capacity(&self) -> nat {
        self.capacity as nat
    }

    /// The queue has room for at least one frame and holds no more than it may.
    pub open spec fn wf(&self) -> bool {
        &&& 0 < self.spec_capacity()
        &&& self.pending().len() <= self.spec_capacity()
    }

    /// An empty queue with room for `capacity` frames.
    pub fn new(capacity: usize) -> (r: FrameChannel)
        requires
            capacity > 0,
        ensures
            r.wf(),
            r.pending() == Seq::<Vec<u8>>::empty(),
            r.spec_capacity() == capacity,
    {
        FrameChannel { frames: VecDeque::new(), capacity }
    }

    /// Offers a frame without waiting: it is appended when there is room and
    /// dropped when the queue is full.
    pub fn offer(&mut self, frame: Vec<u8>) -> (r: Offer)
        requires
            old(self).wf(),
        ensures
            final(self).wf(),
            final(self).spec_capacity() == old(self).spec_capacity(),
            final(self).pending() == offered(old(self).pending(), old(self).spec_capacity(), frame),
            r == (if old(self).pending().len() < old(self).spec_capacity() {
                Offer::Accepted
            } else {
                Offer::Dropped
            }),
    {
        if self.frames.len() < self.capacity {
            self.frames.push_back(frame);
            Offer::Accepted
        } else {
            Offer::Dropped
        }
    }

    /// Removes and returns the oldest frame, or `None` when the queue is empty.
    pub fn take(&mut self) -> (r: Option<Vec<u8>>)
        requires
            old(self).wf(),
        ensures
            final(self).wf(),
            final(self).spec_capacity() == old(self).spec_capacity(),
            old(self).pending().len() == 0 ==> r.is_none() && final(self).pending() == old(self).pending(),
            old(self).pending().len() > 0 ==> r == Some(old(self).pending()[0])
                && final(self).pending() == old(self).pending().drop_first(),
    {
        self.frames.pop_front()
    }

    /// The number of frames waiting.
    pub fn len(&self) -> (r: usize)
        ensures
            r == self.pending().len(),
    {
        self.frames.len()
    }

    /// Whether no frame is waiting.
    pub fn is_empty(&self) -> (r: bool)
        ensures
            r == (self.pending().len() == 0),
    {
        self.frames.len() == 0
    }

    /// Whether the next offer would be dropped.
    pub fn is_full(&self) -> (r: bool)
        ensures
            r == (self.pending().len() >= self.spec_capacity()),
    {
        self.frames.len() >= self.capacity
    }

    /// The number of frames the queue can hold.
    pub fn capacity(&self) -> (r: usize)
        ensures
            r == self.spec_capacity(),
    {
        self.capacity
    }
}

/// Frames offered while there is room for all of them are all kept, after the
/// frames already waiting and in the order they were offered.
pub proof fn lemma_offers_keep_order(pending: Seq<Vec<u8>>, capacity: nat, frames: Seq<Vec<u8>>)
    requires
        pending.len() + frames.len() <= capacity,
    ensures
        offered_all(pending, capacity, frames) == pending + frames,
    decreases frames.len(),
{
    if frames.len() > 0 {
        let next = offered(pending, capacity, frames[0]);
        assert(next == pending.push(frames[0]));
        lemma_offers_keep_order(next, capacity, frames.drop_first());
        assert(pending.push(frames[0]) + frames.drop_first() =~= pending + frames);
    } else {
        assert(pending + frames =~= pending);
    }
}

/// Offering one frame more than the capacity to an empty queue keeps exactly
/// the first `capacity` frames, in order, and discards the last one.
pub proof fn lemma_overflow_drops_newest(capacity: nat, frames: Seq<Vec<u8>>)
    requires
        capacity > 0,
        frames.len() == capacity + 1,
    ensures
        offered_all(Seq::empty(), capacity, frames) == frames.take(capacity as int),
        offered_all(Seq::empty(), capacity, frames).len() == capacity,
{
    let first = frames.take(capacity as int);
    lemma_offers_keep_order(Seq::empty(), capacity, first);
    assert(Seq::<Vec<u8>>::empty() + first =~= first);
    lemma_offered_all_split(Seq::empty(), capacity, frames, capacity);
    let last = frames.skip(capacity as int);
    assert(last.len() == 1);
    assert(last.drop_first().len() == 0);
    assert(offered(first, capacity, last[0]) == first);
    assert(offered_all(first, capacity, last.drop_first()) == first);
    assert(offered_all(first, capacity, last) == first);
}

/// Offering a sequence of frames is offering its first `k` frames and then the rest.
proof fn lemma_offered_all_split(pending: Seq<Vec<u8>>, capacity: nat, frames: Seq<Vec<u8>>, k: nat)
    requires
        k <= frames.len(),
    ensures
        offered_all(pending, capacity, frames) == offered_all(
            offered_all(pending, capacity, frames.take(k as int)),
            capacity,
            frames.skip(k as int),
        ),
    decreases k,
{
    if k == 0 {
        assert(frames.take(0).len() == 0);
        assert(frames.skip(0) =~= frames);
    } else {
        let next = offered(pending, capacity, frames[0]);
        lemma_offered_all_split(next, capacity, frames.drop_first(), (k - 1) as nat);
        assert(frames.take(k as int).drop_first() =~= frames.drop_first().take(k - 1));
        assert(frames.drop_first().skip(k - 1) =~= frames.skip(k as int));
        assert(frames.take(k as int)[0] == frames[0]);
    }
}

/// One use of the queue by the capture loop or by the relay.
pub ghost enum QueueEvent {
    /// The capture loop offers a frame.
    Offer(Vec<u8>),
    /// The relay takes the oldest frame, if there is one.
    Take,
}

/// The frames offered among `events`, in order.
pub open spec fn offers_in(events: Seq<QueueEvent>) -> Seq<Vec<u8>>
    decreases events.len(),
{
    if events.len() == 0 {
        Seq::empty()
    } else {
        match events[0] {
            QueueEvent::Offer(f) => seq![f] + offers_in(events.drop_first()),
            QueueEvent::Take => offers_in(events.drop_first()),
        }
    }
}

/// Whether every offer among `events` finds room, starting from `pending`.
pub open spec fn never_full(pending: Seq<Vec<u8>>, capacity: nat, events: Seq<QueueEvent>) -> bool
    decreases events.len(),
{
    if events.len() == 0 {
        true
    } else {
        match events[0] {
            QueueEvent::Offer(f) => pending.len() < capacity && never_full(
                pending.push(f),
                capacity,
                events.drop_first(),
            ),
            QueueEvent::Take => never_full(
                if pending.len() == 0 {
                    pending
                } else {
                    pending.drop_first()
                },
                capacity,
                events.drop_first(),
            ),
        }
    }
}

/// The frames the relay takes during `events`, in order, and the frames still
/// waiting afterwards.
pub open spec fn run_queue(pending: Seq<Vec<u8>>, capacity: nat, events: Seq<QueueEvent>) -> (
    Seq<Vec<u8>>,
    Seq<Vec<u8>>,
)
    decreases events.len(),
{
    if events.len() == 0 {
        (Seq::empty(), pending)
    } else {
        match events[0] {
            QueueEvent::Offer(f) => run_queue(offered(pending, capacity, f), capacity, events.drop_first()),
            QueueEvent::Take => if pending.len() == 0 {
                run_queue(pending, capacity, events.drop_first())
            } else {
                let rest = run_queue(pending.drop_first(), capacity, events.drop_first());
                (seq![pending[0]] + rest.0, rest.1)
            },
        }
    }
}

/// When no frame is dropped, the relay sees every frame in the order it was
/// offered: the frames it takes, followed by those still waiting, are the
/// frames that were waiting at the start followed by the offered ones.
pub proof fn lemma_relay_sees_offer_order(
    pending: Seq<Vec<u8>>,
    capacity: nat,
    events: Seq<QueueEvent>,
)
    requires
        never_full(pending, capacity, events),
    ensures
        run_queue(pending, capacity, events).0 + run_queue(pending, capacity, events).1 == pending
            + offers_in(events),
    decreases events.len(),
{
    if events.len() == 0 {
        assert(Seq::<Vec<u8>>::empty() + pending =~= pending + Seq::<Vec<u8>>::empty());
    } else {
        let rest = events.drop_first();
        match events[0] {
            QueueEvent::Offer(f) => {
                lemma_relay_sees_offer_order(pending.push(f), capacity, rest);
                assert(pending.push(f) + offers_in(rest) =~= pending + offers_in(events));
            },
            QueueEvent::Take => {
                if pending.len() == 0 {
                    lemma_relay_sees_offer_order(pending, capacity, rest);
                } else {
                    lemma_relay_sees_offer_order(pending.drop_first(), capacity, rest);
                    let r = run_queue(pending.drop_first(), capacity, rest);
                    assert(seq![pending[0]] + r.0 + r.1 =~= seq![pending[0]] + (r.0 + r.1));
                    assert(seq![pending[0]] + (pending.drop_first() + offers_in(rest)) =~= pending
                        + offers_in(events));
                }
            },
        }
    }
}

} // verus!
