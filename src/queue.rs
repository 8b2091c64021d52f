use std::collections::VecDeque;
use vstd::prelude::*;

verus! {

/// A FIFO queue with a capacity bound and an end-of-stream marker.
///
/// Besides its contents the queue keeps, as ghost state, every item it has
/// accepted and every item it has handed out, so that first-in first-out
/// order is part of its well-formedness.
pub struct BoundedQueue<T> {
    items: VecDeque<T>,
    capacity: usize,
    ended: bool,
    accepted: Ghost<Seq<T>>,
    delivered: Ghost<Seq<T>>,
}

impl<T> View for BoundedQueue<T> {
    type V = Seq<T>;

    /// The items currently queued, front first.
    closed spec fn view(&self) -> Seq<T> {
        self.items@
    }
}

impl<T> BoundedQueue<T> {
    /// The most items the queue may hold at once.
    pub closed spec fn cap(&self) -> nat {
        self.capacity as nat
    }

    /// Whether end-of-stream has been marked.
    pub closed spec fn eos(&self) -> bool {
        self.ended
    }

    /// Every item the queue has accepted, in the order of acceptance.
    pub closed spec fn accepted_log(&self) -> Seq<T> {
        self.accepted@
    }

    /// Every item the queue has handed out, in the order of delivery.
    pub closed spec fn delivered_log(&self) -> Seq<T> {
        self.delivered@
    }

    pub open spec fn is_full_spec(&self) -> bool {
        self@.len() >= self.cap()
    }

    pub open spec fn drained(&self) -> bool {
        self@.len() == 0 && self.eos()
    }

    pub closed spec fn wf(&self) -> bool {
        &&& self.capacity >= 1
        &&& self.items@.len() <= self.capacity
        &&& self.accepted@ == self.delivered@ + self.items@
    }

    /// An empty queue that holds at most `capacity` items.
    pub fn new(capacity: usize) -> (r: BoundedQueue<T>)
        requires
            capacity >= 1,
        ensures
            r.wf(),
            r@ == Seq::<T>::empty(),
            r.cap() == capacity,
            !r.eos(),
            r.accepted_log() == Seq::<T>::empty(),
            r.delivered_log() == Seq::<T>::empty(),
    {
        BoundedQueue {
            items: VecDeque::new(),
            capacity,
            ended: false,
            accepted: Ghost(Seq::empty()),
            delivered: Ghost(Seq::empty()),
        }
    }

    pub fn len(&self) -> (r: usize)
        ensures
            r == self@.len(),
    {
        self.items.len()
    }

    pub fn capacity(&self) -> (r: usize)
        ensures
            r == self.cap(),
    {
        self.capacity
    }

    pub fn is_empty(&self) -> (r: bool)
        ensures
            r == (self@.len() == 0),
    {
        self.items.len() == 0
    }

    pub fn is_full(&self) -> (r: bool)
        ensures
            r == self.is_full_spec(),
    {
        self.items.len() >= self.capacity
    }

    pub fn is_ended(&self) -> (r: bool)
        ensures
            r == self.eos(),
    {
        self.ended
    }

    /// True exactly when the queue is empty and end-of-stream is marked.
    pub fn is_drained(&self) -> (r: bool)
        ensures
            r == self.drained(),
    {
        self.items.len() == 0 && self.ended
    }

    /// Appends `item` at the back. The item is handed back unchanged when
    /// the queue is full or end-of-stream has been marked; the caller then
    /// waits for room (backpressure).
    pub fn push(&mut self, item: T) -> (r: Result<(), T>)
        requires
            old(self).wf(),
        ensures
            final(self).wf(),
            final(self).cap() == old(self).cap(),
            final(self).eos() == old(self).eos(),
            final(self).delivered_log() == old(self).delivered_log(),
            r.is_ok() == (!old(self).is_full_spec() && !old(self).eos()),
            r.is_ok() ==> final(self)@ == old(self)@.push(item),
            r.is_ok() ==> final(self).accepted_log() == old(self).accepted_log().push(item),
            r.is_err() ==> r == Err::<(), T>(item) && final(self)@ == old(self)@
                && final(self).accepted_log() == old(self).accepted_log(),
            old(self).drained() ==> final(self).drained(),
    {
        if self.items.len() >= self.capacity || self.ended {
            return Err(item);
        }
        proof {
            self.accepted@ = self.accepted@.push(item);
        }
        self.items.push_back(item);
        proof {
            assert(self.accepted@ =~= self.delivered@ + self.items@);
        }
        Ok(())
    }

    /// Removes and returns the front item; `None`, without waiting, when the
    /// queue is empty.
    pub fn pop_if_ready(&mut self) -> (r: Option<T>)
        requires
            old(self).wf(),
        ensures
            final(self).wf(),
            final(self).cap() == old(self).cap(),
            final(self).eos() == old(self).eos(),
            final(self).accepted_log() == old(self).accepted_log(),
            old(self)@.len() == 0 ==> r is None && final(self)@ == old(self)@
                && final(self).delivered_log() == old(self).delivered_log(),
            old(self)@.len() > 0 ==> r == Some(old(self)@[0]) && final(self)@ == old(self)@.drop_first()
                && final(self).delivered_log() == old(self).delivered_log().push(old(self)@[0]),
            old(self).drained() ==> final(self).drained(),
    {
        let r = self.items.pop_front();
        proof {
            if old(self)@.len() > 0 {
                self.delivered@ = self.delivered@.push(old(self)@[0]);
                assert(old(self)@ =~= seq![old(self)@[0]] + self.items@);
                assert(self.accepted@ =~= self.delivered@ + self.items@);
            }
        }
        r
    }

    /// The front item, if any, left in place.
    pub fn peek(&self) -> (r: Option<&T>)
        ensures
            match r {
                Some(x) => self@.len() > 0 && *x == self@[0],
                None => self@.len() == 0,
            },
    {
        if self.items.len() == 0 {
            None
        } else {
            Some(&self.items[0])
        }
    }

    /// Marks end-of-stream; idempotent and irreversible.
    pub fn mark_end_of_stream(&mut self)
        requires
            old(self).wf(),
        ensures
            final(self).wf(),
            final(self)@ == old(self)@,
            final(self).cap() == old(self).cap(),
            final(self).eos(),
            final(self).accepted_log() == old(self).accepted_log(),
            final(self).delivered_log() == old(self).delivered_log(),
            old(self).drained() ==> final(self).drained(),
    {
        self.ended = true;
    }
}

/// First-in first-out: the items handed out so far, followed by those still
/// queued, are exactly the items accepted, in the order they were accepted.
pub proof fn lemma_fifo_order<T>(q: &BoundedQueue<T>)
    requires
        q.wf(),
    ensures
        q.delivered_log() + q@ == q.accepted_log(),
        q.delivered_log().is_prefix_of(q.accepted_log()),
{
    assert(q.accepted_log().subrange(0, q.delivered_log().len() as int) =~= q.delivered_log());
}

/// A well-formed queue never holds more items than its capacity.
pub proof fn lemma_capacity_bound<T>(q: &BoundedQueue<T>)
    requires
        q.wf(),
    ensures
        q@.len() <= q.cap(),
        q.cap() >= 1,
{
}

} // verus!
