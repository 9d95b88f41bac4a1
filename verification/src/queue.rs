//! A bounded, closable FIFO queue: the model of one side-channel between
//! two tasks. The ghost `hist` field records every value ever accepted, so
//! contracts can speak of the whole delivery order; `taken` counts how many
//! of them the receiving side has already drained.

use vstd::prelude::*;

verus! {

/// What a non-blocking send did.
#[derive(Clone, Copy, Debug, PartialEq, Eq, Structural)]
pub enum SendOutcome {
    /// The value was enqueued.
    Sent,
    /// The queue is at capacity; the value was refused.
    Full,
    /// The receiving side is gone; the value was refused.
    Closed,
}

/// A bounded FIFO channel value. `items` holds what was sent and not yet
/// received, oldest first.
pub struct BoundedQueue<T> {
    pub items: Vec<T>,
    pub capacity: usize,
    pub closed: bool,
    pub hist: Ghost<Seq<T>>,
    pub taken: Ghost<int>,
}

impl<T> BoundedQueue<T> {
    /// The queue's bookkeeping is consistent: what is pending is exactly
    /// the not-yet-received suffix of everything ever accepted.
    pub open spec fn wf(self) -> bool {
        &&& self.capacity >= 1
        &&& 0 <= self.taken@
        &&& self.hist@.len() == self.taken@ + self.items@.len()
        &&& self.items@ == self.hist@.subrange(self.taken@, self.hist@.len() as int)
    }

    /// A queue that will accept one more value right now.
    pub open spec fn accepts(self) -> bool {
        !self.closed && self.items@.len() < self.capacity
    }

    /// A queue fresh from [`Self::new`]: nothing sent, nothing received.
    pub open spec fn is_fresh(self, capacity: int) -> bool {
        &&& self.capacity == capacity
        &&& !self.closed
        &&& self.items@.len() == 0
        &&& self.hist@.len() == 0
        &&& self.taken@ == 0
    }

    pub fn new(capacity: usize) -> (r: Self)
        requires
            capacity >= 1,
        ensures
            r.wf(),
            r.is_fresh(capacity as int),
    {
        let r = BoundedQueue {
            items: Vec::new(),
            capacity,
            closed: false,
            hist: Ghost(Seq::empty()),
            taken: Ghost(0),
        };
        proof {
            assert(r.items@ =~= r.hist@.subrange(0, 0));
        }
        r
    }

    /// Non-blocking send. Refused exactly when the queue is closed or at
    /// capacity; an accepted value goes to the back of the line.
    pub fn try_send(&mut self, t: T) -> (r: SendOutcome)
        requires
            old(self).wf(),
        ensures
            final(self).wf(),
            final(self).capacity == old(self).capacity,
            final(self).closed == old(self).closed,
            final(self).taken@ == old(self).taken@,
            old(self).closed ==> r == SendOutcome::Closed && final(self).items@ == old(self).items@
                && final(self).hist@ == old(self).hist@,
            !old(self).closed && old(self).items@.len() >= old(self).capacity ==> (r
                == SendOutcome::Full && final(self).items@ == old(self).items@
                && final(self).hist@ == old(self).hist@),
            old(self).accepts() ==> (r == SendOutcome::Sent
                && final(self).items@ == old(self).items@.push(t)
                && final(self).hist@ == old(self).hist@.push(t)),
    {
        if self.closed {
            SendOutcome::Closed
        } else if self.items.len() >= self.capacity {
            SendOutcome::Full
        } else {
            let ghost h = self.hist@;
            self.hist = Ghost(h.push(t));
            self.items.push(t);
            proof {
                assert(self.items@ =~= self.hist@.subrange(
                    self.taken@,
                    self.hist@.len() as int,
                ));
            }
            SendOutcome::Sent
        }
    }

    /// Non-blocking receive: the oldest pending value, in the order sends
    /// were accepted.
    pub fn recv(&mut self) -> (r: Option<T>)
        requires
            old(self).wf(),
        ensures
            final(self).wf(),
            final(self).capacity == old(self).capacity,
            final(self).closed == old(self).closed,
            final(self).hist@ == old(self).hist@,
            old(self).items@.len() == 0 ==> r is None && final(self).items@ == old(self).items@
                && final(self).taken@ == old(self).taken@,
            old(self).items@.len() > 0 ==> (final(self).taken@ == old(self).taken@ + 1
                && final(self).items@ == old(self).items@.drop_first()
                && match r {
                    Some(t) => t == old(self).hist@[old(self).taken@],
                    None => false,
                }),
    {
        if self.items.len() == 0 {
            None
        } else {
            let t = self.items.remove(0);
            let ghost k = self.taken@;
            self.taken = Ghost(k + 1);
            proof {
                assert(self.items@ =~= old(self).items@.drop_first());
                assert(self.items@ =~= self.hist@.subrange(
                    self.taken@,
                    self.hist@.len() as int,
                ));
            }
            Some(t)
        }
    }

    /// The receiving side hangs up: nothing more will be accepted.
    pub fn close(&mut self)
        requires
            old(self).wf(),
        ensures
            final(self).wf(),
            final(self).closed,
            final(self).capacity == old(self).capacity,
            final(self).items@ == old(self).items@,
            final(self).hist@ == old(self).hist@,
            final(self).taken@ == old(self).taken@,
    {
        self.closed = true;
    }

    pub fn len(&self) -> (r: usize)
        ensures
            r == self.items@.len(),
    {
        self.items.len()
    }

    pub fn is_closed(&self) -> (r: bool)
        ensures
            r == self.closed,
    {
        self.closed
    }
}

} // verus!
