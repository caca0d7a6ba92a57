//! Bounded hand-off queue for the pipelined dispatch topology: a
//! fixed-capacity FIFO of packet buffers transferred by ownership between
//! the read-side and the worker contexts. The capacity bound is the sole
//! backpressure mechanism: a push against a full queue hands the buffer back
//! untouched, and the caller blocks (retries) until the consumer drains an
//! entry. No buffer is ever duplicated or lost across a transfer.

use vstd::prelude::*;

verus! {

/// A bounded FIFO of owned packet buffers.
pub struct HandoffQueue {
    items: Vec<Vec<u8>>,
    capacity: usize,
}

impl View for HandoffQueue {
    type V = Seq<Seq<u8>>;

    /// The queued buffers, front first.
    closed spec fn view(&self) -> Seq<Seq<u8>> {
        self.items@.map_values(|b: Vec<u8>| b@)
    }
}

impl HandoffQueue {
    /// The fixed capacity the queue was created with.
    pub closed spec fn spec_capacity(&self) -> usize {
        self.capacity
    }

    /// Well-formedness: the queue never holds more than its capacity.
    /// Established by the constructor and preserved by every operation.
    pub open spec fn wf(&self) -> bool {
        self@.len() <= self.spec_capacity()
    }

    pub fn new(capacity: usize) -> (q: HandoffQueue)
        requires
            capacity >= 1,
        ensures
            q@ == Seq::<Seq<u8>>::empty(),
            q.spec_capacity() == capacity,
            q.wf(),
    {
        let q = HandoffQueue { items: Vec::new(), capacity };
        proof {
            assert(q@ =~= Seq::<Seq<u8>>::empty());
        }
        q
    }

    pub fn len(&self) -> (n: usize)
        ensures
            n == self@.len(),
    {
        self.items.len()
    }

    pub fn capacity(&self) -> (n: usize)
        ensures
            n == self.spec_capacity(),
    {
        self.capacity
    }

    pub fn is_empty(&self) -> (b: bool)
        ensures
            b == (self@.len() == 0),
    {
        self.items.len() == 0
    }

    pub fn is_full(&self) -> (b: bool)
        ensures
            b == (self@.len() == self.spec_capacity()),
    {
        self.items.len() == self.capacity
    }

    /// Moves one buffer into the queue. Against a full queue this is the
    /// backpressure case: nothing is enqueued and the very buffer comes back
    /// to the caller, to be retried once the consumer has drained an entry.
    pub fn push(&mut self, buf: Vec<u8>) -> (r: Result<(), Vec<u8>>)
        ensures
            final(self).spec_capacity() == old(self).spec_capacity(),
            old(self).wf() ==> final(self).wf(),
            old(self)@.len() < old(self).spec_capacity() ==> r is Ok && final(self)@ == old(
                self,
            )@.push(buf@),
            old(self)@.len() >= old(self).spec_capacity() ==> (r matches Err(b) && b == buf
                && final(self)@ == old(self)@),
    {
        if self.items.len() < self.capacity {
            let ghost prev = self.items@;
            self.items.push(buf);
            proof {
                assert(self@ =~= old(self)@.push(buf@));
            }
            Ok(())
        } else {
            Err(buf)
        }
    }

    /// Moves the oldest buffer out of the queue, in arrival order.
    pub fn pop(&mut self) -> (r: Option<Vec<u8>>)
        ensures
            final(self).spec_capacity() == old(self).spec_capacity(),
            old(self).wf() ==> final(self).wf(),
            old(self)@.len() == 0 ==> r is None && final(self)@ == old(self)@,
            old(self)@.len() > 0 ==> (r matches Some(b) && b@ == old(self)@[0] && final(self)@
                == old(self)@.drop_first()),
    {
        if self.items.len() == 0 {
            None
        } else {
            let b = self.items.remove(0);
            proof {
                assert(self@ =~= old(self)@.drop_first());
            }
            Some(b)
        }
    }
}

/// Backpressure round trip over the queue model: a push against a full
/// queue changes nothing and surrenders no buffer, and once one entry is
/// drained a retried push succeeds, appending exactly the held-back buffer —
/// the buffer crosses the transfer exactly once, neither duplicated nor
/// lost.
pub proof fn lemma_backpressure_round_trip(q: Seq<Seq<u8>>, cap: usize, buf: Seq<u8>)
    requires
        q.len() == cap,
        cap >= 1,
    ensures
        q.drop_first().len() < cap,
        q.drop_first().push(buf) == q.skip(1) + seq![buf],
        (q.skip(1) + seq![buf]).len() == cap,
        (q.skip(1) + seq![buf]).to_multiset() =~= q.to_multiset().remove(q[0]).insert(buf),
{
    assert(q.drop_first().push(buf) =~= q.skip(1) + seq![buf]);
    q.to_multiset_ensures();
    q.skip(1).to_multiset_ensures();
    assert(q.remove(0) =~= q.skip(1));
    assert(q.to_multiset().remove(q[0]) =~= q.skip(1).to_multiset());
    assert((q.skip(1) + seq![buf]) =~= q.skip(1).push(buf));
    assert(q.skip(1).push(buf).to_multiset() =~= q.skip(1).to_multiset().insert(buf));
}

} // verus!
