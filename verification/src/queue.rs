//! A fixed-capacity FIFO of transaction identifiers.
//!
//! The queue decouples the subscription loop from enrichment and is
//! the pipeline's only backpressure mechanism: when it is full, an
//! enqueue does not take the item — the producer must wait and offer
//! it again once a slot frees. Under pressure no item is ever
//! dropped: the producer slows down instead.
//! Closing the queue signals clean shutdown: the producer is refused
//! from then on, and the consumer drains what is pending and then
//! sees end-of-stream.

use vstd::prelude::*;

verus! {

/// What one enqueue attempt did.
pub enum EnqueueOutcome {
    /// The item was appended at the back.
    Accepted,
    /// The queue is full: the item was not taken and nothing was
    /// lost; the caller must wait for a slot and offer it again.
    MustWait,
    /// The consumer side has shut down; the item was not taken.
    Closed,
}

/// What one dequeue attempt did.
pub enum DequeueOutcome {
    /// The item that was at the front.
    Item(String),
    /// Nothing is pending yet, but the queue is still open: the
    /// caller must wait for the producer.
    MustWait,
    /// The queue is closed and drained: end of stream.
    EndOfStream,
}

/// A fixed-capacity FIFO channel of transaction identifiers.
pub struct BoundedQueue {
    items: Vec<String>,
    capacity: usize,
    closed: bool,
}

impl BoundedQueue {
    /// The pending identifiers, front first, as character sequences.
    pub closed spec fn pending(&self) -> Seq<Seq<char>> {
        self.items@.map_values(|s: String| s@)
    }

    /// The fixed capacity the queue was created with.
    pub closed spec fn spec_capacity(&self) -> int {
        self.capacity as int
    }

    /// Whether the queue has been closed for shutdown.
    pub closed spec fn is_closed(&self) -> bool {
        self.closed
    }

    /// Well-formedness: a positive capacity that the pending items
    /// never exceed.
    pub closed spec fn wf(&self) -> bool {
        &&& self.capacity >= 1
        &&& self.items@.len() <= self.capacity
    }

    /// Creates an open, empty queue of the given capacity.
    pub fn new(capacity: usize) -> (q: BoundedQueue)
        requires
            capacity >= 1,
        ensures
            q.wf(),
            q.pending() == Seq::<Seq<char>>::empty(),
            q.spec_capacity() == capacity,
            !q.is_closed(),
    {
        let q = BoundedQueue { items: Vec::new(), capacity, closed: false };
        proof {
            assert(q.pending() =~= Seq::<Seq<char>>::empty());
        }
        q
    }

    /// Offers one identifier. On a closed queue nothing changes and
    /// the producer learns of the shutdown. On a full open queue
    /// nothing changes either — the item is refused, never dropped —
    /// and the producer must wait. Otherwise the item is appended at
    /// the back.
    pub fn try_enqueue(&mut self, item: String) -> (r: EnqueueOutcome)
        requires
            old(self).wf(),
        ensures
            final(self).wf(),
            final(self).spec_capacity() == old(self).spec_capacity(),
            final(self).is_closed() == old(self).is_closed(),
            old(self).is_closed() ==> (r is Closed
                && final(self).pending() == old(self).pending()),
            (!old(self).is_closed() && old(self).pending().len() == old(self).spec_capacity())
                ==> (r is MustWait && final(self).pending() == old(self).pending()),
            (!old(self).is_closed() && old(self).pending().len() < old(self).spec_capacity())
                ==> (r is Accepted && final(self).pending() == old(self).pending().push(item@)),
    {
        if self.closed {
            EnqueueOutcome::Closed
        } else if self.items.len() == self.capacity {
            EnqueueOutcome::MustWait
        } else {
            self.items.push(item);
            proof {
                assert(self.pending() =~= old(self).pending().push(item@));
            }
            EnqueueOutcome::Accepted
        }
    }

    /// Takes the front identifier if one is pending; on an empty
    /// queue, tells the consumer to wait while the queue is open and
    /// signals end-of-stream once it is closed and drained.
    pub fn dequeue(&mut self) -> (r: DequeueOutcome)
        requires
            old(self).wf(),
        ensures
            final(self).wf(),
            final(self).spec_capacity() == old(self).spec_capacity(),
            final(self).is_closed() == old(self).is_closed(),
            old(self).pending().len() > 0 ==> (r matches DequeueOutcome::Item(s)
                && s@ == old(self).pending()[0]
                && final(self).pending() == old(self).pending().drop_first()),
            (old(self).pending().len() == 0 && !old(self).is_closed()) ==> (r is MustWait
                && final(self).pending() == old(self).pending()),
            (old(self).pending().len() == 0 && old(self).is_closed()) ==> (r is EndOfStream
                && final(self).pending() == old(self).pending()),
    {
        if self.items.len() > 0 {
            let item = self.items.remove(0);
            proof {
                assert(self.pending() =~= old(self).pending().drop_first());
            }
            DequeueOutcome::Item(item)
        } else if self.closed {
            DequeueOutcome::EndOfStream
        } else {
            DequeueOutcome::MustWait
        }
    }

    /// Closes the queue for shutdown: the pending items stay to be
    /// drained, but no further item will be accepted.
    pub fn close(&mut self)
        requires
            old(self).wf(),
        ensures
            final(self).wf(),
            final(self).spec_capacity() == old(self).spec_capacity(),
            final(self).pending() == old(self).pending(),
            final(self).is_closed(),
    {
        self.closed = true;
    }

    /// The number of pending identifiers.
    pub fn len(&self) -> (n: usize)
        ensures
            n == self.pending().len(),
    {
        self.items.len()
    }
}

} // verus!
