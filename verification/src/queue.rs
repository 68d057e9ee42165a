//! Unbounded first-in-first-out queues for outbound operations and chat
//! replies. Producers append; the single consumer always takes the front, so
//! items are executed strictly in enqueue order.

use vstd::prelude::*;

verus! {

/// A FIFO queue; its view is the sequence of queued items, front first.
pub struct FifoQueue<T> {
    items: Vec<T>,
}

impl<T> View for FifoQueue<T> {
    type V = Seq<T>;

    closed spec fn view(&self) -> Seq<T> {
        self.items@
    }
}

impl<T> FifoQueue<T> {
    /// The empty queue.
    pub fn new() -> (r: Self)
        ensures
            r@ == Seq::<T>::empty(),
    {
        let r = FifoQueue { items: Vec::new() };
        proof {
            assert(r@ =~= Seq::<T>::empty());
        }
        r
    }

    /// Number of queued items.
    pub fn len(&self) -> (r: usize)
        ensures
            r == self@.len(),
    {
        self.items.len()
    }

    /// Whether the queue is empty.
    pub fn is_empty(&self) -> (r: bool)
        ensures
            r == (self@.len() == 0),
    {
        self.items.is_empty()
    }

    /// Append an item at the back; enqueuing never blocks and never fails.
    pub fn enqueue(&mut self, item: T)
        ensures
            final(self)@ == old(self)@.push(item),
    {
        self.items.push(item);
    }

    /// Remove and return the front item: the earliest enqueued one still
    /// queued. Returns `None` exactly when the queue is empty.
    pub fn dequeue(&mut self) -> (r: Option<T>)
        ensures
            old(self)@.len() == 0 ==> r is None && final(self)@ == old(self)@,
            old(self)@.len() > 0 ==> r == Some(old(self)@[0]) && final(self)@
                == old(self)@.drop_first(),
    {
        if self.items.is_empty() {
            None
        } else {
            let x = self.items.remove(0);
            proof {
                assert(final(self)@ =~= old(self)@.drop_first());
            }
            Some(x)
        }
    }

    /// Remove every queued item, in queue order: what a consumer loop that
    /// dequeues until empty would execute, in execution order.
    pub fn take_all(&mut self) -> (r: Vec<T>)
        ensures
            r@ == old(self)@,
            final(self)@ == Seq::<T>::empty(),
    {
        let mut out: Vec<T> = Vec::new();
        core::mem::swap(&mut out, &mut self.items);
        proof {
            assert(final(self)@ =~= Seq::<T>::empty());
        }
        out
    }
}

/// The queue contents after enqueuing the items of `xs`, one at a time and in
/// order, onto a queue holding `q`.
pub open spec fn spec_enqueue_all<T>(q: Seq<T>, xs: Seq<T>) -> Seq<T>
    decreases xs.len(),
{
    if xs.len() == 0 {
        q
    } else {
        spec_enqueue_all(q.push(xs[0]), xs.drop_first())
    }
}

/// Queue-ordering law: enqueuing `xs` one at a time onto a queue holding `q`
/// leaves exactly `q + xs`, so the single consumer, which always dequeues the
/// front, executes items strictly in enqueue order, whatever each item's own
/// execution takes.
pub proof fn lemma_fifo_order<T>(q: Seq<T>, xs: Seq<T>)
    ensures
        spec_enqueue_all(q, xs) == q + xs,
    decreases xs.len(),
{
    if xs.len() == 0 {
        assert(q + xs =~= q);
    } else {
        lemma_fifo_order(q.push(xs[0]), xs.drop_first());
        assert(q.push(xs[0]) + xs.drop_first() =~= q + xs);
    }
}

} // verus!
