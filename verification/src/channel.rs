//! The bounded channel primitive: a fixed-capacity FIFO queue with a
//! closable producer side.
//!
//! `send` on a full channel tells the producer to wait until a receive
//! frees a slot; `send` on a closed channel fails; `receive` on an
//! empty-but-open channel tells the consumer to wait; `receive` on an
//! empty-and-closed channel reports end-of-stream. Closing never discards
//! items already queued.
use vstd::prelude::*;

verus! {

/// Outcome of a send attempt on a bounded channel.
#[derive(Clone, Copy, PartialEq, Eq, Structural, Debug)]
pub enum SendOutcome {
    /// The item was enqueued at the back of the queue.
    Sent,
    /// The queue is at capacity: the producer must suspend and retry after
    /// a receive frees a slot. The item was not enqueued.
    MustWait,
    /// The producer side is closed: the item is rejected.
    Closed,
}

/// Outcome of a receive attempt on a bounded channel.
#[derive(PartialEq, Eq, Debug)]
pub enum ReceiveOutcome<T> {
    /// The oldest queued item, now removed from the queue.
    Item(T),
    /// Nothing is queued yet but the channel is still open: the consumer
    /// must suspend and retry after a send.
    MustWait,
    /// Nothing is queued and the channel is closed: no item will ever
    /// arrive again.
    EndOfStream,
}

/// What a send leaves in the queue: the item goes to the back when the
/// channel is open and below capacity, otherwise the queue is unchanged.
pub open spec fn spec_send_queue<T>(queue: Seq<T>, capacity: nat, closed: bool, item: T) -> Seq<T> {
    if !closed && queue.len() < capacity {
        queue.push(item)
    } else {
        queue
    }
}

/// What a send reports: rejection when closed, a wait when full, success
/// otherwise.
pub open spec fn spec_send_outcome<T>(queue: Seq<T>, capacity: nat, closed: bool) -> SendOutcome {
    if closed {
        SendOutcome::Closed
    } else if queue.len() < capacity {
        SendOutcome::Sent
    } else {
        SendOutcome::MustWait
    }
}

/// What a receive leaves in the queue: the oldest item is removed; an
/// empty queue is unchanged.
pub open spec fn spec_receive_queue<T>(queue: Seq<T>) -> Seq<T> {
    if queue.len() > 0 {
        queue.drop_first()
    } else {
        queue
    }
}

/// Whether a receive yields an item, a wait, or end-of-stream.
pub open spec fn spec_receive_outcome<T>(queue: Seq<T>, closed: bool) -> ReceiveOutcome<T> {
    if queue.len() > 0 {
        ReceiveOutcome::Item(queue[0])
    } else if closed {
        ReceiveOutcome::EndOfStream
    } else {
        ReceiveOutcome::MustWait
    }
}

/// A bounded multi-producer FIFO channel, modelled as the queue of items
/// that have been sent and not yet received.
pub struct Channel<T> {
    queue: Vec<T>,
    capacity: usize,
    closed: bool,
}

impl<T> View for Channel<T> {
    type V = Seq<T>;

    closed spec fn view(&self) -> Seq<T> {
        self.queue@
    }
}

impl<T> Channel<T> {
    /// The capacity fixed at construction.
    pub closed spec fn spec_cap(&self) -> nat {
        self.capacity as nat
    }

    /// Whether the producer side has been closed.
    pub closed spec fn spec_closed(&self) -> bool {
        self.closed
    }

    /// The channel never holds more items than its capacity.
    pub open spec fn inv(&self) -> bool {
        self@.len() <= self.spec_cap() && 1 <= self.spec_cap()
    }

    /// Creates an empty, open channel of the given capacity.
    pub fn new(capacity: usize) -> (r: Channel<T>)
        requires
            1 <= capacity,
        ensures
            r.inv(),
            r@ == Seq::<T>::empty(),
            r.spec_cap() == capacity,
            !r.spec_closed(),
    {
        Channel { queue: Vec::new(), capacity, closed: false }
    }

    /// The number of items queued.
    pub fn len(&self) -> (r: usize)
        ensures
            r == self@.len(),
    {
        self.queue.len()
    }

    /// The capacity fixed at construction.
    pub fn capacity(&self) -> (r: usize)
        ensures
            r == self.spec_cap(),
    {
        self.capacity
    }

    /// Whether the producer side has been closed.
    pub fn is_closed(&self) -> (r: bool)
        ensures
            r == self.spec_closed(),
    {
        self.closed
    }

    /// Attempts to enqueue an item at the back of the queue. Fails on a
    /// closed channel; on a full channel the producer must wait and retry.
    pub fn send(&mut self, item: T) -> (r: SendOutcome)
        requires
            old(self).inv(),
        ensures
            final(self).inv(),
            final(self).spec_cap() == old(self).spec_cap(),
            final(self).spec_closed() == old(self).spec_closed(),
            r == spec_send_outcome::<T>(old(self)@, old(self).spec_cap(), old(self).spec_closed()),
            final(self)@ == spec_send_queue(old(self)@, old(self).spec_cap(), old(self).spec_closed(), item),
    {
        if self.closed {
            SendOutcome::Closed
        } else if self.queue.len() < self.capacity {
            self.queue.push(item);
            SendOutcome::Sent
        } else {
            SendOutcome::MustWait
        }
    }

    /// Attempts to dequeue the oldest item. On an empty-but-open channel
    /// the consumer must wait and retry; on an empty-and-closed channel
    /// no item will ever arrive again.
    pub fn receive(&mut self) -> (r: ReceiveOutcome<T>)
        requires
            old(self).inv(),
        ensures
            final(self).inv(),
            final(self).spec_cap() == old(self).spec_cap(),
            final(self).spec_closed() == old(self).spec_closed(),
            r == spec_receive_outcome::<T>(old(self)@, old(self).spec_closed()),
            final(self)@ == spec_receive_queue(old(self)@),
    {
        if self.queue.len() > 0 {
            let item = self.queue.remove(0);
            proof {
                assert(self.queue@ =~= old(self).queue@.drop_first());
            }
            ReceiveOutcome::Item(item)
        } else if self.closed {
            ReceiveOutcome::EndOfStream
        } else {
            ReceiveOutcome::MustWait
        }
    }

    /// Closes the producer side. Idempotent; items already queued stay
    /// receivable.
    pub fn close(&mut self)
        requires
            old(self).inv(),
        ensures
            final(self).inv(),
            final(self).spec_cap() == old(self).spec_cap(),
            final(self).spec_closed(),
            final(self)@ == old(self)@,
    {
        self.closed = true;
    }
}

/// The queue left after sending every item of `items`, oldest first, on
/// an open channel with the given capacity.
pub open spec fn spec_send_all<T>(queue: Seq<T>, capacity: nat, items: Seq<T>) -> Seq<T>
    decreases items.len(),
{
    if items.len() == 0 {
        queue
    } else {
        spec_send_all(spec_send_queue(queue, capacity, false, items[0]), capacity, items.drop_first())
    }
}

/// FIFO fill law: as long as the channel has room for all of them, items
/// sent one after another line up behind the existing queue in exactly
/// the order they were sent.
pub proof fn lemma_send_all_in_order<T>(queue: Seq<T>, capacity: nat, items: Seq<T>)
    requires
        queue.len() + items.len() <= capacity,
    ensures
        spec_send_all(queue, capacity, items) == queue + items,
    decreases items.len(),
{
    if items.len() == 0 {
        assert(queue + items =~= queue);
    } else {
        lemma_send_all_in_order(queue.push(items[0]), capacity, items.drop_first());
        assert(queue.push(items[0]) + items.drop_first() =~= queue + items);
    }
}

/// Backpressure law: a send on a full open channel enqueues nothing and
/// makes the producer wait; only after a receive has freed a slot does
/// the same send go through, and then to the back of the queue.
pub proof fn lemma_backpressure<T>(queue: Seq<T>, capacity: nat, item: T)
    requires
        1 <= capacity,
        queue.len() == capacity,
    ensures
        spec_send_outcome::<T>(queue, capacity, false) == SendOutcome::MustWait,
        spec_send_queue(queue, capacity, false, item) == queue,
        spec_send_outcome::<T>(spec_receive_queue(queue), capacity, false) == SendOutcome::Sent,
        spec_send_queue(spec_receive_queue(queue), capacity, false, item) == queue.drop_first().push(item),
{
}

/// Overfill law: submitting one item more than the capacity into an
/// empty open channel, without a concurrent consumer, queues exactly
/// the first `capacity` items in order; the last send enqueues nothing
/// and makes the producer wait, and only after one item has been
/// received does it go through.
pub proof fn lemma_overfill<T>(items: Seq<T>, capacity: nat, extra: T)
    requires
        1 <= capacity,
        items.len() == capacity,
    ensures
        spec_send_all(Seq::<T>::empty(), capacity, items) == items,
        spec_send_outcome::<T>(items, capacity, false) == SendOutcome::MustWait,
        spec_send_queue(items, capacity, false, extra) == items,
        spec_send_outcome::<T>(spec_receive_queue(items), capacity, false) == SendOutcome::Sent,
{
    lemma_send_all_in_order(Seq::<T>::empty(), capacity, items);
    assert(Seq::<T>::empty() + items =~= items);
    lemma_backpressure(items, capacity, extra);
}

/// End-of-stream law: once the channel is closed and drained, a receive
/// reports end-of-stream and leaves the channel empty and closed, so
/// every later receive deterministically reports end-of-stream again;
/// and while items remain queued, closing does not discard them — a
/// receive still yields the oldest item, never end-of-stream.
pub proof fn lemma_end_of_stream<T>(queue: Seq<T>)
    ensures
        queue.len() == 0 ==> spec_receive_outcome::<T>(queue, true) == ReceiveOutcome::<T>::EndOfStream,
        queue.len() == 0 ==> spec_receive_queue(queue) == queue,
        queue.len() > 0 ==> spec_receive_outcome::<T>(queue, true) == ReceiveOutcome::Item(queue[0]),
{
}

} // verus!
