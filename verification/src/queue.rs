//! The bounded queue between acquisition and relay.
//!
//! Readings leave the queue in the order in which they entered it. A full
//! queue takes nothing more: the reading goes back to the producer, who has to
//! wait until the consumer has taken one out. Once the producer has closed the
//! queue, the consumer still gets what is in it, and is told that the queue is
//! finished when nothing is left.

use crate::frame::Reading;
use std::collections::VecDeque;
use vstd::prelude::*;

verus! {

/// Number of readings that the queue holds at most.
pub const QUEUE_CAPACITY: usize = 100;

/// What a queue is: its readings, oldest first, and whether it was closed.
pub struct QueueState {
    pub items: Seq<Reading>,
    pub closed: bool,
}

/// Why the queue did not take a reading. The reading comes back with it.
#[derive(Clone, Copy, Debug, PartialEq, Eq, Structural)]
pub enum EnqueueError {
    /// The queue holds as many readings as it can.
    Full(Reading),
    /// The queue was closed.
    Closed(Reading),
}

/// What the consumer gets when it asks for a reading.
#[derive(Clone, Copy, Debug, PartialEq, Eq, Structural)]
pub enum Dequeued {
    /// The oldest reading.
    Item(Reading),
    /// Nothing now; more may come.
    Empty,
    /// Nothing, and nothing will come: the queue is empty and closed.
    Finished,
}

impl QueueState {
    /// A queue that is open and holds nothing.
    pub open spec fn fresh() -> QueueState {
        QueueState { items: Seq::empty(), closed: false }
    }

    /// Whether the queue takes another reading.
    pub open spec fn has_room(self) -> bool {
        !self.closed && self.items.len() < QUEUE_CAPACITY
    }

    /// What the producer is told when it offers `reading`: nothing if the
    /// reading was taken; else why it was not, with the reading itself.
    pub open spec fn enqueue_answer(self, reading: Reading) -> Result<(), EnqueueError> {
        if self.closed {
            Err(EnqueueError::Closed(reading))
        } else if self.items.len() >= QUEUE_CAPACITY {
            Err(EnqueueError::Full(reading))
        } else {
            Ok(())
        }
    }

    /// The queue after `reading` was offered to it.
    pub open spec fn after_enqueue(self, reading: Reading) -> QueueState {
        if self.has_room() {
            QueueState { items: self.items.push(reading), closed: self.closed }
        } else {
            self
        }
    }

    /// What the consumer gets: the oldest reading if there is one; else whether
    /// more may come.
    pub open spec fn dequeue_answer(self) -> Dequeued {
        if self.items.len() > 0 {
            Dequeued::Item(self.items[0])
        } else if self.closed {
            Dequeued::Finished
        } else {
            Dequeued::Empty
        }
    }

    /// The queue after the consumer asked it for a reading.
    pub open spec fn after_dequeue(self) -> QueueState {
        if self.items.len() > 0 {
            QueueState { items: self.items.skip(1), closed: self.closed }
        } else {
            self
        }
    }

    /// The queue after the producer closed it.
    pub open spec fn after_close(self) -> QueueState {
        QueueState { items: self.items, closed: true }
    }
}

/// A queue of at most `QUEUE_CAPACITY` readings, oldest first.
pub struct ReadingQueue {
    items: VecDeque<Reading>,
    closed: bool,
}

impl View for ReadingQueue {
    type V = QueueState;

    closed spec fn view(&self) -> QueueState {
        QueueState { items: self.items@, closed: self.closed }
    }
}

impl ReadingQueue {
    #[verifier::type_invariant]
    spec fn inv(self) -> bool {
        self.items@.len() <= QUEUE_CAPACITY
    }

    /// An open queue that holds nothing.
    pub fn new() -> (q: ReadingQueue)
        ensures
            q@ == QueueState::fresh(),
    {
        ReadingQueue { items: VecDeque::new(), closed: false }
    }

    /// Number of readings in the queue.
    pub fn len(&self) -> (n: usize)
        ensures
            n == self@.items.len(),
            n <= QUEUE_CAPACITY,
    {
        proof {
            use_type_invariant(self);
        }
        self.items.len()
    }

    /// Whether the queue holds no reading.
    pub fn is_empty(&self) -> (empty: bool)
        ensures
            empty == (self@.items.len() == 0),
    {
        self.items.len() == 0
    }

    /// Whether the queue holds as many readings as it can.
    pub fn is_full(&self) -> (full: bool)
        ensures
            full == (self@.items.len() == QUEUE_CAPACITY),
    {
        proof {
            use_type_invariant(self);
        }
        self.items.len() >= QUEUE_CAPACITY
    }

    /// Whether the queue was closed.
    pub fn is_closed(&self) -> (closed: bool)
        ensures
            closed == self@.closed,
    {
        self.closed
    }

    /// Offers `reading` to the queue. An open queue with room takes it as its
    /// newest; a full or a closed one hands it back unchanged and stays as it
    /// is.
    pub fn try_enqueue(&mut self, reading: Reading) -> (r: Result<(), EnqueueError>)
        ensures
            r == old(self)@.enqueue_answer(reading),
            final(self)@ == old(self)@.after_enqueue(reading),
            final(self)@.items.len() <= QUEUE_CAPACITY,
    {
        proof {
            use_type_invariant(&*self);
        }
        if self.closed {
            Err(EnqueueError::Closed(reading))
        } else if self.items.len() >= QUEUE_CAPACITY {
            Err(EnqueueError::Full(reading))
        } else {
            let closed = self.closed;
            let mut items = self.take_items();
            items.push_back(reading);
            *self = ReadingQueue { items, closed };
            Ok(())
        }
    }

    /// Takes the oldest reading out of the queue, if there is one. The queue is
    /// finished exactly when it is empty and closed.
    pub fn dequeue(&mut self) -> (r: Dequeued)
        ensures
            r == old(self)@.dequeue_answer(),
            final(self)@ == old(self)@.after_dequeue(),
            r == Dequeued::Finished <==> old(self)@.items.len() == 0 && old(self)@.closed,
    {
        proof {
            use_type_invariant(&*self);
        }
        let closed = self.closed;
        let mut items = self.take_items();
        let first = items.pop_front();
        assert(items@ =~= old(self)@.after_dequeue().items);
        *self = ReadingQueue { items, closed };
        match first {
            Some(reading) => Dequeued::Item(reading),
            None => if closed {
                Dequeued::Finished
            } else {
                Dequeued::Empty
            },
        }
    }

    /// Closes the queue: it takes no further reading, and keeps those it has
    /// for the consumer. Closing a closed queue changes nothing.
    pub fn close(&mut self)
        ensures
            final(self)@ == old(self)@.after_close(),
    {
        proof {
            use_type_invariant(&*self);
        }
        let items = self.take_items();
        *self = ReadingQueue { items, closed: true };
    }

    /// Moves the readings out and leaves the queue empty.
    fn take_items(&mut self) -> (items: VecDeque<Reading>)
        ensures
            items@ == old(self)@.items,
            final(self)@.items == Seq::<Reading>::empty(),
    {
        let mut taken = ReadingQueue { items: VecDeque::new(), closed: self.closed };
        core::mem::swap(self, &mut taken);
        taken.items
    }
}

/// One use of the queue by the producer or by the consumer.
pub enum QueueOp {
    /// The producer offers a reading.
    Enqueue(Reading),
    /// The consumer asks for a reading.
    Dequeue,
    /// The producer closes the queue.
    Close,
}

/// What has become of the readings after some uses of a queue.
pub struct QueueHistory {
    /// The queue as it is now.
    pub queue: QueueState,
    /// The readings that the queue took, in the order in which it took them.
    pub accepted: Seq<Reading>,
    /// The readings that the queue handed back to the producer.
    pub returned: Seq<Reading>,
    /// The readings that the consumer got, in the order in which it got them.
    pub delivered: Seq<Reading>,
}

/// The history `h` continued by one use of the queue.
pub open spec fn history_step(h: QueueHistory, op: QueueOp) -> QueueHistory {
    match op {
        QueueOp::Enqueue(reading) => QueueHistory {
            queue: h.queue.after_enqueue(reading),
            accepted: match h.queue.enqueue_answer(reading) {
                Ok(_) => h.accepted.push(reading),
                Err(_) => h.accepted,
            },
            returned: match h.queue.enqueue_answer(reading) {
                Ok(_) => h.returned,
                Err(EnqueueError::Full(back)) => h.returned.push(back),
                Err(EnqueueError::Closed(back)) => h.returned.push(back),
            },
            delivered: h.delivered,
        },
        QueueOp::Dequeue => QueueHistory {
            queue: h.queue.after_dequeue(),
            accepted: h.accepted,
            returned: h.returned,
            delivered: match h.queue.dequeue_answer() {
                Dequeued::Item(reading) => h.delivered.push(reading),
                _ => h.delivered,
            },
        },
        QueueOp::Close => QueueHistory {
            queue: h.queue.after_close(),
            accepted: h.accepted,
            returned: h.returned,
            delivered: h.delivered,
        },
    }
}

/// The history of a queue that started fresh and was used as `ops` says.
pub open spec fn history(ops: Seq<QueueOp>) -> QueueHistory
    decreases ops.len(),
{
    if ops.len() == 0 {
        QueueHistory {
            queue: QueueState::fresh(),
            accepted: Seq::empty(),
            returned: Seq::empty(),
            delivered: Seq::empty(),
        }
    } else {
        history_step(history(ops.drop_last()), ops.last())
    }
}

/// The readings that the producer offered in `ops`, in order.
pub open spec fn offered(ops: Seq<QueueOp>) -> Seq<Reading>
    decreases ops.len(),
{
    if ops.len() == 0 {
        Seq::empty()
    } else {
        match ops.last() {
            QueueOp::Enqueue(reading) => offered(ops.drop_last()).push(reading),
            _ => offered(ops.drop_last()),
        }
    }
}

/// However producer and consumer take turns, the queue never holds more than
/// `QUEUE_CAPACITY` readings, and it loses none: the readings it took are those
/// that the consumer got, followed by those still in the queue.
pub proof fn lemma_queue_keeps_every_reading(ops: Seq<QueueOp>)
    ensures
        history(ops).queue.items.len() <= QUEUE_CAPACITY,
        history(ops).accepted == history(ops).delivered + history(ops).queue.items,
    decreases ops.len(),
{
    if ops.len() > 0 {
        lemma_queue_keeps_every_reading(ops.drop_last());
        let before = history(ops.drop_last());
        let after = history(ops);
        assert(after == history_step(before, ops.last()));
        assert(after.accepted =~= after.delivered + after.queue.items);
    } else {
        assert(history(ops).accepted =~= history(ops).delivered + history(ops).queue.items);
    }
}

/// First in, first out: what the consumer has got so far is the beginning of
/// what the queue took, in the same order.
pub proof fn lemma_queue_is_fifo(ops: Seq<QueueOp>)
    ensures
        history(ops).delivered.is_prefix_of(history(ops).accepted),
        forall|i: int|
            0 <= i < history(ops).delivered.len() ==> history(ops).delivered[i] == history(
                ops,
            ).accepted[i],
{
    lemma_queue_keeps_every_reading(ops);
    let h = history(ops);
    assert(h.accepted.subrange(0, h.delivered.len() as int) =~= h.delivered);
}

/// A reading that is offered is either taken or handed back, never dropped:
/// the offered readings are as many as the taken and the returned together.
pub proof fn lemma_offered_is_accepted_or_returned(ops: Seq<QueueOp>)
    ensures
        offered(ops).len() == history(ops).accepted.len() + history(ops).returned.len(),
    decreases ops.len(),
{
    if ops.len() > 0 {
        lemma_offered_is_accepted_or_returned(ops.drop_last());
    }
}

/// A full queue hands the reading back and stays as it is; once the consumer
/// has taken one reading out, the same reading is taken.
pub proof fn lemma_full_queue_takes_after_dequeue(q: QueueState, reading: Reading)
    requires
        !q.closed,
        q.items.len() == QUEUE_CAPACITY,
    ensures
        q.enqueue_answer(reading) == Err::<(), EnqueueError>(EnqueueError::Full(reading)),
        q.after_enqueue(reading) == q,
        q.after_dequeue().enqueue_answer(reading).is_ok(),
        q.after_dequeue().after_enqueue(reading).items == q.items.skip(1).push(reading),
{
}

/// A closed queue hands out what it holds, oldest first, and is finished from
/// then on: asked once more than it holds readings, it says so and stays empty.
pub proof fn lemma_closed_queue_drains_then_finishes(q: QueueState)
    requires
        q.closed,
    ensures
        q.items.len() > 0 ==> q.dequeue_answer() == Dequeued::Item(q.items[0])
            && q.after_dequeue().closed && q.after_dequeue().items.len() + 1 == q.items.len(),
        q.items.len() == 0 ==> q.dequeue_answer() == Dequeued::Finished && q.after_dequeue() == q,
        forall|reading: Reading| #[trigger]
            q.after_enqueue(reading) == q && q.enqueue_answer(reading) == Err::<
                (),
                EnqueueError,
            >(EnqueueError::Closed(reading)),
{
}

} // verus!
