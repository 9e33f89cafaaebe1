//! The delivery queue: a bounded, ordered hand-off from the handshake tasks
//! to the consumer of the acceptor. A producer that finds the queue full is
//! held back until the consumer has taken an item; nothing that was handed
//! over is discarded while the consumer is still there.

use std::collections::VecDeque;
use vstd::prelude::*;

verus! {

/// The number of delivered, unconsumed items that the acceptor's queue holds.
pub const DELIVERY_CAPACITY: usize = 10;

/// What a producer learns when it hands an item over.
#[derive(Clone, Copy, Debug, PartialEq, Eq, Structural)]
pub enum Offer {
    /// The item took a free slot and is ready for the consumer.
    Delivered,
    /// The queue was full: the producer is held back with its item.
    Held,
    /// The consumer is gone: the item is given up.
    Rejected,
}

/// The mathematical model of a delivery queue.
pub struct QueueView<T> {
    /// The number of slots.
    pub capacity: nat,
    /// The delivered, unconsumed items, oldest first.
    pub ready: Seq<T>,
    /// The items of the producers that are held back, oldest first.
    pub waiting: Seq<T>,
    /// Whether the consumer still reads.
    pub open: bool,
}

impl<T> QueueView<T> {
    /// The queue's invariant: the slots bound what is ready, a producer only
    /// waits while every slot is taken, and a closed queue holds nothing.
    pub open spec fn wf(self) -> bool {
        &&& self.capacity > 0
        &&& self.ready.len() <= self.capacity
        &&& self.waiting.len() > 0 ==> self.ready.len() == self.capacity
        &&& !self.open ==> self.ready.len() == 0 && self.waiting.len() == 0
    }

    /// An open queue of `capacity` slots that holds nothing.
    pub open spec fn fresh(capacity: nat) -> Self {
        QueueView { capacity, ready: Seq::empty(), waiting: Seq::empty(), open: true }
    }

    /// Everything that was handed over and not yet consumed, in the order in
    /// which the consumer will see it.
    pub open spec fn pending(self) -> Seq<T> {
        self.ready + self.waiting
    }

    /// What a producer learns on its next hand-off.
    pub open spec fn offer_outcome(self) -> Offer {
        if !self.open {
            Offer::Rejected
        } else if self.ready.len() < self.capacity {
            Offer::Delivered
        } else {
            Offer::Held
        }
    }

    /// The queue after a producer has handed over `item`.
    pub open spec fn after_offer(self, item: T) -> Self {
        match self.offer_outcome() {
            Offer::Rejected => self,
            Offer::Delivered => QueueView {
                capacity: self.capacity,
                ready: self.ready.push(item),
                waiting: self.waiting,
                open: self.open,
            },
            Offer::Held => QueueView {
                capacity: self.capacity,
                ready: self.ready,
                waiting: self.waiting.push(item),
                open: self.open,
            },
        }
    }

    /// The item that the consumer takes next, if one is ready.
    pub open spec fn head(self) -> Option<T> {
        if self.ready.len() > 0 {
            Some(self.ready[0])
        } else {
            None
        }
    }

    /// The queue after the consumer has taken the head: the slot that came
    /// free goes to the producer that has waited longest.
    pub open spec fn after_take(self) -> Self {
        if self.ready.len() == 0 {
            self
        } else if self.waiting.len() == 0 {
            QueueView {
                capacity: self.capacity,
                ready: self.ready.skip(1),
                waiting: self.waiting,
                open: self.open,
            }
        } else {
            QueueView {
                capacity: self.capacity,
                ready: self.ready.skip(1).push(self.waiting[0]),
                waiting: self.waiting.skip(1),
                open: self.open,
            }
        }
    }

    /// The queue after the consumer has gone away: what it held is given up.
    pub open spec fn after_close(self) -> Self {
        QueueView { capacity: self.capacity, ready: Seq::empty(), waiting: Seq::empty(), open: false }
    }
}

/// A bounded first-in, first-out queue with backpressure.
pub struct DeliveryQueue<T> {
    capacity: usize,
    ready: VecDeque<T>,
    waiting: VecDeque<T>,
    open: bool,
}

impl<T> View for DeliveryQueue<T> {
    type V = QueueView<T>;

    closed spec fn view(&self) -> QueueView<T> {
        QueueView {
            capacity: self.capacity as nat,
            ready: self.ready@,
            waiting: self.waiting@,
            open: self.open,
        }
    }
}

impl<T> DeliveryQueue<T> {
    /// The invariant that every queue built by `new` keeps.
    pub open spec fn wf(&self) -> bool {
        self@.wf()
    }

    /// An open, empty queue of `capacity` slots.
    pub fn new(capacity: usize) -> (queue: Self)
        requires
            capacity > 0,
        ensures
            queue.wf(),
            queue@ == QueueView::<T>::fresh(capacity as nat),
    {
        DeliveryQueue { capacity, ready: VecDeque::new(), waiting: VecDeque::new(), open: true }
    }

    /// The number of slots.
    pub fn capacity(&self) -> (capacity: usize)
        ensures
            capacity == self@.capacity,
    {
        self.capacity
    }

    /// The number of items that are ready for the consumer.
    pub fn len(&self) -> (len: usize)
        ensures
            len == self@.ready.len(),
    {
        self.ready.len()
    }

    /// The number of producers that are held back.
    pub fn held(&self) -> (held: usize)
        ensures
            held == self@.waiting.len(),
    {
        self.waiting.len()
    }

    /// Whether the consumer still reads.
    pub fn is_open(&self) -> (open: bool)
        ensures
            open == self@.open,
    {
        self.open
    }

    /// Hands `item` over on behalf of a producer. With a free slot the item
    /// is ready at once; with none it waits, behind those that waited before
    /// it; once the consumer is gone it is given up.
    pub fn offer(&mut self, item: T) -> (outcome: Offer)
        requires
            old(self).wf(),
        ensures
            final(self).wf(),
            outcome == old(self)@.offer_outcome(),
            final(self)@ == old(self)@.after_offer(item),
    {
        if !self.open {
            Offer::Rejected
        } else if self.ready.len() < self.capacity {
            self.ready.push_back(item);
            Offer::Delivered
        } else {
            self.waiting.push_back(item);
            Offer::Held
        }
    }

    /// Takes the oldest ready item for the consumer, and lets the producer
    /// that has waited longest take the slot that came free.
    pub fn take(&mut self) -> (item: Option<T>)
        requires
            old(self).wf(),
        ensures
            final(self).wf(),
            item == old(self)@.head(),
            final(self)@ == old(self)@.after_take(),
    {
        let item = self.ready.pop_front();
        if item.is_some() {
            let next = self.waiting.pop_front();
            match next {
                Some(released) => {
                    self.ready.push_back(released);
                },
                None => {},
            }
        }
        assert(final(self)@ =~= old(self)@.after_take());
        item
    }

    /// Records that the consumer has gone away. What was ready is given up
    /// with it; the result counts the producers that were held back, each of
    /// which now learns that its hand-off failed.
    pub fn close(&mut self) -> (refused: usize)
        requires
            old(self).wf(),
        ensures
            final(self).wf(),
            refused == old(self)@.waiting.len(),
            final(self)@ == old(self)@.after_close(),
    {
        let refused = self.waiting.len();
        self.ready.clear();
        self.waiting.clear();
        self.open = false;
        refused
    }
}

} // verus!
