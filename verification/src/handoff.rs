//! The bounded, ordered hand-off between the two halves of the stream.

use vstd::prelude::*;
use crate::error::ConfigError;
use crate::message::Acknowledgment;

verus! {

/// The bound to give the queue where the caller has no better one.
pub const DEFAULT_CAPACITY: usize = 10;

/// What became of an acknowledgment that was offered to the queue.
#[derive(Clone, Debug, PartialEq, Eq)]
pub enum Submission {
    /// The queue took it.
    Accepted,
    /// The queue is at its bound: the acknowledgment comes back, and the
    /// sender waits until one has been taken.
    Full(Acknowledgment),
    /// One side of the queue is gone: the acknowledgment comes back.
    Disconnected(Acknowledgment),
}

/// What the queue hands to the side that takes from it.
#[derive(Clone, Debug, PartialEq, Eq)]
pub enum Delivery {
    /// The acknowledgment that has waited longest.
    Item(Acknowledgment),
    /// Nothing waits, but more may come.
    Empty,
    /// Nothing waits, and the sending side is closed: nothing will come.
    Closed,
}

/// A first-in, first-out queue of acknowledgments with a fixed bound.
pub struct HandoffQueue {
    items: Vec<Acknowledgment>,
    capacity: usize,
    sender_open: bool,
    receiver_open: bool,
}

impl HandoffQueue {
    /// The identifiers of the waiting acknowledgments, oldest first.
    pub closed spec fn queued(&self) -> Seq<Seq<char>> {
        self.items@.map_values(|a: Acknowledgment| a@)
    }

    /// The most acknowledgments that may wait at once.
    pub closed spec fn bound(&self) -> nat {
        self.capacity as nat
    }

    /// Whether the sending side may still offer acknowledgments.
    pub closed spec fn sender_open(&self) -> bool {
        self.sender_open
    }

    /// Whether the taking side is still there.
    pub closed spec fn receiver_open(&self) -> bool {
        self.receiver_open
    }

    /// The queue holds no more than its bound, and the bound is positive.
    pub open spec fn wf(&self) -> bool {
        &&& 1 <= self.bound()
        &&& self.queued().len() <= self.bound()
    }

    /// An empty queue, open on both sides, that holds up to `capacity`
    /// acknowledgments. A capacity of zero is refused.
    pub fn new(capacity: usize) -> (made: Result<HandoffQueue, ConfigError>)
        ensures
            made is Ok <==> capacity >= 1,
            made is Err ==> made == Err::<HandoffQueue, ConfigError>(ConfigError::ZeroCapacity),
            made is Ok ==> {
                let q = made->Ok_0;
                &&& q.wf()
                &&& q.bound() == capacity
                &&& q.queued().len() == 0
                &&& q.sender_open()
                &&& q.receiver_open()
            },
    {
        if capacity == 0 {
            Err(ConfigError::ZeroCapacity)
        } else {
            Ok(HandoffQueue { items: Vec::new(), capacity, sender_open: true, receiver_open: true })
        }
    }

    /// How many acknowledgments wait.
    pub fn len(&self) -> (n: usize)
        ensures
            n == self.queued().len(),
    {
        self.items.len()
    }

    /// The most acknowledgments that may wait at once.
    pub fn capacity(&self) -> (n: usize)
        ensures
            n == self.bound(),
    {
        self.capacity
    }

    /// Whether the queue is at its bound.
    pub fn is_full(&self) -> (full: bool)
        ensures
            full == (self.queued().len() >= self.bound()),
    {
        self.items.len() >= self.capacity
    }

    /// Whether both sides of the queue are still there.
    pub fn is_connected(&self) -> (connected: bool)
        ensures
            connected == (self.sender_open() && self.receiver_open()),
    {
        self.sender_open && self.receiver_open
    }

    /// Offers an acknowledgment. With a side gone it comes back as
    /// `Disconnected`; with the queue at its bound it comes back as `Full`;
    /// otherwise it joins the queue behind all that wait.
    pub fn try_submit(&mut self, ack: Acknowledgment) -> (outcome: Submission)
        requires
            old(self).wf(),
        ensures
            final(self).wf(),
            final(self).bound() == old(self).bound(),
            final(self).sender_open() == old(self).sender_open(),
            final(self).receiver_open() == old(self).receiver_open(),
            !(old(self).sender_open() && old(self).receiver_open()) ==> outcome
                == Submission::Disconnected(ack) && final(self).queued() == old(self).queued(),
            old(self).sender_open() && old(self).receiver_open() && old(self).queued().len()
                >= old(self).bound() ==> outcome == Submission::Full(ack) && final(self).queued()
                == old(self).queued(),
            old(self).sender_open() && old(self).receiver_open() && old(self).queued().len() < old(self).bound() ==> outcome == Submission::Accepted && final(self).queued() == old(self).queued().push(ack@),
    {
        if !(self.sender_open && self.receiver_open) {
            Submission::Disconnected(ack)
        } else if self.items.len() >= self.capacity {
            Submission::Full(ack)
        } else {
            let ghost id = ack@;
            self.items.push(ack);
            assert(self.queued() =~= old(self).queued().push(id));
            Submission::Accepted
        }
    }

    /// Takes the acknowledgment that has waited longest. With nothing
    /// waiting the answer is `Closed` where the sending side is closed, and
    /// `Empty` where it is not.
    pub fn take(&mut self) -> (outcome: Delivery)
        requires
            old(self).wf(),
        ensures
            final(self).wf(),
            final(self).bound() == old(self).bound(),
            final(self).sender_open() == old(self).sender_open(),
            final(self).receiver_open() == old(self).receiver_open(),
            old(self).queued().len() > 0 ==> {
                &&& outcome is Item
                &&& outcome->Item_0@ == old(self).queued()[0]
                &&& final(self).queued() == old(self).queued().drop_first()
            },
            old(self).queued().len() == 0 ==> final(self).queued() == old(self).queued(),
            old(self).queued().len() == 0 && old(self).sender_open() ==> outcome == Delivery::Empty,
            old(self).queued().len() == 0 && !old(self).sender_open() ==> outcome
                == Delivery::Closed,
    {
        if self.items.len() > 0 {
            let ack = self.items.remove(0);
            assert(self.queued() =~= old(self).queued().drop_first());
            Delivery::Item(ack)
        } else if self.sender_open {
            Delivery::Empty
        } else {
            Delivery::Closed
        }
    }

    /// Closes the sending side: what waits can still be taken, and nothing
    /// more is accepted.
    pub fn close_sender(&mut self)
        requires
            old(self).wf(),
        ensures
            final(self).wf(),
            !final(self).sender_open(),
            final(self).receiver_open() == old(self).receiver_open(),
            final(self).bound() == old(self).bound(),
            final(self).queued() == old(self).queued(),
    {
        self.sender_open = false;
    }

    /// Closes the taking side: nothing more is accepted.
    pub fn close_receiver(&mut self)
        requires
            old(self).wf(),
        ensures
            final(self).wf(),
            !final(self).receiver_open(),
            final(self).sender_open() == old(self).sender_open(),
            final(self).bound() == old(self).bound(),
            final(self).queued() == old(self).queued(),
    {
        self.receiver_open = false;
    }
}

} // verus!
