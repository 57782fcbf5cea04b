//! Both halves of the stream and the hand-off between them, as one state
//! that its caller steps: a read on one side, a take on the other.

use vstd::prelude::*;
use crate::error::ConfigError;
use crate::credit::valid_batch;
use crate::credit::initial_grant;
use crate::credit::refill_due;
use crate::credit::grants_after;
use crate::credit::balance_after;
use crate::message::Acknowledgment;
use crate::message::CreditRequest;
use crate::message::is_grant;
use crate::handoff::HandoffQueue;
use crate::handoff::Submission;
use crate::handoff::Delivery;
use crate::consumer::StreamConsumer;
use crate::consumer::ConsumerAction;
use crate::consumer::ReadOutcome;
use crate::error::SessionError;
use crate::error::TransportFault;
use crate::coordinator::FlowControlCoordinator;
use crate::coordinator::Phase;

verus! {

/// What became of one read that was handed to the session.
#[derive(Clone, Debug, PartialEq, Eq)]
pub enum Reception {
    /// The read brought an event, and its acknowledgment is in the queue.
    Forwarded,
    /// The read brought a frame without an event: nothing was queued.
    Ignored,
    /// The queue is at its bound. The read comes back untouched, to be
    /// handed in again once an acknowledgment has been taken.
    Suspended(ReadOutcome),
    /// The session has ended with this error.
    Terminated(SessionError),
}

/// What one take from the queue brought the outbound half.
#[derive(Clone, Debug, PartialEq, Eq)]
pub enum Drain {
    /// This acknowledgment was counted; with it comes the request, if any,
    /// that it made due.
    Consumed(Acknowledgment, Option<CreditRequest>),
    /// Nothing waits, but the inbound half still runs.
    Pending,
    /// Nothing waits and nothing will: the outbound sequence has ended.
    Finished,
}

/// The permits that each of `requests` grants, in order.
pub open spec fn permits_of(requests: Seq<CreditRequest>) -> Seq<int> {
    requests.map_values(|r: CreditRequest| r.granted_permits as int)
}

/// One streaming session: the consumer, the queue and the coordinator.
pub struct Session {
    consumer: StreamConsumer,
    queue: HandoffQueue,
    coordinator: FlowControlCoordinator,
    forwarded: Ghost<Seq<Seq<char>>>,
}

impl Session {
    /// The identifiers of the events whose acknowledgments entered the
    /// queue, in the order in which the events were read.
    pub closed spec fn forwarded(&self) -> Seq<Seq<char>> {
        self.forwarded@
    }

    /// The identifiers that wait in the queue, oldest first.
    pub closed spec fn queued(&self) -> Seq<Seq<char>> {
        self.queue.queued()
    }

    /// The identifiers that the coordinator has counted, in its order.
    pub closed spec fn observed(&self) -> Seq<Seq<char>> {
        self.coordinator.observed()
    }

    /// The permits of the requests emitted so far, in order.
    pub closed spec fn granted(&self) -> Seq<int> {
        self.coordinator.granted()
    }

    /// The bound of the queue.
    pub closed spec fn capacity(&self) -> nat {
        self.queue.bound()
    }

    /// The error that ended the inbound half, if it has ended.
    pub closed spec fn failure(&self) -> Option<SessionError> {
        self.consumer.failure()
    }

    /// Where the outbound sequence stands.
    pub closed spec fn phase(&self) -> Phase {
        self.coordinator.phase()
    }

    /// The size of one refill.
    pub closed spec fn batch(&self) -> int {
        self.coordinator.batch()
    }

    /// The permits that the server still holds.
    pub closed spec fn outstanding(&self) -> int {
        self.coordinator.outstanding()
    }

    /// The client on whose behalf the stream runs.
    pub closed spec fn client(&self) -> Seq<char> {
        self.coordinator.client()
    }

    /// The position that every request names.
    pub closed spec fn position(&self) -> int {
        self.coordinator.position()
    }

    /// What holds of a session between any two steps.
    pub closed spec fn wf(&self) -> bool {
        &&& self.queue.wf()
        &&& self.coordinator.wf()
        &&& self.coordinator.phase() != Phase::Start
        &&& self.coordinator.granted().len() > 0
        &&& self.forwarded@ == self.coordinator.observed() + self.queue.queued()
        &&& self.queue.receiver_open()
        &&& self.consumer.failure() is None <==> self.queue.sender_open()
        &&& self.coordinator.phase() == Phase::Closed ==> self.queue.queued().len() == 0
            && !self.queue.sender_open()
        &&& self.consumer.client() == self.coordinator.client()
    }

    /// Starts a session and emits the request that opens the stream, which
    /// grants twice the batch size. The batch size is judged first, then the
    /// start position, then the capacity of the queue.
    pub fn start(client_id: String, start_position: i64, batch_size: i64, capacity: usize) -> (made:
        Result<(Session, CreditRequest), ConfigError>)
        ensures
            made is Ok <==> valid_batch(batch_size as int) && start_position >= 0 && capacity >= 1,
            !valid_batch(batch_size as int) ==> made is Err && made->Err_0
                == ConfigError::InvalidBatchSize,
            valid_batch(batch_size as int) && start_position < 0 ==> made is Err && made->Err_0
                == ConfigError::NegativeStartPosition,
            valid_batch(batch_size as int) && start_position >= 0 && capacity == 0 ==> made is Err
                && made->Err_0 == ConfigError::ZeroCapacity,
            made is Ok ==> {
                let s = made->Ok_0.0;
                &&& s.wf()
                &&& is_grant(
                    made->Ok_0.1,
                    client_id@,
                    start_position as int,
                    initial_grant(batch_size as int),
                )
                &&& s.phase() == Phase::Streaming
                &&& s.failure() is None
                &&& s.batch() == batch_size
                &&& s.outstanding() == initial_grant(batch_size as int)
                &&& s.capacity() == capacity
                &&& s.client() == client_id@
                &&& s.position() == start_position
                &&& s.forwarded() == Seq::<Seq<char>>::empty()
                &&& s.queued() == Seq::<Seq<char>>::empty()
                &&& s.observed() == Seq::<Seq<char>>::empty()
                &&& s.granted() == seq![initial_grant(batch_size as int)]
            },
    {
        let consumer = StreamConsumer::new(client_id.clone());
        let mut coordinator = match FlowControlCoordinator::new(
            client_id,
            start_position,
            batch_size,
        ) {
            Ok(coordinator) => coordinator,
            Err(e) => {
                return Err(e);
            },
        };
        let queue = match HandoffQueue::new(capacity) {
            Ok(queue) => queue,
            Err(e) => {
                return Err(e);
            },
        };
        let request = coordinator.open().unwrap();
        let session = Session { consumer, queue, coordinator, forwarded: Ghost(Seq::empty()) };
        proof {
            assert(session.queue.queued() =~= Seq::<Seq<char>>::empty());
            assert(session.coordinator.observed() =~= Seq::<Seq<char>>::empty());
            assert(session.forwarded@ =~= session.coordinator.observed() + session.queue.queued());
        }
        Ok((session, request))
    }

    /// How many acknowledgments wait in the queue.
    pub fn backlog(&self) -> (n: usize)
        ensures
            n == self.queued().len(),
    {
        self.queue.len()
    }

    /// The bound of the queue.
    pub fn queue_capacity(&self) -> (n: usize)
        ensures
            n == self.capacity(),
    {
        self.queue.capacity()
    }

    /// The error that ended the inbound half, if it has ended.
    pub fn error(&self) -> (failure: Option<SessionError>)
        ensures
            failure == self.failure(),
    {
        self.consumer.error()
    }

    /// Where the outbound sequence stands.
    pub fn current_phase(&self) -> (phase: Phase)
        ensures
            phase == self.phase(),
    {
        self.coordinator.current_phase()
    }

    /// The permits that the server still holds.
    pub fn outstanding_permits(&self) -> (permits: i64)
        ensures
            permits == self.outstanding(),
    {
        self.coordinator.outstanding_permits()
    }

    /// The size of one refill.
    pub fn batch_size(&self) -> (size: i64)
        ensures
            size == self.batch(),
    {
        self.coordinator.batch_size()
    }

    /// One step of the inbound half: takes what a read brought.
    ///
    /// A session that has ended answers with its error and changes nothing.
    /// Otherwise an event's acknowledgment joins the queue behind all that
    /// wait, unless the queue is at its bound: then the read comes back
    /// untouched. A frame without an event changes nothing. A closed or
    /// failed stream ends the session and closes the sending side of the
    /// queue; what waits there stays. The outbound half is never touched.
    pub fn receive(&mut self, outcome: ReadOutcome) -> (reception: Reception)
        requires
            old(self).wf(),
        ensures
            final(self).wf(),
            final(self).batch() == old(self).batch(),
            final(self).capacity() == old(self).capacity(),
            final(self).client() == old(self).client(),
            final(self).position() == old(self).position(),
            final(self).phase() == old(self).phase(),
            final(self).outstanding() == old(self).outstanding(),
            final(self).observed() == old(self).observed(),
            final(self).granted() == old(self).granted(),
            reception is Forwarded <==> old(self).failure() is None && outcome.carries_event()
                && old(self).queued().len() < old(self).capacity(),
            reception is Forwarded ==> {
                &&& final(self).queued() == old(self).queued().push(outcome.event_id())
                &&& final(self).forwarded() == old(self).forwarded().push(outcome.event_id())
                &&& final(self).failure() is None
            },
            !(reception is Forwarded) ==> final(self).queued() == old(self).queued() && final(self).forwarded() == old(self).forwarded(),
            old(self).failure() is Some ==> reception == Reception::Terminated(
                old(self).failure()->Some_0,
            ) && final(self).failure() == old(self).failure(),
            old(self).failure() is None && outcome.carries_event() && old(self).queued().len()
                >= old(self).capacity() ==> reception == Reception::Suspended(outcome) && final(self).failure() is None,
            old(self).failure() is None && outcome is Message && !outcome.carries_event()
                ==> reception == Reception::Ignored && final(self).failure() is None,
            old(self).failure() is None && outcome is EndOfStream ==> reception
                == Reception::Terminated(SessionError::Transport(TransportFault::PeerClosed))
                && final(self).failure() == Some(
                SessionError::Transport(TransportFault::PeerClosed),
            ),
            old(self).failure() is None && outcome is Failure ==> reception
                == Reception::Terminated(SessionError::Transport(TransportFault::ReadFailed))
                && final(self).failure() == Some(
                SessionError::Transport(TransportFault::ReadFailed),
            ),
    {
        if self.consumer.error().is_none() && outcome.has_event() && self.queue.is_full() {
            return Reception::Suspended(outcome);
        }
        match self.consumer.on_read(outcome) {
            ConsumerAction::Submit(ack) => {
                let ghost id = ack@;
                match self.queue.try_submit(ack) {
                    Submission::Accepted => {
                        proof {
                            self.forwarded@ = self.forwarded@.push(id);
                            assert(self.forwarded@ =~= self.coordinator.observed()
                                + self.queue.queued());
                        }
                        Reception::Forwarded
                    },
                    _ => {
                        let error = self.consumer.on_submit_rejected();
                        self.queue.close_sender();
                        Reception::Terminated(error)
                    },
                }
            },
            ConsumerAction::Skip => Reception::Ignored,
            ConsumerAction::Terminate(error) => {
                self.queue.close_sender();
                Reception::Terminated(error)
            },
        }
    }

    /// One step of the outbound half: takes from the queue.
    ///
    /// The acknowledgment that has waited longest is counted: one permit is
    /// used, and where the balance thereby falls to the batch size a request
    /// for one more batch is emitted and the batch added to the balance.
    /// With nothing waiting, the sequence ends if the inbound half has
    /// ended, and nothing changes if it has not. The inbound half is never
    /// touched.
    pub fn drain(&mut self) -> (drained: Drain)
        requires
            old(self).wf(),
        ensures
            final(self).wf(),
            final(self).batch() == old(self).batch(),
            final(self).capacity() == old(self).capacity(),
            final(self).client() == old(self).client(),
            final(self).position() == old(self).position(),
            final(self).failure() == old(self).failure(),
            final(self).forwarded() == old(self).forwarded(),
            old(self).queued().len() > 0 ==> {
                &&& drained is Consumed
                &&& drained->Consumed_0@ == old(self).queued()[0]
                &&& final(self).queued() == old(self).queued().drop_first()
                &&& final(self).observed() == old(self).observed().push(old(self).queued()[0])
                &&& final(self).phase() == Phase::Streaming
                &&& drained->Consumed_1 is Some <==> refill_due(
                    old(self).outstanding(),
                    old(self).batch(),
                )
                &&& drained->Consumed_1 is Some ==> {
                    &&& is_grant(
                        drained->Consumed_1->Some_0,
                        old(self).client(),
                        old(self).position(),
                        old(self).batch(),
                    )
                    &&& final(self).granted() == old(self).granted().push(old(self).batch())
                    &&& final(self).outstanding() == old(self).outstanding() - 1 + old(self).batch()
                }
                &&& drained->Consumed_1 is None ==> {
                    &&& final(self).granted() == old(self).granted()
                    &&& final(self).outstanding() == old(self).outstanding() - 1
                }
            },
            old(self).queued().len() == 0 ==> {
                &&& final(self).queued() == old(self).queued()
                &&& final(self).observed() == old(self).observed()
                &&& final(self).granted() == old(self).granted()
                &&& final(self).outstanding() == old(self).outstanding()
            },
            old(self).queued().len() == 0 && old(self).failure() is None ==> drained
                == Drain::Pending && final(self).phase() == old(self).phase(),
            old(self).queued().len() == 0 && old(self).failure() is Some ==> drained
                == Drain::Finished && final(self).phase() == Phase::Closed,
    {
        match self.queue.take() {
            Delivery::Item(ack) => {
                let request = self.coordinator.acknowledge(&ack);
                proof {
                    assert(self.forwarded@ =~= self.coordinator.observed() + self.queue.queued());
                }
                Drain::Consumed(ack, request)
            },
            Delivery::Empty => Drain::Pending,
            Delivery::Closed => {
                self.coordinator.close();
                Drain::Finished
            },
        }
    }

    /// Runs the outbound half until nothing waits: every queued
    /// acknowledgment is counted, oldest first, and the requests that fell
    /// due come back in the order in which they were emitted. If the inbound
    /// half has ended, the outbound sequence ends with the last of them;
    /// if it has not, the outbound half stays as it was, waiting.
    pub fn drain_all(&mut self) -> (requests: Vec<CreditRequest>)
        requires
            old(self).wf(),
        ensures
            final(self).wf(),
            final(self).batch() == old(self).batch(),
            final(self).capacity() == old(self).capacity(),
            final(self).client() == old(self).client(),
            final(self).position() == old(self).position(),
            final(self).failure() == old(self).failure(),
            final(self).forwarded() == old(self).forwarded(),
            final(self).queued().len() == 0,
            final(self).observed() == old(self).forwarded(),
            final(self).granted() == old(self).granted() + permits_of(requests@),
            final(self).granted() == grants_after(old(self).batch(), old(self).forwarded().len()),
            forall|i: int|
                0 <= i < requests@.len() ==> is_grant(
                    #[trigger] requests@[i],
                    old(self).client(),
                    old(self).position(),
                    old(self).batch(),
                ),
            old(self).failure() is Some ==> final(self).phase() == Phase::Closed,
            old(self).failure() is None ==> final(self).phase() == Phase::Streaming,
    {
        let mut requests: Vec<CreditRequest> = Vec::new();
        let mut waiting = true;
        proof {
            assert(self.granted() =~= old(self).granted() + permits_of(requests@));
            self.lemma_closed_means_drained();
        }
        while waiting
            invariant
                self.wf(),
                self.batch() == old(self).batch(),
                self.capacity() == old(self).capacity(),
                self.client() == old(self).client(),
                self.position() == old(self).position(),
                self.failure() == old(self).failure(),
                self.forwarded() == old(self).forwarded(),
                self.granted() == old(self).granted() + permits_of(requests@),
                forall|i: int|
                    0 <= i < requests@.len() ==> is_grant(
                        #[trigger] requests@[i],
                        old(self).client(),
                        old(self).position(),
                        old(self).batch(),
                    ),
                !waiting ==> self.queued().len() == 0,
                !waiting && self.failure() is Some ==> self.phase() == Phase::Closed,
                self.failure() is None ==> self.phase() == Phase::Streaming,
            decreases self.queued().len() + (if waiting { 1nat } else { 0nat }),
        {
            let ghost before = self.granted();
            let ghost earlier = requests@;
            match self.drain() {
                Drain::Consumed(_, Some(request)) => {
                    requests.push(request);
                    proof {
                        assert(permits_of(requests@) =~= permits_of(earlier).push(
                            request.granted_permits as int,
                        ));
                        assert(self.granted() =~= old(self).granted() + permits_of(requests@));
                    }
                },
                Drain::Consumed(_, None) => {},
                _ => {
                    waiting = false;
                },
            }
        }
        proof {
            self.lemma_first_in_first_out();
            assert(self.observed() + self.queued() =~= self.observed());
            self.lemma_grants_follow_count();
        }
        requests
    }

    /// Acknowledgments leave the queue in the order in which their events
    /// were read, none lost, none twice: what the coordinator has counted,
    /// followed by what still waits, is what was forwarded.
    pub proof fn lemma_first_in_first_out(&self)
        requires
            self.wf(),
        ensures
            self.forwarded() == self.observed() + self.queued(),
            self.observed().is_prefix_of(self.forwarded()),
            self.observed().len() + self.queued().len() == self.forwarded().len(),
    {
    }

    /// The queue never holds more than its bound.
    pub proof fn lemma_backlog_bounded(&self)
        requires
            self.wf(),
        ensures
            1 <= self.capacity(),
            self.queued().len() <= self.capacity(),
    {
    }

    /// The requests emitted are exactly those that the number of counted
    /// acknowledgments determines: the opening grant of twice the batch
    /// size, then one batch for every full batch of acknowledgments. The
    /// balance stays above the batch size and at most at its double.
    pub proof fn lemma_grants_follow_count(&self)
        requires
            self.wf(),
        ensures
            valid_batch(self.batch()),
            self.granted() == grants_after(self.batch(), self.observed().len()),
            self.outstanding() == balance_after(self.batch(), self.observed().len()),
            self.granted().len() == 1 + (self.observed().len() as int) / self.batch(),
            self.granted()[0] == 2 * self.batch(),
            forall|i: int| 1 <= i < self.granted().len() ==> self.granted()[i] == self.batch(),
            self.batch() < self.outstanding() <= 2 * self.batch(),
            self.outstanding() == 2 * self.batch() - (self.observed().len() as int) % self.batch(),
    {
        self.coordinator.lemma_grants_follow_count();
    }

    /// The outbound sequence ends only after the inbound half has ended and
    /// the queue is drained: by then every forwarded acknowledgment has been
    /// counted. While the inbound half runs, the outbound half streams.
    pub proof fn lemma_closed_means_drained(&self)
        requires
            self.wf(),
        ensures
            self.phase() == Phase::Streaming || self.phase() == Phase::Closed,
            self.failure() is None ==> self.phase() == Phase::Streaming,
            self.phase() == Phase::Closed ==> {
                &&& self.failure() is Some
                &&& self.queued().len() == 0
                &&& self.observed() == self.forwarded()
            },
    {
        if self.phase() == Phase::Closed {
            assert(self.coordinator.observed() + self.queue.queued()
                =~= self.coordinator.observed());
        }
    }
}

} // verus!
