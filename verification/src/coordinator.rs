//! The outbound half of the stream: the sequence of credit requests.

use vstd::prelude::*;
use crate::error::ConfigError;
use crate::credit::CreditState;
use crate::credit::valid_batch;
use crate::credit::initial_grant;
use crate::credit::refill_due;
use crate::credit::balance_after;
use crate::credit::grants_after;
use crate::credit::lemma_refill_every_batch;
use crate::message::Acknowledgment;
use crate::message::CreditRequest;
use crate::message::is_grant;

verus! {

/// Where the outbound sequence stands.
#[derive(Clone, Copy, Debug, PartialEq, Eq, Structural)]
pub enum Phase {
    /// Nothing has been sent yet.
    Start,
    /// The opening request is out; acknowledgments are being counted.
    Streaming,
    /// The hand-off is closed and drained: the sequence has ended.
    Closed,
}

/// Produces the outbound sequence of credit requests, one step at a time.
///
/// The coordinator is driven by its caller: `open` yields the first request,
/// `acknowledge` is called for each acknowledgment taken from the hand-off
/// and yields a request where a refill is due, and `close` ends the sequence.
pub struct FlowControlCoordinator {
    phase: Phase,
    credit: CreditState,
    client_id: String,
    start_position: i64,
    observed: Ghost<Seq<Seq<char>>>,
    granted: Ghost<Seq<int>>,
}

impl FlowControlCoordinator {
    /// Where the outbound sequence stands.
    pub closed spec fn phase(&self) -> Phase {
        self.phase
    }

    /// The size of one refill.
    pub closed spec fn batch(&self) -> int {
        self.credit.batch()
    }

    /// The permits that the server still holds.
    pub closed spec fn outstanding(&self) -> int {
        self.credit.outstanding()
    }

    /// The client on whose behalf the stream runs.
    pub closed spec fn client(&self) -> Seq<char> {
        self.client_id@
    }

    /// The position that every request names.
    pub closed spec fn position(&self) -> int {
        self.start_position as int
    }

    /// The identifiers of the acknowledgments counted so far, in the order
    /// in which they were counted.
    pub closed spec fn observed(&self) -> Seq<Seq<char>> {
        self.observed@
    }

    /// The permits of the requests emitted so far, in the order in which
    /// they were emitted.
    pub closed spec fn granted(&self) -> Seq<int> {
        self.granted@
    }

    /// What holds of a coordinator in every phase. Before the opening
    /// request nothing was counted or emitted, and nothing is counted
    /// without it. Once it is out, the balance and the emitted grants are
    /// those that the count of acknowledgments determines.
    pub closed spec fn wf(&self) -> bool {
        &&& self.credit.wf()
        &&& self.start_position >= 0
        &&& self.phase == Phase::Start ==> self.observed@.len() == 0 && self.granted@.len() == 0
            && self.credit.outstanding() == initial_grant(self.credit.batch())
        &&& self.phase == Phase::Streaming ==> self.granted@.len() > 0
        &&& self.granted@.len() == 0 ==> self.observed@.len() == 0
        &&& self.phase == Phase::Streaming || self.granted@.len() > 0 ==> {
            &&& self.granted@ == grants_after(self.credit.batch(), self.observed@.len())
            &&& self.credit.outstanding() == balance_after(self.credit.batch(), self.observed@.len())
        }
    }

    /// A coordinator that has sent nothing yet. The batch size must be
    /// positive and small enough to double, the start position not negative;
    /// the batch size is judged first.
    pub fn new(client_id: String, start_position: i64, batch_size: i64) -> (made: Result<
        FlowControlCoordinator,
        ConfigError,
    >)
        ensures
            made is Ok <==> valid_batch(batch_size as int) && start_position >= 0,
            !valid_batch(batch_size as int) ==> made == Err::<FlowControlCoordinator, ConfigError>(
                ConfigError::InvalidBatchSize,
            ),
            valid_batch(batch_size as int) && start_position < 0 ==> made == Err::<
                FlowControlCoordinator,
                ConfigError,
            >(ConfigError::NegativeStartPosition),
            made is Ok ==> {
                let c = made->Ok_0;
                &&& c.wf()
                &&& c.phase() == Phase::Start
                &&& c.batch() == batch_size
                &&& c.outstanding() == initial_grant(batch_size as int)
                &&& c.client() == client_id@
                &&& c.position() == start_position
                &&& c.observed().len() == 0
                &&& c.granted().len() == 0
            },
    {
        match CreditState::new(batch_size) {
            Err(e) => Err(e),
            Ok(credit) => {
                if start_position < 0 {
                    Err(ConfigError::NegativeStartPosition)
                } else {
                    Ok(
                        FlowControlCoordinator {
                            phase: Phase::Start,
                            credit,
                            client_id,
                            start_position,
                            observed: Ghost(Seq::empty()),
                            granted: Ghost(Seq::empty()),
                        },
                    )
                }
            },
        }
    }

    /// Where the outbound sequence stands.
    pub fn current_phase(&self) -> (phase: Phase)
        ensures
            phase == self.phase(),
    {
        self.phase
    }

    /// The permits that the server still holds.
    pub fn outstanding_permits(&self) -> (permits: i64)
        ensures
            permits == self.outstanding(),
    {
        self.credit.outstanding_permits()
    }

    /// The size of one refill.
    pub fn batch_size(&self) -> (size: i64)
        ensures
            size == self.batch(),
    {
        self.credit.batch_size()
    }

    /// Emits the request that opens the stream: it grants twice the batch
    /// size, and the coordinator starts counting acknowledgments. A
    /// coordinator that has opened before emits nothing and stays as it is.
    pub fn open(&mut self) -> (request: Option<CreditRequest>)
        requires
            old(self).wf(),
        ensures
            final(self).wf(),
            request is Some <==> old(self).phase() == Phase::Start,
            request is Some ==> {
                &&& is_grant(
                    request->Some_0,
                    old(self).client(),
                    old(self).position(),
                    initial_grant(old(self).batch()),
                )
                &&& final(self).phase() == Phase::Streaming
                &&& final(self).granted() == seq![initial_grant(old(self).batch())]
            },
            request is None ==> final(self).phase() == old(self).phase() && final(self).granted()
                == old(self).granted(),
            final(self).outstanding() == old(self).outstanding(),
            final(self).batch() == old(self).batch(),
            final(self).client() == old(self).client(),
            final(self).position() == old(self).position(),
            final(self).observed() == old(self).observed(),
    {
        match self.phase {
            Phase::Start => {
                let permits: i64 = self.credit.outstanding_permits();
                let request = CreditRequest::grant(&self.client_id, self.start_position, permits);
                self.phase = Phase::Streaming;
                proof {
                    self.granted@ = seq![initial_grant(self.credit.batch())];
                }
                Some(request)
            },
            _ => None,
        }
    }

    /// Counts one acknowledgment taken from the hand-off. While streaming,
    /// one permit is used; where the balance thereby falls to the batch
    /// size, a request for one more batch is emitted and the batch is added
    /// to the balance. In any other phase the acknowledgment is not counted
    /// and the coordinator stays as it is.
    pub fn acknowledge(&mut self, ack: &Acknowledgment) -> (request: Option<CreditRequest>)
        requires
            old(self).wf(),
        ensures
            final(self).wf(),
            request is Some <==> old(self).phase() == Phase::Streaming && refill_due(
                old(self).outstanding(),
                old(self).batch(),
            ),
            request is Some ==> {
                &&& is_grant(
                    request->Some_0,
                    old(self).client(),
                    old(self).position(),
                    old(self).batch(),
                )
                &&& final(self).outstanding() == old(self).outstanding() - 1 + old(self).batch()
                &&& final(self).granted() == old(self).granted().push(old(self).batch())
            },
            request is None ==> final(self).granted() == old(self).granted(),
            request is None && old(self).phase() == Phase::Streaming ==> final(self).outstanding()
                == old(self).outstanding() - 1,
            old(self).phase() == Phase::Streaming ==> final(self).observed() == old(self).observed().push(ack@),
            old(self).phase() != Phase::Streaming ==> final(self).observed() == old(self).observed() && final(self).outstanding() == old(self).outstanding(),
            final(self).phase() == old(self).phase(),
            final(self).batch() == old(self).batch(),
            final(self).client() == old(self).client(),
            final(self).position() == old(self).position(),
    {
        match self.phase {
            Phase::Streaming => {
                let refill = self.credit.acknowledge();
                proof {
                    self.observed@ = self.observed@.push(ack@);
                }
                if refill {
                    let batch: i64 = self.credit.batch_size();
                    proof {
                        self.granted@ = self.granted@.push(self.credit.batch());
                    }
                    Some(CreditRequest::grant(&self.client_id, self.start_position, batch))
                } else {
                    None
                }
            },
            _ => None,
        }
    }

    /// Ends the sequence: the hand-off is closed and drained. Nothing is
    /// emitted, and nothing will be.
    pub fn close(&mut self)
        requires
            old(self).wf(),
        ensures
            final(self).wf(),
            final(self).phase() == Phase::Closed,
            final(self).granted() == old(self).granted(),
            final(self).observed() == old(self).observed(),
            final(self).outstanding() == old(self).outstanding(),
            final(self).batch() == old(self).batch(),
            final(self).client() == old(self).client(),
            final(self).position() == old(self).position(),
    {
        self.phase = Phase::Closed;
    }

    /// Once the opening request is out, the requests emitted are exactly
    /// those that the number of counted acknowledgments determines: the
    /// opening grant of twice the batch size, then one batch for every full
    /// batch of acknowledgments; and the balance stays above the batch size.
    pub proof fn lemma_grants_follow_count(&self)
        requires
            self.wf(),
            self.phase() == Phase::Streaming || self.granted().len() > 0,
        ensures
            valid_batch(self.batch()),
            self.granted() == grants_after(self.batch(), self.observed().len()),
            self.outstanding() == balance_after(self.batch(), self.observed().len()),
            self.granted().len() == 1 + (self.observed().len() as int) / self.batch(),
            self.granted()[0] == 2 * self.batch(),
            forall|i: int| 1 <= i < self.granted().len() ==> self.granted()[i] == self.batch(),
            self.batch() < self.outstanding() <= 2 * self.batch(),
            self.outstanding() == 2 * self.batch() - (self.observed().len() as int) % self.batch(),
    {
        lemma_refill_every_batch(self.batch(), self.observed().len());
    }
}

} // verus!
