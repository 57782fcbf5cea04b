//! The credit balance and the arithmetic of refills.

use vstd::prelude::*;
use crate::error::ConfigError;
use vstd::arithmetic::div_mod::lemma_fundamental_div_mod;
use vstd::arithmetic::div_mod::lemma_fundamental_div_mod_converse;
use vstd::arithmetic::div_mod::lemma_mod_bound;

verus! {

/// The largest batch size whose double still fits in an `i64`.
pub const MAX_BATCH_SIZE: i64 = 4611686018427387903;

/// The batch size to run with where the caller has no better one.
pub const DEFAULT_BATCH_SIZE: i64 = 3;

/// A batch size that a credit balance can be run with.
pub open spec fn valid_batch(batch: int) -> bool {
    1 <= batch <= MAX_BATCH_SIZE
}

/// The permits granted by the request that opens the stream.
pub open spec fn initial_grant(batch: int) -> int {
    2 * batch
}

/// Whether one more acknowledgment, taken from a balance of `outstanding`,
/// brings the balance down to the batch size and so calls for a refill.
pub open spec fn refill_due(outstanding: int, batch: int) -> bool {
    outstanding - 1 <= batch
}

/// The balance after one acknowledgment: one permit is used, and a batch is
/// added where the refill is due.
pub open spec fn balance_after_ack(outstanding: int, batch: int) -> int {
    if refill_due(outstanding, batch) {
        outstanding - 1 + batch
    } else {
        outstanding - 1
    }
}

/// The balance after `acks` acknowledgments, counted from the initial grant.
pub open spec fn balance_after(batch: int, acks: nat) -> int
    decreases acks,
{
    if acks == 0 {
        initial_grant(batch)
    } else {
        balance_after_ack(balance_after(batch, (acks - 1) as nat), batch)
    }
}

/// The permits of every request sent up to and including the one, if any,
/// that the `acks`-th acknowledgment caused: the opening grant first, then
/// one batch per refill.
pub open spec fn grants_after(batch: int, acks: nat) -> Seq<int>
    decreases acks,
{
    if acks == 0 {
        seq![initial_grant(batch)]
    } else {
        let earlier = grants_after(batch, (acks - 1) as nat);
        if refill_due(balance_after(batch, (acks - 1) as nat), batch) {
            earlier.push(batch)
        } else {
            earlier
        }
    }
}

/// How quotient and remainder by `d` move from `n` to `n + 1`: the remainder
/// grows by one until it would reach `d`, where it falls to zero and the
/// quotient grows by one.
pub proof fn lemma_div_mod_successor(n: int, d: int)
    requires
        0 <= n,
        1 <= d,
    ensures
        0 <= n % d < d,
        n % d + 1 < d ==> (n + 1) / d == n / d && (n + 1) % d == n % d + 1,
        n % d + 1 == d ==> (n + 1) / d == n / d + 1 && (n + 1) % d == 0,
{
    lemma_fundamental_div_mod(n, d);
    lemma_mod_bound(n, d);
    let q = n / d;
    let r = n % d;
    if r + 1 < d {
        assert(n + 1 == q * d + (r + 1)) by (nonlinear_arith)
            requires
                n == d * q + r,
        ;
        lemma_fundamental_div_mod_converse(n + 1, d, q, r + 1);
    } else {
        assert(n + 1 == (q + 1) * d + 0) by (nonlinear_arith)
            requires
                n == d * q + r,
                r + 1 == d,
        ;
        lemma_fundamental_div_mod_converse(n + 1, d, q + 1, 0);
    }
}

/// With a valid batch size the balance never leaves the band above the batch
/// size and up to its double, and a refill falls due on every `batch`-th
/// acknowledgment and on no other: after `acks` acknowledgments the balance is
/// `2 * batch - acks % batch`, and `acks / batch` refills have been sent.
pub proof fn lemma_refill_every_batch(batch: int, acks: nat)
    requires
        valid_batch(batch),
    ensures
        balance_after(batch, acks) == 2 * batch - (acks as int) % batch,
        batch < balance_after(batch, acks) <= 2 * batch,
        refill_due(balance_after(batch, acks), batch) <==> (acks as int + 1) % batch == 0,
        grants_after(batch, acks).len() == 1 + (acks as int) / batch,
        grants_after(batch, acks)[0] == 2 * batch,
        forall|i: int|
            1 <= i < grants_after(batch, acks).len() ==> grants_after(batch, acks)[i] == batch,
    decreases acks,
{
    lemma_div_mod_successor(acks as int, batch);
    if acks > 0 {
        lemma_refill_every_batch(batch, (acks - 1) as nat);
        lemma_div_mod_successor(acks as int - 1, batch);
    } else {
        lemma_fundamental_div_mod_converse(0, batch, 0, 0);
    }
}

/// The coordinator's credit balance: the permits the server still holds, and
/// the size of one refill.
#[derive(Clone, Copy, Debug, PartialEq, Eq)]
pub struct CreditState {
    outstanding_permits: i64,
    batch_size: i64,
}

impl CreditState {
    /// The permits that the server still holds.
    pub closed spec fn outstanding(&self) -> int {
        self.outstanding_permits as int
    }

    /// The size of one refill.
    pub closed spec fn batch(&self) -> int {
        self.batch_size as int
    }

    /// The batch size is valid and the balance lies above it, at most at its
    /// double.
    pub open spec fn wf(&self) -> bool {
        &&& valid_batch(self.batch())
        &&& self.batch() < self.outstanding() <= 2 * self.batch()
    }

    /// The balance right after the opening grant of twice `batch_size`.
    /// A batch size that is not positive, or too large to double, is refused.
    pub fn new(batch_size: i64) -> (made: Result<CreditState, ConfigError>)
        ensures
            made is Ok <==> valid_batch(batch_size as int),
            made is Err ==> made == Err::<CreditState, ConfigError>(ConfigError::InvalidBatchSize),
            made is Ok ==> {
                &&& made->Ok_0.wf()
                &&& made->Ok_0.batch() == batch_size
                &&& made->Ok_0.outstanding() == initial_grant(batch_size as int)
            },
    {
        if batch_size < 1 || batch_size > MAX_BATCH_SIZE {
            Err(ConfigError::InvalidBatchSize)
        } else {
            Ok(CreditState { outstanding_permits: batch_size + batch_size, batch_size })
        }
    }

    /// The permits that the server still holds.
    pub fn outstanding_permits(&self) -> (permits: i64)
        ensures
            permits == self.outstanding(),
    {
        self.outstanding_permits
    }

    /// The size of one refill.
    pub fn batch_size(&self) -> (size: i64)
        ensures
            size == self.batch(),
    {
        self.batch_size
    }

    /// Uses one permit for an acknowledged event. The result says whether the
    /// balance thereby fell to the batch size; if so a batch has been added to
    /// it, and the caller owes the server a request for that batch.
    pub fn acknowledge(&mut self) -> (refill: bool)
        requires
            old(self).wf(),
        ensures
            final(self).wf(),
            final(self).batch() == old(self).batch(),
            refill == refill_due(old(self).outstanding(), old(self).batch()),
            final(self).outstanding() == balance_after_ack(old(self).outstanding(), old(self).batch()),
    {
        self.outstanding_permits = self.outstanding_permits - 1;
        if self.outstanding_permits <= self.batch_size {
            self.outstanding_permits = self.outstanding_permits + self.batch_size;
            true
        } else {
            false
        }
    }
}

} // verus!
