//! Bounded retrying of a fallible operation.
//!
//! Every outbound call is wrapped in the same discipline: invoke the
//! operation, and while it fails and attempts remain, invoke it again;
//! the first success, or the last failure, is what the caller sees.  The
//! operation itself runs outside the library, so the discipline is a
//! state machine here: the surrounding program performs one attempt,
//! records its outcome, and asks whether another attempt follows.  The
//! operation must be safe to run more than once; that is the caller's
//! obligation.

use vstd::prelude::*;

verus! {

/// Whether another attempt follows, once `used` attempts out of `bound`
/// have been made and the last one ended as `success` says.
pub open spec fn retry_again(used: nat, bound: nat, success: bool) -> bool {
    !success && used < bound
}

/// The progress of one retry sequence: how many attempts its bound
/// allows, and how many have been made.
pub struct RetryState {
    pub bound: u64,
    pub used: u64,
}

impl RetryState {
    /// A retry sequence never makes more attempts than its positive bound.
    pub open spec fn wf(self) -> bool {
        1 <= self.bound && self.used <= self.bound
    }

    /// Begins a retry sequence with a positive attempt bound; no attempt
    /// has been made yet.
    pub fn new(bound: u64) -> (r: Self)
        requires
            1 <= bound,
        ensures
            r.bound == bound,
            r.used == 0,
            r.wf(),
    {
        RetryState { bound, used: 0 }
    }

    /// Records the outcome of one attempt and says whether the operation
    /// is to be invoked again: only after a failure, and only while the
    /// bound leaves room.
    pub fn record(&mut self, success: bool) -> (again: bool)
        requires
            old(self).wf(),
            old(self).used < old(self).bound,
        ensures
            final(self).bound == old(self).bound,
            final(self).used == old(self).used + 1,
            final(self).wf(),
            again == retry_again(final(self).used as nat, final(self).bound as nat, success),
    {
        self.used = self.used + 1;
        !success && self.used < self.bound
    }
}

/// How many attempts a retry sequence makes when attempt `i` comes out
/// as `outcomes[i]`: one attempt always runs, and another follows it
/// exactly when `retry_again` asks for one.
pub open spec fn attempts_taken(outcomes: Seq<bool>, bound: nat) -> nat
    recommends
        1 <= bound,
        bound <= outcomes.len(),
    decreases bound,
{
    if outcomes.len() == 0 || !retry_again(1, bound, outcomes[0]) {
        1
    } else {
        1 + attempts_taken(outcomes.drop_first(), (bound - 1) as nat)
    }
}

/// Whether a retry sequence ends in success: some attempt within the
/// bound succeeds.
pub open spec fn retry_delivers(outcomes: Seq<bool>, bound: nat) -> bool {
    exists|i: int| 0 <= i < bound && i < outcomes.len() && outcomes[i]
}

/// Law: an operation that fails exactly `k` times and then succeeds,
/// with `k` below the bound, is invoked exactly `k + 1` times, and the
/// sequence delivers the success.
pub proof fn lemma_retry_first_success(outcomes: Seq<bool>, bound: nat, k: int)
    requires
        1 <= bound,
        bound <= outcomes.len(),
        0 <= k < bound,
        forall|i: int| 0 <= i < k ==> !outcomes[i],
        outcomes[k],
    ensures
        attempts_taken(outcomes, bound) == k + 1,
        retry_delivers(outcomes, bound),
    decreases k,
{
    if k == 0 {
        assert(outcomes[0]);
    } else {
        let rest = outcomes.drop_first();
        assert(!outcomes[0]);
        assert forall|i: int| 0 <= i < k - 1 implies !rest[i] by {
            assert(rest[i] == outcomes[i + 1]);
        }
        assert(rest[k - 1] == outcomes[k]);
        lemma_retry_first_success(rest, (bound - 1) as nat, k - 1);
    }
}

/// Law: an operation that always fails is invoked exactly `bound` times,
/// and the sequence delivers nothing.
pub proof fn lemma_retry_all_fail(outcomes: Seq<bool>, bound: nat)
    requires
        1 <= bound,
        bound <= outcomes.len(),
        forall|i: int| 0 <= i < bound ==> !outcomes[i],
    ensures
        attempts_taken(outcomes, bound) == bound,
        !retry_delivers(outcomes, bound),
    decreases bound,
{
    if bound > 1 {
        let rest = outcomes.drop_first();
        assert forall|i: int| 0 <= i < bound - 1 implies !rest[i] by {
            assert(rest[i] == outcomes[i + 1]);
        }
        lemma_retry_all_fail(rest, (bound - 1) as nat);
    }
}

} // verus!
