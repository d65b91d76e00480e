//! Retry bookkeeping: a fallible operation is re-invoked until it first
//! succeeds or a fixed attempt budget is exhausted, with no delay between
//! attempts.

use vstd::prelude::*;

verus! {

/// How many times one chapter fetch is attempted before its last error is
/// reported.
pub const MAX_FETCH_ATTEMPTS: usize = 5;

/// The index of the first successful outcome in a run of attempts, if any.
pub open spec fn first_success(outcomes: Seq<bool>) -> Option<int>
    decreases outcomes.len(),
{
    if outcomes.len() == 0 {
        None
    } else if outcomes[0] {
        Some(0)
    } else {
        match first_success(outcomes.drop_first()) {
            None => None,
            Some(i) => Some(i + 1),
        }
    }
}

/// Whether retrying an operation whose attempts come out as `outcomes`
/// reaches a success within `max_attempts` invocations.
pub open spec fn retry_succeeds(outcomes: Seq<bool>, max_attempts: int) -> bool {
    match first_success(outcomes) {
        Some(i) => i < max_attempts,
        None => false,
    }
}

/// How many invocations retrying makes: the operation is re-invoked until
/// its first success, and never more than `max_attempts` times.
pub open spec fn retry_invocations(outcomes: Seq<bool>, max_attempts: int) -> int {
    match first_success(outcomes) {
        Some(i) => if i < max_attempts {
            i + 1
        } else {
            max_attempts
        },
        None => max_attempts,
    }
}

/// Replays a retry run against a fixed schedule of attempt outcomes
/// (`true` is a success). Returns how many attempts were consumed and
/// whether the run ended in success: the first success wins, and after
/// `max_attempts` consecutive failures the run stops in failure.
pub fn run_retry_schedule(outcomes: &Vec<bool>, max_attempts: usize) -> (r: (usize, bool))
    requires
        max_attempts >= 1,
        outcomes@.len() >= max_attempts,
    ensures
        r.0 == retry_invocations(outcomes@, max_attempts as int),
        r.1 == retry_succeeds(outcomes@, max_attempts as int),
{
    let mut tries: usize = 0;
    loop
        invariant
            max_attempts >= 1,
            outcomes@.len() >= max_attempts,
            tries < max_attempts,
            forall|j: int| 0 <= j < tries ==> !outcomes@[j],
        decreases max_attempts - tries,
    {
        let succeeded = outcomes[tries];
        tries = tries + 1;
        if succeeded || tries >= max_attempts {
            proof {
                if succeeded {
                    lemma_first_success_at(outcomes@, tries - 1);
                } else {
                    lemma_no_success_before(outcomes@, max_attempts as int);
                }
            }
            return (tries, succeeded);
        }
    }
}

/// An attempt run whose first success stands at index `i` has
/// `first_success` equal to `Some(i)`.
proof fn lemma_first_success_at(outcomes: Seq<bool>, i: int)
    requires
        0 <= i < outcomes.len(),
        outcomes[i],
        forall|j: int| 0 <= j < i ==> !outcomes[j],
    ensures
        first_success(outcomes) == Some(i),
    decreases i,
{
    if i == 0 {
    } else {
        lemma_first_success_at(outcomes.drop_first(), i - 1);
    }
}

/// A first success, where there is one, stands at a valid index.
proof fn lemma_first_success_in_range(outcomes: Seq<bool>)
    ensures
        match first_success(outcomes) {
            Some(i) => 0 <= i < outcomes.len(),
            None => true,
        },
    decreases outcomes.len(),
{
    if outcomes.len() > 0 && !outcomes[0] {
        lemma_first_success_in_range(outcomes.drop_first());
    }
}

/// An attempt run that fails everywhere before `bound` has no success
/// before `bound`.
proof fn lemma_no_success_before(outcomes: Seq<bool>, bound: int)
    requires
        0 <= bound <= outcomes.len(),
        forall|j: int| 0 <= j < bound ==> !outcomes[j],
    ensures
        match first_success(outcomes) {
            Some(i) => i >= bound,
            None => true,
        },
    decreases bound,
{
    if bound > 0 {
        lemma_no_success_before(outcomes.drop_first(), bound - 1);
        lemma_first_success_in_range(outcomes.drop_first());
    } else {
        lemma_first_success_in_range(outcomes);
    }
}

/// An operation failing exactly `k` times and then succeeding is invoked
/// `k + 1` times in total and the run succeeds, provided `k` lies within
/// the attempt budget.
pub proof fn lemma_retry_first_success_wins(outcomes: Seq<bool>, max_attempts: int, k: int)
    requires
        0 <= k < max_attempts,
        max_attempts <= outcomes.len(),
        outcomes[k],
        forall|j: int| 0 <= j < k ==> !outcomes[j],
    ensures
        retry_succeeds(outcomes, max_attempts),
        retry_invocations(outcomes, max_attempts) == k + 1,
{
    lemma_first_success_at(outcomes, k);
}

/// An operation failing on every attempt within the budget is invoked
/// exactly `max_attempts` times and the run fails.
pub proof fn lemma_retry_exhaustion(outcomes: Seq<bool>, max_attempts: int)
    requires
        0 <= max_attempts <= outcomes.len(),
        forall|j: int| 0 <= j < max_attempts ==> !outcomes[j],
    ensures
        !retry_succeeds(outcomes, max_attempts),
        retry_invocations(outcomes, max_attempts) == max_attempts,
{
    lemma_no_success_before(outcomes, max_attempts);
}

} // verus!
