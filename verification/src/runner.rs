//! The retry policy of the process runner.
//!
//! Every daemon invocation may be repeated: after an attempt whose stderr is
//! non-empty the runner sleeps one fixed interval and tries again, up to a
//! fixed ceiling of retries beyond the initial attempt. When the ceiling is
//! exhausted the last output is used regardless — exhausting the retries is
//! not itself a failure. Non-empty stderr is a deliberately loose proxy for
//! a transient failure; calling code's error handling is tuned to it.
//!
//! The loop itself performs process invocations and sleeps, so it runs in
//! the unverified shell; its one decision per iteration is [`should_retry`],
//! and [`used_attempt`] states which attempt's output the whole loop ends up
//! using, given which attempts would have produced non-empty stderr.

use vstd::prelude::*;

verus! {

/// How many times an invocation is retried after the initial attempt.
pub const RETRY_LIMIT: u64 = 20;

/// How many seconds the runner sleeps between attempts.
pub const RETRY_SLEEP_SECS: u64 = 1;

/// The runner's one decision: after an attempt, retry exactly when that
/// attempt's stderr was non-empty and fewer than [`RETRY_LIMIT`] retries
/// have been made.
pub fn should_retry(retries_done: u64, stderr_empty: bool) -> (r: bool)
    ensures
        r == (!stderr_empty && retries_done < RETRY_LIMIT),
{
    !stderr_empty && retries_done < RETRY_LIMIT
}

/// The attempt whose output the retry loop uses, counting from attempt `i`:
/// the first attempt at or after `i` whose stderr is empty, or attempt
/// [`RETRY_LIMIT`] when stderr stays non-empty through the whole ceiling.
/// `nonempty[k]` says whether attempt `k` produces non-empty stderr.
pub open spec fn used_attempt_from(nonempty: Seq<bool>, i: int) -> int
    decreases RETRY_LIMIT - i,
{
    if i >= RETRY_LIMIT {
        RETRY_LIMIT as int
    } else if !nonempty[i] {
        i
    } else {
        used_attempt_from(nonempty, i + 1)
    }
}

/// The attempt whose output a whole run of the retry loop uses.
pub open spec fn used_attempt(nonempty: Seq<bool>) -> int {
    used_attempt_from(nonempty, 0)
}

/// Law (retry ceiling): an invocation whose stderr is non-empty on every
/// attempt is retried exactly [`RETRY_LIMIT`] times, and the output of that
/// last attempt is the one parsed. Non-empty stderr up to the ceiling is
/// enough: once the ceiling is reached, the last attempt's output is used no
/// matter what its stderr held.
pub proof fn lemma_retry_ceiling(nonempty: Seq<bool>)
    requires
        forall|k: int| 0 <= k < RETRY_LIMIT ==> nonempty[k],
    ensures
        used_attempt(nonempty) == RETRY_LIMIT,
{
    lemma_retry_ceiling_from(nonempty, 0);
}

proof fn lemma_retry_ceiling_from(nonempty: Seq<bool>, i: int)
    requires
        0 <= i <= RETRY_LIMIT,
        forall|k: int| 0 <= k < RETRY_LIMIT ==> nonempty[k],
    ensures
        used_attempt_from(nonempty, i) == RETRY_LIMIT,
    decreases RETRY_LIMIT - i,
{
    if i < RETRY_LIMIT {
        lemma_retry_ceiling_from(nonempty, i + 1);
    }
}

/// Law (first success wins): when attempt `k` is the first whose stderr is
/// empty, the run stops there and uses that attempt's output.
pub proof fn lemma_retry_first_success(nonempty: Seq<bool>, k: int)
    requires
        0 <= k <= RETRY_LIMIT,
        !nonempty[k],
        forall|j: int| 0 <= j < k ==> nonempty[j],
    ensures
        used_attempt(nonempty) == k,
{
    lemma_retry_first_success_from(nonempty, 0, k);
}

proof fn lemma_retry_first_success_from(nonempty: Seq<bool>, i: int, k: int)
    requires
        0 <= i <= k <= RETRY_LIMIT,
        !nonempty[k],
        forall|j: int| 0 <= j < k ==> nonempty[j],
    ensures
        used_attempt_from(nonempty, i) == k,
    decreases RETRY_LIMIT - i,
{
    if i < k {
        lemma_retry_first_success_from(nonempty, i + 1, k);
    }
}

/// Replays the loop's decisions against a record of which attempts produce
/// non-empty stderr, returning the attempt whose output is used: iterating
/// [`should_retry`] realizes exactly the run that [`used_attempt`] states.
/// The unverified runner performs one daemon invocation per step and takes
/// these same decisions.
pub fn select_attempt(nonempty: &Vec<bool>) -> (r: usize)
    requires
        nonempty@.len() > RETRY_LIMIT,
    ensures
        r == used_attempt(nonempty@),
        r <= RETRY_LIMIT,
{
    let mut attempt: usize = 0;
    loop
        invariant
            nonempty@.len() > RETRY_LIMIT,
            attempt <= RETRY_LIMIT,
            forall|j: int| 0 <= j < attempt ==> nonempty@[j],
        decreases RETRY_LIMIT - attempt,
    {
        let nonempty_here = nonempty[attempt];
        if !should_retry(attempt as u64, !nonempty_here) {
            proof {
                if !nonempty_here {
                    lemma_retry_first_success(nonempty@, attempt as int);
                } else {
                    lemma_retry_ceiling(nonempty@);
                }
            }
            return attempt;
        }
        attempt = attempt + 1;
    }
}

} // verus!
