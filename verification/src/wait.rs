use vstd::prelude::*;

use crate::state::{observed_is, state_matches};

verus! {

/// How long to pause between two state queries while waiting for a state.
pub const POLL_INTERVAL_MS: u64 = 100;

/// What to do after one state query while waiting for a state.
#[derive(Debug, Clone, Copy, PartialEq, Eq)]
pub enum WaitStep {
    /// The entity is in the awaited state: the wait ends with `true`.
    Reached,
    /// The time is up and the entity is not in the awaited state: the wait
    /// ends with `false`.
    TimedOut,
    /// Pause this many milliseconds, then query again.
    RetryAfter(u64),
}

/// The decision after a state query that returned `observed` (`None` for a
/// failed query), `elapsed_ms` milliseconds after the wait began, when
/// waiting up to `timeout_ms` milliseconds for the state `expected`.
pub open spec fn wait_step_of(
    observed: Option<String>,
    expected: Seq<char>,
    elapsed_ms: int,
    timeout_ms: int,
) -> WaitStep {
    if observed_is(observed, expected) {
        WaitStep::Reached
    } else if elapsed_ms >= timeout_ms {
        WaitStep::TimedOut
    } else {
        WaitStep::RetryAfter(POLL_INTERVAL_MS)
    }
}

/// Decides the next move of a wait for the state `expected`: a query that
/// saw that state ends the wait with success, whatever the time; otherwise
/// the wait ends once `elapsed_ms` reaches `timeout_ms`, and before that it
/// queries again after `POLL_INTERVAL_MS`.
pub fn wait_step(observed: &Option<String>, expected: &str, elapsed_ms: u64, timeout_ms: u64) -> (step:
    WaitStep)
    ensures
        step == wait_step_of(*observed, expected@, elapsed_ms as int, timeout_ms as int),
        (step == WaitStep::Reached) <==> (*observed matches Some(s) && s@ == expected@),
        (step == WaitStep::TimedOut) <==> (!(*observed matches Some(s) && s@ == expected@)
            && elapsed_ms >= timeout_ms),
        (step == WaitStep::RetryAfter(100)) <==> (!(*observed matches Some(s) && s@ == expected@)
            && elapsed_ms < timeout_ms),
{
    if state_matches(observed, expected) {
        WaitStep::Reached
    } else if elapsed_ms >= timeout_ms {
        WaitStep::TimedOut
    } else {
        WaitStep::RetryAfter(POLL_INTERVAL_MS)
    }
}

/// A wait succeeds exactly on a query that saw the awaited state, and then
/// whatever the time is.
pub proof fn lemma_wait_reached_iff_observed(
    observed: Option<String>,
    expected: Seq<char>,
    elapsed_ms: int,
    timeout_ms: int,
)
    ensures
        (wait_step_of(observed, expected, elapsed_ms, timeout_ms) == WaitStep::Reached)
            <==> (observed matches Some(s) && s@ == expected),
{
}

/// Once a wait has timed out, every later query that does not see the
/// awaited state times out too.
pub proof fn lemma_wait_timeout_is_final(
    first: Option<String>,
    later: Option<String>,
    expected: Seq<char>,
    elapsed_first: int,
    elapsed_later: int,
    timeout_ms: int,
)
    requires
        wait_step_of(first, expected, elapsed_first, timeout_ms) == WaitStep::TimedOut,
        elapsed_first <= elapsed_later,
        !(later matches Some(s) && s@ == expected),
    ensures
        wait_step_of(later, expected, elapsed_later, timeout_ms) == WaitStep::TimedOut,
{
}

/// A query that did not see the awaited state ends the wait exactly when
/// the time is up, and before that the wait queries again after 100 ms.
pub proof fn lemma_wait_deadline(
    observed: Option<String>,
    expected: Seq<char>,
    elapsed_ms: int,
    timeout_ms: int,
)
    requires
        !(observed matches Some(s) && s@ == expected),
    ensures
        (wait_step_of(observed, expected, elapsed_ms, timeout_ms) == WaitStep::TimedOut)
            <==> elapsed_ms >= timeout_ms,
        elapsed_ms < timeout_ms ==> wait_step_of(observed, expected, elapsed_ms, timeout_ms)
            == WaitStep::RetryAfter(100),
        POLL_INTERVAL_MS == 100,
{
}

/// A wait queries again only before its time is up, and then after
/// `POLL_INTERVAL_MS`; with no time at all it makes a single query.
pub proof fn lemma_wait_retries_only_in_time(
    observed: Option<String>,
    expected: Seq<char>,
    elapsed_ms: int,
    timeout_ms: int,
)
    requires
        0 <= elapsed_ms,
    ensures
        wait_step_of(observed, expected, elapsed_ms, timeout_ms) is RetryAfter ==> elapsed_ms
            < timeout_ms && wait_step_of(observed, expected, elapsed_ms, timeout_ms)
            == WaitStep::RetryAfter(POLL_INTERVAL_MS),
        timeout_ms == 0 ==> !(wait_step_of(observed, expected, elapsed_ms, timeout_ms) is RetryAfter),
{
}

} // verus!
