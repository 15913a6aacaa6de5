//! The retry policy of the fetch client.
//!
//! A fetch makes up to `max_retries` attempts; every kind of failure is
//! retryable, and between attempts the client backs off `2^attempt` seconds
//! (pure exponential, no jitter, no cap). If all attempts fail, the last
//! observed error is returned; `TimeoutError` stands in only when no attempt
//! ever ran. The loop that performs the attempts lives outside this library;
//! `RetryState` and `retry_step` decide, attempt by attempt, what it does
//! next, and `run_retry_schedule` plays a whole sequence of outcomes through
//! those decisions.

use vstd::arithmetic::power2::{lemma2_to64, pow2};
use vstd::bits::{lemma_u64_pow2_no_overflow, lemma_u64_shl_is_mul};
use vstd::prelude::*;

verus! {

/// Why a fetch attempt failed: a transport-level failure, a body that did
/// not deserialize (with the parser's message and the body for diagnosis),
/// a non-2xx status, or the fallback when no attempt ever ran.
#[derive(Debug, Clone, PartialEq, Eq)]
pub enum ClientError {
    NetworkError(String),
    ParseError(String),
    HttpError(u16),
    TimeoutError,
}

/// Whether an HTTP status code counts as success: the 2xx range.
pub fn status_is_success(code: u16) -> (r: bool)
    ensures
        r == (200 <= code && code < 300),
{
    200 <= code && code < 300
}

/// The backoff before the next attempt, after `attempt` attempts have
/// failed: `2^attempt` seconds. Attempts past 63 would not fit a `u64` of
/// seconds, so the retry ledger never allows them.
pub fn backoff_secs(attempt: u32) -> (r: u64)
    requires
        attempt <= 63,
    ensures
        r == pow2(attempt as nat),
{
    proof {
        lemma_u64_pow2_no_overflow(attempt as nat);
        lemma_u64_shl_is_mul(1u64, attempt as u64);
    }
    1u64 << attempt
}

/// The retry ledger of one fetch call: how many attempts ran, how many are
/// allowed, and the last error seen.
#[derive(Debug, Clone, PartialEq, Eq)]
pub struct RetryState {
    pub attempts: u32,
    pub max_retries: u32,
    pub last_error: Option<ClientError>,
}

/// A well-formed ledger: attempts never pass the allowance, and the
/// allowance keeps every backoff below `2^64` seconds.
pub open spec fn retry_wf(s: RetryState) -> bool {
    s.attempts <= s.max_retries && s.max_retries <= 63
}

/// A fresh ledger: no attempt has run and no error has been seen.
pub fn retry_start(max_retries: u32) -> (s: RetryState)
    requires
        max_retries <= 63,
    ensures
        s == (RetryState { attempts: 0, max_retries, last_error: None::<ClientError> }),
        retry_wf(s),
{
    RetryState { attempts: 0, max_retries, last_error: None }
}

/// What the fetch loop does after one attempt: stop with a result, or sleep
/// the given number of seconds and try again.
#[derive(Debug, PartialEq, Eq)]
pub enum RetryDecision<T> {
    Finished(Result<T, ClientError>),
    Backoff(u64),
}

/// Feeds one attempt's outcome into the ledger. A success finishes at once
/// with that success and leaves the ledger untouched. A failure books the
/// attempt; if attempts remain, the loop is told to back off `2^attempts`
/// seconds (counting the booked attempt), otherwise the failure is final.
pub fn retry_step<T>(s: &mut RetryState, outcome: Result<T, ClientError>) -> (d: RetryDecision<T>)
    requires
        retry_wf(*old(s)),
        old(s).attempts < old(s).max_retries,
    ensures
        retry_wf(*final(s)),
        final(s).max_retries == old(s).max_retries,
        outcome is Ok ==> *final(s) == *old(s) && d == RetryDecision::<T>::Finished(outcome),
        outcome matches Err(e) ==> {
            &&& final(s).attempts == old(s).attempts + 1
            &&& if old(s).attempts + 1 < old(s).max_retries {
                final(s).last_error == Some(e) && d == RetryDecision::<T>::Backoff(
                    pow2((old(s).attempts + 1) as nat) as u64,
                )
            } else {
                final(s).last_error == old(s).last_error && d == RetryDecision::<T>::Finished(
                    Result::<T, ClientError>::Err(e),
                )
            }
        },
{
    match outcome {
        Ok(v) => RetryDecision::Finished(Ok(v)),
        Err(e) => {
            s.attempts = s.attempts + 1;
            if s.attempts < s.max_retries {
                let d = backoff_secs(s.attempts);
                s.last_error = Some(e);
                RetryDecision::Backoff(d)
            } else {
                RetryDecision::Finished(Err(e))
            }
        },
    }
}

/// The result the whole retry loop settles on, starting at attempt `i`:
/// the first success among the allowed attempts, else the last failure,
/// else (when no attempt is allowed at all) `TimeoutError`.
pub open spec fn spec_retry_result<T>(
    outcomes: Seq<Result<T, ClientError>>,
    max: nat,
    i: nat,
) -> Result<T, ClientError>
    recommends
        i <= max,
        max <= outcomes.len(),
    decreases max - i,
{
    if i >= max {
        if i == 0 {
            Err(ClientError::TimeoutError)
        } else {
            outcomes[i - 1]
        }
    } else {
        match outcomes[i as int] {
            Ok(v) => Ok(v),
            Err(_) => spec_retry_result(outcomes, max, i + 1),
        }
    }
}

/// The backoffs the loop sleeps, in order, starting at attempt `i`: one
/// `2^(k+1)` entry for each failed attempt `k` that still leaves attempts.
pub open spec fn spec_retry_delays<T>(
    outcomes: Seq<Result<T, ClientError>>,
    max: nat,
    i: nat,
) -> Seq<nat>
    recommends
        i <= max,
        max <= outcomes.len(),
    decreases max - i,
{
    if i >= max {
        Seq::empty()
    } else {
        match outcomes[i as int] {
            Ok(_) => Seq::empty(),
            Err(_) => if i + 1 < max {
                seq![pow2(i + 1)] + spec_retry_delays(outcomes, max, i + 1)
            } else {
                Seq::empty()
            },
        }
    }
}

/// How many attempts the loop makes, starting at attempt `i`.
pub open spec fn spec_retry_attempts<T>(
    outcomes: Seq<Result<T, ClientError>>,
    max: nat,
    i: nat,
) -> nat
    recommends
        i <= max,
        max <= outcomes.len(),
    decreases max - i,
{
    if i >= max {
        i
    } else {
        match outcomes[i as int] {
            Ok(_) => i + 1,
            Err(_) => spec_retry_attempts(outcomes, max, i + 1),
        }
    }
}

/// With three allowed attempts and a transport that fails every call, the
/// loop makes exactly three attempts, backs off 2 s and then 4 s between
/// them, and returns the final attempt's error.
pub proof fn lemma_retry_timing<T>(outcomes: Seq<Result<T, ClientError>>)
    requires
        outcomes.len() == 3,
        forall|i: int| 0 <= i < 3 ==> (#[trigger] outcomes[i]) is Err,
    ensures
        spec_retry_attempts(outcomes, 3, 0) == 3,
        spec_retry_delays(outcomes, 3, 0) =~= seq![2nat, 4nat],
        spec_retry_result(outcomes, 3, 0) == outcomes[2],
{
    lemma2_to64();
    assert(spec_retry_attempts(outcomes, 3, 3) == 3);
    assert(spec_retry_result(outcomes, 3, 3) == outcomes[2]);
    assert(spec_retry_result(outcomes, 3, 2) == outcomes[2]);
    assert(spec_retry_result(outcomes, 3, 1) == outcomes[2]);
    assert(spec_retry_attempts(outcomes, 3, 2) == 3);
    assert(spec_retry_attempts(outcomes, 3, 1) == 3);
    assert(spec_retry_delays(outcomes, 3, 2) =~= Seq::<nat>::empty());
    assert(spec_retry_delays(outcomes, 3, 1) =~= seq![4nat]);
    assert(spec_retry_delays(outcomes, 3, 0) =~= seq![2nat, 4nat]);
}

/// Plays a whole sequence of attempt outcomes through the retry ledger:
/// hands back the settled result, the backoffs slept in order, and how many
/// attempts ran. `outcomes[i]` is what attempt `i` would return.
pub fn run_retry_schedule<T>(outcomes: Vec<Result<T, ClientError>>, max_retries: u32) -> (r: (
    Result<T, ClientError>,
    Vec<u64>,
    u32,
))
    requires
        max_retries <= 63,
        outcomes@.len() >= max_retries,
    ensures
        r.0 == spec_retry_result(outcomes@, max_retries as nat, 0),
        r.1@.map_values(|d: u64| d as nat) == spec_retry_delays(outcomes@, max_retries as nat, 0),
        r.2 == spec_retry_attempts(outcomes@, max_retries as nat, 0),
{
    let ghost o0 = outcomes@;
    let mut rest = outcomes;
    let mut state = retry_start(max_retries);
    let mut delays: Vec<u64> = Vec::new();
    while state.attempts < state.max_retries
        invariant
            retry_wf(state),
            state.max_retries == max_retries,
            o0 == outcomes@,
            o0.len() >= max_retries,
            state.attempts < state.max_retries || state.attempts == 0,
            rest@ == o0.skip(state.attempts as int),
            state.attempts > 0 ==> o0[state.attempts - 1] is Err && state.last_error == Some(
                o0[state.attempts - 1]->Err_0,
            ),
            state.attempts == 0 ==> state.last_error is None,
            spec_retry_result(o0, max_retries as nat, 0) == spec_retry_result(
                o0,
                max_retries as nat,
                state.attempts as nat,
            ),
            spec_retry_attempts(o0, max_retries as nat, 0) == spec_retry_attempts(
                o0,
                max_retries as nat,
                state.attempts as nat,
            ),
            spec_retry_delays(o0, max_retries as nat, 0) =~= delays@.map_values(|d: u64| d as nat)
                + spec_retry_delays(o0, max_retries as nat, state.attempts as nat),
        decreases max_retries - state.attempts,
    {
        let ghost i = state.attempts as nat;
        let outcome = rest.remove(0);
        proof {
            assert(o0.skip(i as int)[0] == o0[i as int]);
            assert(o0.skip(i as int).remove(0) =~= o0.skip(i as int + 1));
        }
        let was_ok = outcome.is_ok();
        match retry_step(&mut state, outcome) {
            RetryDecision::Finished(r) => {
                let made = if was_ok {
                    state.attempts + 1
                } else {
                    state.attempts
                };
                proof {
                    if o0[i as int] is Ok {
                        assert(spec_retry_result(o0, max_retries as nat, i) == o0[i as int]);
                        assert(spec_retry_attempts(o0, max_retries as nat, i) == i + 1);
                        assert(spec_retry_delays(o0, max_retries as nat, i)
                            =~= Seq::<nat>::empty());
                    } else {
                        assert(spec_retry_result(o0, max_retries as nat, i + 1) == o0[i as int]);
                        assert(spec_retry_attempts(o0, max_retries as nat, i + 1) == i + 1);
                        assert(spec_retry_delays(o0, max_retries as nat, i)
                            =~= Seq::<nat>::empty());
                    }
                    assert(delays@.map_values(|d: u64| d as nat) + Seq::<nat>::empty()
                        =~= delays@.map_values(|d: u64| d as nat));
                }
                return (r, delays, made);
            },
            RetryDecision::Backoff(d) => {
                let ghost dv = delays@;
                delays.push(d);
                proof {
                    lemma_u64_pow2_no_overflow(i + 1);
                    assert(d as nat == pow2(i + 1));
                    assert(spec_retry_delays(o0, max_retries as nat, i) == seq![pow2(i + 1)]
                        + spec_retry_delays(o0, max_retries as nat, i + 1));
                    assert(delays@.map_values(|x: u64| x as nat) =~= dv.map_values(
                        |x: u64| x as nat,
                    ).push(pow2(i + 1)));
                    assert(dv.map_values(|x: u64| x as nat).push(pow2(i + 1))
                        + spec_retry_delays(o0, max_retries as nat, i + 1) =~= dv.map_values(
                        |x: u64| x as nat,
                    ) + spec_retry_delays(o0, max_retries as nat, i));
                }
            },
        }
    }
    proof {
        assert(state.attempts == 0 && max_retries == 0);
        assert(delays@.map_values(|d: u64| d as nat) =~= Seq::<nat>::empty());
    }
    let att = state.attempts;
    (retry_give_up(state), delays, att)
}

/// The result when the loop stops without a decisive attempt: the last
/// error seen, or `TimeoutError` if none ever was.
pub fn retry_give_up<T>(s: RetryState) -> (r: Result<T, ClientError>)
    ensures
        r == (match s.last_error {
            Some(e) => Result::<T, ClientError>::Err(e),
            None => Result::<T, ClientError>::Err(ClientError::TimeoutError),
        }),
{
    match s.last_error {
        Some(e) => Err(e),
        None => Err(ClientError::TimeoutError),
    }
}

} // verus!
