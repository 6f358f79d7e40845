//! Retry scheduling with exponential backoff.
//!
//! A request is attempted; after each attempt the outcome is recorded here,
//! which decides whether to hand the outcome back or to wait and try again.
//! The caller performs the requests and the waiting.
use vstd::prelude::*;
use vstd::arithmetic::power2::{pow2, lemma_pow2_unfold};
use crate::error::SynapseError;

verus! {

/// Total number of attempts, the first included, unless configured otherwise.
pub const DEFAULT_MAX_ATTEMPTS: u32 = 3;

/// Base delay of the exponential backoff, in milliseconds, unless configured otherwise.
pub const DEFAULT_BASE_DELAY_MS: u64 = 200;

/// The wait after the `failures`-th failed attempt (`failures >= 1`):
/// `base * 2^(failures - 1)` milliseconds, capped at `u64::MAX`.
pub open spec fn backoff_ms(base: u64, failures: nat) -> nat {
    let d: nat = (base * pow2((failures - 1) as nat)) as nat;
    if d > u64::MAX {
        u64::MAX as nat
    } else {
        d
    }
}

/// Each further failure doubles the wait, up to the cap.
pub proof fn lemma_backoff_doubles(base: u64, failures: nat)
    requires
        failures >= 1,
    ensures
        backoff_ms(base, failures + 1) == if 2 * backoff_ms(base, failures) > u64::MAX {
            u64::MAX as nat
        } else {
            2 * backoff_ms(base, failures)
        },
{
    let p = pow2((failures - 1) as nat);
    lemma_pow2_unfold(failures);
    assert(((failures + 1) - 1) as nat == failures);
    assert(pow2(failures) == 2 * p);
    assert(base * pow2(failures) == 2 * (base * p)) by (nonlinear_arith)
        requires
            pow2(failures) == 2 * p,
    ;
}

/// The wait never shrinks as failures accumulate.
pub proof fn lemma_backoff_monotone(base: u64, a: nat, b: nat)
    requires
        1 <= a <= b,
    ensures
        backoff_ms(base, a) <= backoff_ms(base, b),
    decreases b - a,
{
    if a < b {
        lemma_backoff_monotone(base, a, (b - 1) as nat);
        lemma_backoff_doubles(base, (b - 1) as nat);
    }
}

/// The wait in milliseconds after the `failures`-th failed attempt.
pub fn backoff_delay_ms(base: u64, failures: u32) -> (d: u64)
    requires
        failures >= 1,
    ensures
        d == backoff_ms(base, failures as nat),
{
    let mut d: u64 = base;
    let mut k: u32 = 1;
    proof {
        assert(pow2(0) == 1) by {
            vstd::arithmetic::power2::lemma2_to64();
        }
        assert(((1nat - 1) as nat) == 0nat);
        assert(base * pow2(0) == base);
        assert(backoff_ms(base, 1) == base);
    }
    while k < failures
        invariant
            1 <= k <= failures,
            d == backoff_ms(base, k as nat),
        decreases failures - k,
    {
        proof {
            lemma_backoff_doubles(base, k as nat);
        }
        if d > u64::MAX / 2 {
            d = u64::MAX;
        } else {
            d = d * 2;
        }
        k = k + 1;
    }
    d
}

/// What to do after an attempt.
pub enum RetryStep<T> {
    /// Stop and hand this outcome to the caller.
    Done(Result<T, SynapseError>),
    /// Wait this many milliseconds, then attempt again.
    Wait(u64),
}

/// The bookkeeping of one request's retries.
pub struct RetryState {
    max_attempts: u32,
    base_delay_ms: u64,
    attempts: u32,
}

/// The abstract state of a request's retries.
pub struct RetryView {
    /// Attempts allowed in all, the first included.
    pub max_attempts: nat,
    /// Base delay of the exponential backoff, in milliseconds.
    pub base_delay_ms: u64,
    /// Attempts made so far.
    pub attempts: nat,
}

impl View for RetryState {
    type V = RetryView;

    closed spec fn view(&self) -> RetryView {
        RetryView {
            max_attempts: self.max_attempts as nat,
            base_delay_ms: self.base_delay_ms,
            attempts: self.attempts as nat,
        }
    }
}

/// The decision after one more attempt, made in state `v`, ended with `outcome`:
/// a success, or an error that is not transient, or an error on the last
/// allowed attempt ends the request; any other error waits for the backoff
/// of the attempts made so far and tries again.
pub open spec fn next_step<T>(v: RetryView, outcome: Result<T, SynapseError>) -> RetryStep<T> {
    let made = v.attempts + 1;
    match outcome {
        Ok(x) => RetryStep::Done(Ok(x)),
        Err(e) => if e.transient() && made < v.max_attempts {
            RetryStep::Wait(backoff_ms(v.base_delay_ms, made) as u64)
        } else {
            RetryStep::Done(Err(e))
        },
    }
}

/// The state after one more attempt.
pub open spec fn after_attempt(v: RetryView) -> RetryView {
    RetryView { attempts: v.attempts + 1, ..v }
}

/// How many attempts a request makes from state `v` when its attempts end
/// with `outcomes`, in order (counting stops when the outcomes run out).
pub open spec fn attempts_made<T>(v: RetryView, outcomes: Seq<Result<T, SynapseError>>) -> nat
    decreases outcomes.len(),
{
    if outcomes.len() == 0 {
        0
    } else {
        match next_step(v, outcomes[0]) {
            RetryStep::Done(_) => 1,
            RetryStep::Wait(_) => 1 + attempts_made(after_attempt(v), outcomes.drop_first()),
        }
    }
}

/// What a request hands back from state `v` when its attempts end with
/// `outcomes`, in order; `None` when the outcomes run out before it stops.
pub open spec fn run_outcome<T>(v: RetryView, outcomes: Seq<Result<T, SynapseError>>) -> Option<
    Result<T, SynapseError>,
>
    decreases outcomes.len(),
{
    if outcomes.len() == 0 {
        None
    } else {
        match next_step(v, outcomes[0]) {
            RetryStep::Done(r) => Some(r),
            RetryStep::Wait(_) => run_outcome(after_attempt(v), outcomes.drop_first()),
        }
    }
}

impl RetryState {
    /// A fresh schedule allowing `max_attempts` attempts in all (at least one).
    pub fn new(max_attempts: u32, base_delay_ms: u64) -> (s: RetryState)
        ensures
            s@.max_attempts == if max_attempts < 1 { 1 } else { max_attempts as nat },
            s@.base_delay_ms == base_delay_ms,
            s@.attempts == 0,
    {
        RetryState {
            max_attempts: if max_attempts < 1 { 1 } else { max_attempts },
            base_delay_ms,
            attempts: 0,
        }
    }

    /// Whether another attempt is allowed.
    pub fn can_attempt(&self) -> (b: bool)
        ensures
            b == (self@.attempts < self@.max_attempts),
    {
        self.attempts < self.max_attempts
    }

    /// Attempts made so far.
    pub fn attempts(&self) -> (n: u32)
        ensures
            n == self@.attempts,
    {
        self.attempts
    }

    /// Records the outcome of one more attempt and decides what follows.
    pub fn record<T>(&mut self, outcome: Result<T, SynapseError>) -> (step: RetryStep<T>)
        requires
            old(self)@.attempts < old(self)@.max_attempts,
        ensures
            final(self)@ == after_attempt(old(self)@),
            step == next_step(old(self)@, outcome),
            step is Wait ==> final(self)@.attempts < final(self)@.max_attempts,
    {
        self.attempts = self.attempts + 1;
        match outcome {
            Ok(x) => RetryStep::Done(Ok(x)),
            Err(e) => {
                if e.is_transient() && self.attempts < self.max_attempts {
                    RetryStep::Wait(backoff_delay_ms(self.base_delay_ms, self.attempts))
                } else {
                    RetryStep::Done(Err(e))
                }
            },
        }
    }
}

/// A success is handed back at once, never retried.
pub proof fn lemma_success_not_retried<T>(v: RetryView, x: T)
    ensures
        next_step(v, Ok::<T, SynapseError>(x)) == RetryStep::<T>::Done(Ok(x)),
{
}

/// An error that is not transient (such as a 4xx response) is handed back at
/// once, never retried.
pub proof fn lemma_permanent_error_not_retried<T>(v: RetryView, e: SynapseError)
    requires
        !e.transient(),
    ensures
        next_step(v, Err::<T, SynapseError>(e)) == RetryStep::<T>::Done(Err(e)),
{
}

/// With a single attempt allowed (retries disabled), the first failure is
/// handed back at once.
pub proof fn lemma_single_attempt_fails_fast<T>(v: RetryView, e: SynapseError)
    requires
        v.max_attempts == 1,
        v.attempts == 0,
    ensures
        next_step(v, Err::<T, SynapseError>(e)) == RetryStep::<T>::Done(Err(e)),
{
}

/// Whatever the outcomes, a request is attempted at most `max_attempts`
/// times in all.
pub proof fn lemma_attempts_bounded<T>(v: RetryView, outcomes: Seq<Result<T, SynapseError>>)
    requires
        v.attempts < v.max_attempts,
    ensures
        v.attempts + attempts_made(v, outcomes) <= v.max_attempts,
    decreases outcomes.len(),
{
    if outcomes.len() > 0 {
        match next_step(v, outcomes[0]) {
            RetryStep::Done(_) => {},
            RetryStep::Wait(_) => {
                lemma_attempts_bounded(after_attempt(v), outcomes.drop_first());
            },
        }
    }
}

/// While every attempt fails with a transient error, the request is retried
/// until all `max_attempts` attempts are used.
pub proof fn lemma_transient_failures_use_all_attempts<T>(
    v: RetryView,
    outcomes: Seq<Result<T, SynapseError>>,
)
    requires
        v.attempts < v.max_attempts,
        outcomes.len() >= v.max_attempts - v.attempts,
        forall|i: int| 0 <= i < outcomes.len() ==> (#[trigger] outcomes[i] is Err && outcomes[i]->Err_0.transient()),
    ensures
        v.attempts + attempts_made(v, outcomes) == v.max_attempts,
    decreases outcomes.len(),
{
    assert(outcomes[0] is Err && outcomes[0]->Err_0.transient());
    if v.attempts + 1 < v.max_attempts {
        let rest = outcomes.drop_first();
        assert forall|i: int| 0 <= i < rest.len() implies (#[trigger] rest[i] is Err && rest[i]->Err_0.transient()) by {
            assert(rest[i] == outcomes[i + 1]);
        }
        lemma_transient_failures_use_all_attempts(after_attempt(v), rest);
    }
}

/// The retry law over a whole request: when it stops, it has made at least
/// one attempt and at most `max_attempts` in all; every attempt but the last
/// failed with a transient error; what it hands back is the last attempt's
/// outcome; and it stops before using all attempts only on a success or an
/// error that is not transient.
pub proof fn lemma_retry_run<T>(v: RetryView, outcomes: Seq<Result<T, SynapseError>>)
    requires
        v.attempts < v.max_attempts,
        run_outcome(v, outcomes) is Some,
    ensures
        ({
            let n = attempts_made(v, outcomes);
            &&& 1 <= n
            &&& v.attempts + n <= v.max_attempts
            &&& n <= outcomes.len()
            &&& run_outcome(v, outcomes) == Some(outcomes[n - 1])
            &&& forall|i: int|
                0 <= i < n - 1 ==> (#[trigger] outcomes[i] is Err && outcomes[i]->Err_0.transient())
            &&& v.attempts + n < v.max_attempts ==> (outcomes[n - 1] is Ok || !outcomes[n
                - 1]->Err_0.transient())
        }),
    decreases outcomes.len(),
{
    match next_step(v, outcomes[0]) {
        RetryStep::Done(_) => {},
        RetryStep::Wait(_) => {
            let rest = outcomes.drop_first();
            let w = after_attempt(v);
            lemma_retry_run(w, rest);
            let m = attempts_made(w, rest);
            assert(attempts_made(v, outcomes) == 1 + m);
            assert(outcomes[m as int] == rest[m - 1]);
            assert forall|i: int| 0 <= i < m implies (#[trigger] outcomes[i] is Err
                && outcomes[i]->Err_0.transient()) by {
                if i > 0 {
                    assert(outcomes[i] == rest[i - 1]);
                }
            }
        },
    }
}

/// A request always stops within `max_attempts` attempts: given that many
/// outcomes, it has handed one back.
pub proof fn lemma_retry_run_ends<T>(v: RetryView, outcomes: Seq<Result<T, SynapseError>>)
    requires
        v.attempts < v.max_attempts,
        outcomes.len() >= v.max_attempts - v.attempts,
    ensures
        run_outcome(v, outcomes) is Some,
    decreases outcomes.len(),
{
    match next_step(v, outcomes[0]) {
        RetryStep::Done(_) => {},
        RetryStep::Wait(_) => {
            lemma_retry_run_ends(after_attempt(v), outcomes.drop_first());
        },
    }
}

/// The first retry waits the base delay.
pub proof fn lemma_first_wait_is_base<T>(v: RetryView, e: SynapseError)
    requires
        v.attempts == 0,
        v.max_attempts > 1,
        e.transient(),
    ensures
        next_step(v, Err::<T, SynapseError>(e)) == RetryStep::<T>::Wait(v.base_delay_ms),
{
    assert(((1nat - 1) as nat) == 0nat);
    assert(pow2(0) == 1) by {
        vstd::arithmetic::power2::lemma2_to64();
    }
    assert(v.base_delay_ms * pow2(0) == v.base_delay_ms);
}

/// The backoff is exponential: when two transient failures in a row each
/// lead to a retry, the second wait is twice the first, up to `u64::MAX`.
pub proof fn lemma_waits_double<T>(v: RetryView, e1: SynapseError, e2: SynapseError)
    requires
        v.attempts + 2 < v.max_attempts,
        e1.transient(),
        e2.transient(),
    ensures
        next_step(v, Err::<T, SynapseError>(e1)) is Wait,
        next_step(after_attempt(v), Err::<T, SynapseError>(e2)) is Wait,
        ({
            let d1 = next_step(v, Err::<T, SynapseError>(e1))->Wait_0 as int;
            let d2 = next_step(after_attempt(v), Err::<T, SynapseError>(e2))->Wait_0 as int;
            d2 == if 2 * d1 > u64::MAX { u64::MAX as int } else { 2 * d1 }
        }),
{
    lemma_backoff_doubles(v.base_delay_ms, v.attempts + 1);
    assert(after_attempt(v).attempts + 1 == v.attempts + 2);
}

} // verus!
