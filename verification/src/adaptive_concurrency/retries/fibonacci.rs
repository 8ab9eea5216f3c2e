//! Retries whose delays grow like the Fibonacci numbers, up to a limit.

use crate::adaptive_concurrency::retries::logic::JitterMode;
use crate::adaptive_concurrency::retries::logic::RetryAction;
use crate::adaptive_concurrency::retries::logic::RetryLogic;
use crate::duration::millis_span;
use crate::duration::shorter;
use crate::duration::whole_millis;
use crate::duration::Duration;
use crate::duration::MAX_NANOS;
use vstd::prelude::*;

verus! {

/// The `n`-th Fibonacci number, from 0 and 1 on.
pub open spec fn fibonacci(n: nat) -> nat
    decreases n,
{
    if n < 2 {
        n
    } else {
        fibonacci((n - 1) as nat) + fibonacci((n - 2) as nat)
    }
}

/// The low 64 bits of the whole milliseconds in a span: the bound on a drawn delay.
pub open spec fn jitter_bound(span: nat) -> nat {
    whole_millis(span) % 0x1_0000_0000_0000_0000
}

/// Whether a delay can be drawn for a span. It can for every span shorter than 2^64 milliseconds;
/// beyond, it cannot for a multiple of that.
pub open spec fn jitterable(span: nat) -> bool {
    whole_millis(span) == 0 || jitter_bound(span) > 0
}

/// The delay that a random number gives for a span: no delay below a millisecond, else from one
/// millisecond up to the bound.
pub open spec fn full_jitter(span: nat, random: u64) -> nat {
    if whole_millis(span) == 0 {
        0
    } else {
        millis_span(random as nat % jitter_bound(span) + 1)
    }
}

/// What a policy holds. Spans are in nanoseconds.
pub struct FibonacciModel {
    pub remaining_attempts: nat,
    pub previous: nat,
    pub current: nat,
    pub jitter: nat,
    pub max: nat,
    pub mode: JitterMode,
}

impl FibonacciModel {
    /// A fresh policy.
    pub open spec fn fresh(
        attempts: nat,
        initial: nat,
        max: nat,
        mode: JitterMode,
        random: u64,
    ) -> FibonacciModel {
        FibonacciModel {
            remaining_attempts: attempts,
            previous: 0,
            current: initial,
            jitter: full_jitter(initial, random),
            max,
            mode,
        }
    }

    /// The delay before the next retry.
    pub open spec fn backoff(self) -> nat {
        match self.mode {
            JitterMode::NoJitter => self.current,
            JitterMode::Full => self.jitter,
        }
    }

    /// The delay that follows the current one, before jitter.
    pub open spec fn following(self) -> nat {
        shorter(self.previous + self.current, self.max)
    }

    /// Whether a further retry can be prepared: one is left, and the sum of the last two delays is
    /// a span that a delay can be drawn for.
    pub open spec fn advanceable(self) -> bool {
        &&& self.remaining_attempts > 0
        &&& self.previous + self.current <= MAX_NANOS
        &&& jitterable(self.following())
    }

    /// The policy after one more retry.
    pub open spec fn advance(self, random: u64) -> FibonacciModel {
        FibonacciModel {
            remaining_attempts: (self.remaining_attempts - 1) as nat,
            previous: self.current,
            current: self.following(),
            jitter: full_jitter(self.following(), random),
            ..self
        }
    }

    /// The policy after one more retry for each random number.
    pub open spec fn after(self, randoms: Seq<u64>) -> FibonacciModel
        decreases randoms.len(),
    {
        if randoms.len() == 0 {
            self
        } else {
            self.after(randoms.drop_last()).advance(randoms.last())
        }
    }
}

/// `rand::random` at `u64`. Nothing is claimed of the number: it differs from call to call.
#[verifier::external_body]
fn random_u64() -> u64 {
    rand::random::<u64>()
}

/// Whether a delay can be drawn for a span.
pub fn can_jitter(d: Duration) -> (r: bool)
    ensures
        r == jitterable(d@),
{
    let millis: u128 = d.as_millis();
    millis == 0 || millis % 0x1_0000_0000_0000_0000u128 > 0
}

/// The delay that a random number gives for a span.
pub fn full_jitter_of(d: Duration, random: u64) -> (r: Duration)
    requires
        jitterable(d@),
    ensures
        r@ == full_jitter(d@, random),
{
    let millis: u128 = d.as_millis();
    if millis == 0 {
        return Duration::from_millis(0);
    }
    let bound: u64 = (millis % 0x1_0000_0000_0000_0000u128) as u64;
    Duration::from_millis(random % bound + 1)
}

/// The error that ended a call, as far as a policy tells errors apart.
pub enum ServiceError<'a, E> {
    /// An error of the kind that the retry logic judges.
    Expected(&'a E),
    /// The call timed out.
    Elapsed,
    /// An error of any other kind.
    Unexpected,
}

/// Retries a bounded number of times. Each delay is the sum of the two before it, up to a limit.
#[derive(Debug)]
pub struct FibonacciRetryPolicy<L> {
    remaining_attempts: usize,
    previous_duration: Duration,
    current_duration: Duration,
    jitter_mode: JitterMode,
    current_jitter_duration: Duration,
    max_duration: Duration,
    logic: L,
}

/// A retry that waits to be made: the delay before it, and the policy for what follows.
#[derive(Debug)]
pub struct RetryPolicyFuture<L> {
    pub delay: Duration,
    pub policy: FibonacciRetryPolicy<L>,
}

impl<L> View for FibonacciRetryPolicy<L> {
    type V = FibonacciModel;

    closed spec fn view(&self) -> FibonacciModel {
        FibonacciModel {
            remaining_attempts: self.remaining_attempts as nat,
            previous: self.previous_duration@,
            current: self.current_duration@,
            jitter: self.current_jitter_duration@,
            max: self.max_duration@,
            mode: self.jitter_mode,
        }
    }
}

impl<L> FibonacciRetryPolicy<L> {
    /// The retry logic of this policy.
    pub closed spec fn logic(&self) -> L {
        self.logic
    }
}

impl<L: Clone> Clone for FibonacciRetryPolicy<L> {
    fn clone(&self) -> (r: Self)
        ensures
            r@ == self@,
            cloned(self.logic(), r.logic()),
    {
        FibonacciRetryPolicy {
            remaining_attempts: self.remaining_attempts,
            previous_duration: self.previous_duration,
            current_duration: self.current_duration,
            jitter_mode: self.jitter_mode,
            current_jitter_duration: self.current_jitter_duration,
            max_duration: self.max_duration,
            logic: self.logic.clone(),
        }
    }
}

impl<L: RetryLogic> FibonacciRetryPolicy<L> {
    /// A policy for `remaining_attempts` retries, the first after `initial_backoff`, none after
    /// more than `max_duration` (but for the first).
    pub fn new(
        remaining_attempts: usize,
        initial_backoff: Duration,
        max_duration: Duration,
        logic: L,
        jitter_mode: JitterMode,
    ) -> (r: Self)
        requires
            jitterable(initial_backoff@),
        ensures
            r.logic() == logic,
            exists|random: u64|
                r@ == #[trigger] FibonacciModel::fresh(
                    remaining_attempts as nat,
                    initial_backoff@,
                    max_duration@,
                    jitter_mode,
                    random,
                ),
    {
        Self::new_with_random(
            remaining_attempts,
            initial_backoff,
            max_duration,
            logic,
            jitter_mode,
            random_u64(),
        )
    }

    /// A policy whose first delay is drawn with the given random number.
    pub fn new_with_random(
        remaining_attempts: usize,
        initial_backoff: Duration,
        max_duration: Duration,
        logic: L,
        jitter_mode: JitterMode,
        random: u64,
    ) -> (r: Self)
        requires
            jitterable(initial_backoff@),
        ensures
            r.logic() == logic,
            r@ == FibonacciModel::fresh(
                remaining_attempts as nat,
                initial_backoff@,
                max_duration@,
                jitter_mode,
                random,
            ),
    {
        FibonacciRetryPolicy {
            remaining_attempts,
            previous_duration: Duration::from_secs(0),
            current_duration: initial_backoff,
            jitter_mode,
            current_jitter_duration: full_jitter_of(initial_backoff, random),
            max_duration,
            logic,
        }
    }

    /// Whether an attempt is left.
    pub fn has_attempts(&self) -> (r: bool)
        ensures
            r == (self@.remaining_attempts > 0),
    {
        self.remaining_attempts > 0
    }

    /// Whether a further retry can be prepared.
    pub fn can_advance(&self) -> (r: bool)
        ensures
            r == self@.advanceable(),
    {
        match self.previous_duration.checked_add(self.current_duration) {
            Some(sum) => self.remaining_attempts > 0 && can_jitter(sum.min(self.max_duration)),
            None => false,
        }
    }

    /// The policy after one more retry.
    pub fn advance(&self) -> (r: Self)
        requires
            self@.advanceable(),
        ensures
            cloned(self.logic(), r.logic()),
            exists|random: u64| r@ == #[trigger] self@.advance(random),
    {
        self.advance_with_random(random_u64())
    }

    /// The policy after one more retry, whose delay is drawn with the given random number.
    pub fn advance_with_random(&self, random: u64) -> (r: Self)
        requires
            self@.advanceable(),
        ensures
            cloned(self.logic(), r.logic()),
            r@ == self@.advance(random),
    {
        let sum = self.previous_duration.checked_add(self.current_duration).unwrap();
        let next_duration = sum.min(self.max_duration);
        FibonacciRetryPolicy {
            remaining_attempts: self.remaining_attempts - 1,
            previous_duration: self.current_duration,
            current_duration: next_duration,
            current_jitter_duration: full_jitter_of(next_duration, random),
            jitter_mode: self.jitter_mode,
            max_duration: self.max_duration,
            logic: self.logic.clone(),
        }
    }

    /// The delay before the next retry.
    pub fn backoff(&self) -> (r: Duration)
        ensures
            r@ == self@.backoff(),
    {
        match self.jitter_mode {
            JitterMode::NoJitter => self.current_duration,
            JitterMode::Full => self.current_jitter_duration,
        }
    }

    /// Whether `retry` is a retry of this policy: it waits for this policy's delay and goes on
    /// with this policy after one more retry.
    pub open spec fn prepares(&self, retry: RetryPolicyFuture<L>) -> bool {
        &&& retry.delay@ == self@.backoff()
        &&& cloned(self.logic(), retry.policy.logic())
        &&& exists|random: u64| retry.policy@ == #[trigger] self@.advance(random)
    }

    /// The retry that this policy makes next.
    pub fn build_retry(&self) -> (r: RetryPolicyFuture<L>)
        requires
            self@.advanceable(),
        ensures
            self.prepares(r),
    {
        let policy = self.advance();
        RetryPolicyFuture { delay: self.backoff(), policy }
    }

    /// The retry that follows a call, where one is wanted and one is left.
    pub fn retry_if(&self, wanted: bool) -> (r: Option<RetryPolicyFuture<L>>)
        requires
            wanted && self@.remaining_attempts > 0 ==> self@.advanceable(),
        ensures
            r is Some <==> wanted && self@.remaining_attempts > 0,
            r matches Some(retry) ==> self.prepares(retry),
    {
        if wanted && self.remaining_attempts > 0 {
            Some(self.build_retry())
        } else {
            None
        }
    }

    /// Whether the logic of this policy can ask for a retry of a call that ended so.
    pub open spec fn can_ask_retry(
        &self,
        result: Result<&L::Response, ServiceError<'_, L::Error>>,
    ) -> bool {
        match result {
            Ok(response) => exists|action: RetryAction|
                #[trigger] call_ensures(
                    L::should_retry_response,
                    (&self.logic(), response),
                    action,
                ) && action@ is Retry,
            Err(ServiceError::Expected(error)) => call_ensures(
                L::is_retriable_error,
                (&self.logic(), error),
                true,
            ),
            Err(ServiceError::Elapsed) => true,
            Err(ServiceError::Unexpected) => false,
        }
    }

    /// Whether a retry is asked for after a call. The logic judges responses and expected errors;
    /// a timeout asks for one, any other error does not. Once no attempt is left, no error does.
    pub fn asks_retry(&self, result: Result<&L::Response, ServiceError<'_, L::Error>>) -> (r: bool)
        ensures
            r ==> self.can_ask_retry(result),
            match result {
                Ok(response) => exists|action: RetryAction|
                    {
                        &&& #[trigger] call_ensures(
                            L::should_retry_response,
                            (&self.logic(), response),
                            action,
                        )
                        &&& r <==> action@ is Retry
                    },
                Err(error) => if self@.remaining_attempts == 0 {
                    !r
                } else {
                    match error {
                        ServiceError::Expected(expected) => call_ensures(
                            L::is_retriable_error,
                            (&self.logic(), expected),
                            r,
                        ),
                        ServiceError::Elapsed => r,
                        ServiceError::Unexpected => !r,
                    }
                },
            },
    {
        match result {
            Ok(response) => self.logic.should_retry_response(response).is_retryable(),
            Err(error) => {
                if self.remaining_attempts == 0 {
                    return false;
                }
                match error {
                    ServiceError::Expected(expected) => self.logic.is_retriable_error(expected),
                    ServiceError::Elapsed => true,
                    ServiceError::Unexpected => false,
                }
            },
        }
    }

    /// What follows a call: a retry, or nothing. A response is retried where the logic says so, an
    /// expected error where the logic calls it retriable, a timeout always, any other error never;
    /// and nothing is retried once no attempt is left.
    pub fn retry(&self, result: Result<&L::Response, ServiceError<'_, L::Error>>) -> (r: Option<
        RetryPolicyFuture<L>,
    >)
        requires
            self.can_ask_retry(result) && self@.remaining_attempts > 0 ==> self@.advanceable(),
        ensures
            self@.remaining_attempts == 0 ==> r is None,
            match result {
                Ok(response) => exists|action: RetryAction|
                    {
                        &&& #[trigger] call_ensures(
                            L::should_retry_response,
                            (&self.logic(), response),
                            action,
                        )
                        &&& r is Some <==> action@ is Retry && self@.remaining_attempts > 0
                    },
                Err(ServiceError::Expected(error)) => self@.remaining_attempts > 0
                    ==> call_ensures(L::is_retriable_error, (&self.logic(), error), r is Some),
                Err(ServiceError::Elapsed) => r is Some <==> self@.remaining_attempts > 0,
                Err(ServiceError::Unexpected) => r is None,
            },
            r matches Some(retry) ==> self.prepares(retry),
    {
        self.retry_if(self.asks_retry(result))
    }

    /// The request to send again: a clone of the one that was sent.
    pub fn clone_request<Req: Clone>(&self, request: &Req) -> (r: Option<Req>)
        ensures
            r matches Some(copy) && cloned(*request, copy),
    {
        Some(request.clone())
    }
}

/// Each retry uses up one attempt and leaves the limit and the jitter mode alone.
pub proof fn law_each_retry_uses_one_attempt(policy: FibonacciModel, randoms: Seq<u64>)
    requires
        randoms.len() <= policy.remaining_attempts,
    ensures
        policy.after(randoms).remaining_attempts == policy.remaining_attempts - randoms.len(),
        policy.after(randoms).max == policy.max,
        policy.after(randoms).mode == policy.mode,
    decreases randoms.len(),
{
    if randoms.len() > 0 {
        law_each_retry_uses_one_attempt(policy, randoms.drop_last());
    }
}

proof fn lemma_fibonacci_ascends(n: nat)
    ensures
        fibonacci(n) <= fibonacci(n + 1),
    decreases n,
{
    if n > 0 {
        lemma_fibonacci_ascends((n - 1) as nat);
    }
}

pub(crate) proof fn lemma_growth(initial: nat, max: nat, n: nat, earlier: nat, later: nat)
    requires
        earlier == (if n == 0 {
            initial
        } else {
            shorter(fibonacci(n + 1) * initial, max)
        }),
        later == shorter(fibonacci(n + 2) * initial, max),
    ensures
        shorter(earlier + later, max) == shorter(fibonacci(n + 3) * initial, max),
{
    lemma_fibonacci_ascends(n + 1);
    let a = fibonacci(n + 1);
    let b = fibonacci(n + 2);
    assert(fibonacci(n + 3) == b + a);
    assert((b + a) * initial == b * initial + a * initial) by (nonlinear_arith);
    assert(0 <= a * initial <= b * initial) by (nonlinear_arith)
        requires
            0 <= a <= b,
            0 <= initial,
    ;
    if n == 0 {
        assert(a * initial == initial) by (nonlinear_arith)
            requires
                a == 1,
        ;
    }
}

/// The delays before jitter are the Fibonacci multiples of the first one, up to the limit: the
/// first is taken as it is, the `n`-th after it is `fibonacci(n + 1)` times as long, or the limit
/// where that is shorter.
pub proof fn law_delays_follow_fibonacci(
    attempts: nat,
    initial: nat,
    max: nat,
    mode: JitterMode,
    first_random: u64,
    randoms: Seq<u64>,
)
    ensures
        FibonacciModel::fresh(attempts, initial, max, mode, first_random).after(randoms).current
            == (if randoms.len() == 0 {
            initial
        } else {
            shorter(fibonacci(randoms.len() + 1) * initial, max)
        }),
    decreases randoms.len(),
{
    let fresh = FibonacciModel::fresh(attempts, initial, max, mode, first_random);
    let n = randoms.len();
    lemma_max_kept(fresh, randoms);
    if n == 1 {
        assert(fresh.after(randoms.drop_last()) == fresh);
        assert(fibonacci(2) == 1) by {
            reveal_with_fuel(fibonacci, 3);
        }
        lemma_max_kept(fresh, randoms.drop_last());
    } else if n > 1 {
        let one = randoms.drop_last();
        let two = one.drop_last();
        law_delays_follow_fibonacci(attempts, initial, max, mode, first_random, one);
        law_delays_follow_fibonacci(attempts, initial, max, mode, first_random, two);
        lemma_max_kept(fresh, one);
        let earlier = fresh.after(two);
        let later = fresh.after(one);
        assert(later == earlier.advance(one.last()));
        assert(fresh.after(randoms) == later.advance(randoms.last()));
        assert(later.previous == earlier.current);
        assert(fresh.after(randoms).current == shorter(earlier.current + later.current, max));
        assert(two.len() == n - 2 && one.len() == n - 1);
        lemma_growth(initial, max, (n - 2) as nat, earlier.current, later.current);
    }
}

proof fn lemma_max_kept(policy: FibonacciModel, randoms: Seq<u64>)
    ensures
        policy.after(randoms).max == policy.max,
        policy.after(randoms).mode == policy.mode,
    decreases randoms.len(),
{
    if randoms.len() > 0 {
        lemma_max_kept(policy, randoms.drop_last());
    }
}

/// A drawn delay is never longer than the span it is drawn for, and where that has a millisecond
/// the delay is never zero.
pub proof fn law_jitter_within_span(span: nat, random: u64)
    requires
        jitterable(span),
    ensures
        full_jitter(span, random) <= span,
        whole_millis(span) > 0 ==> full_jitter(span, random) > 0,
{
    if whole_millis(span) > 0 {
        let bound = jitter_bound(span);
        assert(random as nat % bound < bound);
        assert(bound <= whole_millis(span));
    }
}

/// No retry waits longer than the first delay or the limit, whichever is longer; and from the
/// second on none waits longer than the limit.
pub proof fn law_no_delay_over_the_limit(
    attempts: nat,
    initial: nat,
    max: nat,
    mode: JitterMode,
    first_random: u64,
    randoms: Seq<u64>,
)
    requires
        jitterable(
            FibonacciModel::fresh(attempts, initial, max, mode, first_random).after(
                randoms,
            ).current,
        ),
    ensures
        ({
            let policy = FibonacciModel::fresh(attempts, initial, max, mode, first_random).after(
                randoms,
            );
            &&& policy.backoff() <= policy.current
            &&& policy.current <= initial || policy.current <= max
            &&& randoms.len() > 0 ==> policy.backoff() <= max
            &&& whole_millis(policy.current) > 0 ==> policy.backoff() > 0
        }),
{
    let fresh = FibonacciModel::fresh(attempts, initial, max, mode, first_random);
    let policy = fresh.after(randoms);
    law_delays_follow_fibonacci(attempts, initial, max, mode, first_random, randoms);
    lemma_max_kept(fresh, randoms);
    if randoms.len() == 0 {
        law_jitter_within_span(initial, first_random);
    } else {
        let before = fresh.after(randoms.drop_last());
        law_jitter_within_span(before.following(), randoms.last());
    }
}

/// A policy can go on until its attempts are used up, as long as the sum of two delays is a span and
/// a delay can be drawn for the one that follows.
pub proof fn law_policy_can_use_all_attempts(
    attempts: nat,
    initial: nat,
    max: nat,
    mode: JitterMode,
    first_random: u64,
    randoms: Seq<u64>,
)
    requires
        randoms.len() < attempts,
        initial + shorter(initial, max) <= MAX_NANOS,
        max + max <= MAX_NANOS,
        jitterable(shorter(fibonacci(randoms.len() + 2) * initial, max)),
    ensures
        FibonacciModel::fresh(attempts, initial, max, mode, first_random).after(
            randoms,
        ).advanceable(),
{
    let fresh = FibonacciModel::fresh(attempts, initial, max, mode, first_random);
    let policy = fresh.after(randoms);
    let next = randoms.push(0);
    assert(next.drop_last() =~= randoms);
    law_each_retry_uses_one_attempt(fresh, randoms);
    law_delays_follow_fibonacci(attempts, initial, max, mode, first_random, randoms);
    law_delays_follow_fibonacci(attempts, initial, max, mode, first_random, next);
    assert(fresh.after(next) == policy.advance(0));
    assert(fresh.after(next).current == policy.following());
    if randoms.len() > 0 {
        let one = randoms.drop_last();
        law_delays_follow_fibonacci(attempts, initial, max, mode, first_random, one);
        assert(policy == fresh.after(one).advance(randoms.last()));
        assert(policy.previous == fresh.after(one).current);
        if randoms.len() == 1 {
            assert(fibonacci(2) == 1) by {
                reveal_with_fuel(fibonacci, 3);
            }
        }
    }
}

} // verus!
