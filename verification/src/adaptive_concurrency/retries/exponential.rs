//! Retries whose delays grow exponentially, up to a limit.

use crate::adaptive_concurrency::retries::logic::JitterMode;
use crate::adaptive_concurrency::retries::logic::RetryAction;
use crate::adaptive_concurrency::retries::logic::RetryLogic;
use crate::duration::millis_span;
use crate::duration::whole_millis;
use crate::duration::Duration;
use std::borrow::Cow;
use vstd::prelude::*;

verus! {

/// `base` to the `n`-th power.
pub open spec fn power(base: nat, n: nat) -> nat
    decreases n,
{
    if n == 0 {
        1
    } else {
        power(base, (n - 1) as nat) * base
    }
}

/// `n`, or the largest 64-bit number where `n` is larger.
pub open spec fn saturated(n: nat) -> nat {
    if n <= u64::MAX {
        n
    } else {
        u64::MAX as nat
    }
}

/// `span`, or the limit where there is one and `span` is longer.
pub open spec fn limited(span: nat, max: Option<nat>) -> nat {
    match max {
        Some(limit) => if span > limit {
            limit
        } else {
            span
        },
        None => span,
    }
}

/// The length of an optional span.
pub open spec fn span_of(d: Option<Duration>) -> Option<nat> {
    match d {
        Some(d) => Some(d@),
        None => None,
    }
}

/// How many retries there are among so many attempts, the first of which is none.
pub open spec fn retries_among(attempts: nat) -> nat {
    if attempts == 0 {
        0
    } else {
        (attempts - 1) as nat
    }
}

/// What a backoff holds: where it starts, what comes next, and how that becomes a delay.
pub struct BackoffModel {
    pub start: nat,
    pub current: nat,
    pub base: nat,
    pub factor: nat,
    pub max: Option<nat>,
}

impl BackoffModel {
    /// A backoff at its start.
    pub open spec fn starting(
        start: nat,
        base: nat,
        factor: nat,
        max: Option<nat>,
    ) -> BackoffModel {
        BackoffModel { start, current: start, base, factor, max }
    }

    /// A backoff that starts at its base.
    pub open spec fn fresh(base: nat, factor: nat, max: Option<nat>) -> BackoffModel {
        BackoffModel::starting(base, base, factor, max)
    }

    /// The next delay before the limit is applied.
    pub open spec fn unlimited(self) -> nat {
        millis_span(saturated(self.current * self.factor))
    }

    /// The next delay.
    pub open spec fn delay(self) -> nat {
        limited(self.unlimited(), self.max)
    }

    /// Whether the next delay is over the limit.
    pub open spec fn over_limit(self) -> bool {
        self.max matches Some(limit) && self.unlimited() > limit
    }

    /// The backoff after the next delay. Once the limit is passed it does not move.
    pub open spec fn step(self) -> BackoffModel {
        if self.over_limit() {
            self
        } else {
            BackoffModel { current: saturated(self.current * self.base), ..self }
        }
    }

    /// The backoff after `n` delays.
    pub open spec fn steps(self, n: nat) -> BackoffModel
        decreases n,
    {
        if n == 0 {
            self
        } else {
            self.steps((n - 1) as nat).step()
        }
    }

    /// The backoff back at its start.
    pub open spec fn reset(self) -> BackoffModel {
        BackoffModel { current: self.start, ..self }
    }
}

/// A retry strategy driven by exponential back-off.
///
/// The power corresponds to the number of past attempts.
#[derive(Debug)]
pub struct ExponentialBackoff {
    start: u64,
    current: u64,
    base: u64,
    factor: u64,
    max_delay: Option<Duration>,
}

impl View for ExponentialBackoff {
    type V = BackoffModel;

    closed spec fn view(&self) -> BackoffModel {
        BackoffModel {
            start: self.start as nat,
            current: self.current as nat,
            base: self.base as nat,
            factor: self.factor as nat,
            max: span_of(self.max_delay),
        }
    }
}

impl Clone for ExponentialBackoff {
    fn clone(&self) -> (r: Self)
        ensures
            r@ == self@,
    {
        ExponentialBackoff {
            start: self.start,
            current: self.current,
            base: self.base,
            factor: self.factor,
            max_delay: self.max_delay,
        }
    }
}

impl ExponentialBackoff {
    /// A strategy with the given base and factor, and with a longest delay where one is given.
    ///
    /// Each delay is a power of the base, in milliseconds, times the factor.
    pub fn new(base: u64, factor: u64, max_delay: Option<Duration>) -> (r: ExponentialBackoff)
        ensures
            r@ == BackoffModel::fresh(base as nat, factor as nat, span_of(max_delay)),
    {
        ExponentialBackoff { start: base, current: base, base, factor, max_delay }
    }

    /// A strategy whose first delay is `initial` milliseconds and each further one `base` times as
    /// long, up to a longest delay where one is given.
    pub fn starting_at(initial: u64, base: u64, max_delay: Option<Duration>) -> (r:
        ExponentialBackoff)
        ensures
            r@ == BackoffModel::starting(initial as nat, base as nat, 1, span_of(max_delay)),
    {
        ExponentialBackoff { start: initial, current: initial, base, factor: 1, max_delay }
    }

    /// A strategy given a base duration in milliseconds.
    ///
    /// Each delay is the base to the `n`-th power, where `n` is the number of past attempts.
    pub fn from_millis(base: u64) -> (r: ExponentialBackoff)
        ensures
            r@ == BackoffModel::fresh(base as nat, 1, None),
    {
        ExponentialBackoff { start: base, current: base, base, factor: 1, max_delay: None }
    }

    /// A multiplicative factor that is applied to each delay.
    ///
    /// A factor of `1000` makes each delay a number of seconds. The default is `1`.
    pub fn factor(self, factor: u64) -> (r: ExponentialBackoff)
        ensures
            r@ == (BackoffModel { factor: factor as nat, ..self@ }),
    {
        ExponentialBackoff { factor, ..self }
    }

    /// Sets the longest delay.
    pub fn max_delay(self, duration: Duration) -> (r: ExponentialBackoff)
        ensures
            r@ == (BackoffModel { max: Some(duration@), ..self@ }),
    {
        ExponentialBackoff { max_delay: Some(duration), ..self }
    }

    /// Takes the strategy back to its initial state.
    pub fn reset(&mut self)
        ensures
            final(self)@ == old(self)@.reset(),
    {
        self.current = self.start;
    }

    /// The next delay. There always is one.
    pub fn next(&mut self) -> (r: Option<Duration>)
        ensures
            r matches Some(delay) && delay@ == old(self)@.delay(),
            final(self)@ == old(self)@.step(),
    {
        let duration = match self.current.checked_mul(self.factor) {
            Some(millis) => Duration::from_millis(millis),
            None => Duration::from_millis(u64::MAX),
        };
        if let Some(max_delay) = self.max_delay {
            if duration.is_longer_than(&max_delay) {
                return Some(max_delay);
            }
        }
        self.current = match self.current.checked_mul(self.base) {
            Some(next) => next,
            None => u64::MAX,
        };
        Some(duration)
    }
}

/// What a policy holds.
pub struct ExponentialModel {
    pub attempts_remaining: nat,
    pub backoff: BackoffModel,
    pub max_total: Option<nat>,
    pub first_attempt_made: bool,
    pub mode: JitterMode,
}

impl ExponentialModel {
    /// A policy for so many attempts, of which none is made.
    pub open spec fn fresh(
        max_attempts: nat,
        backoff: BackoffModel,
        mode: JitterMode,
        max_total: Option<nat>,
    ) -> ExponentialModel {
        ExponentialModel {
            attempts_remaining: retries_among(max_attempts),
            backoff,
            max_total,
            first_attempt_made: false,
            mode,
        }
    }

    /// The policy after one more retry.
    pub open spec fn advance(self) -> ExponentialModel {
        ExponentialModel {
            attempts_remaining: (self.attempts_remaining - 1) as nat,
            backoff: self.backoff.step(),
            ..self
        }
    }

    /// The policy after `n` retries.
    pub open spec fn after(self, n: nat) -> ExponentialModel
        decreases n,
    {
        if n == 0 {
            self
        } else {
            self.after((n - 1) as nat).advance()
        }
    }

    /// The delay that comes of a span and a number of milliseconds drawn for it.
    pub open spec fn jittered(self, span: nat, random_millis: u64) -> nat {
        match self.mode {
            JitterMode::NoJitter => span,
            JitterMode::Full => if whole_millis(span) == 0 {
                0
            } else {
                millis_span(random_millis as nat)
            },
        }
    }

    /// Whether a delay can come of a span, with milliseconds from `draw`.
    pub open spec fn jitters<F: Fn(u128) -> u64>(self, draw: F, span: nat, delay: nat) -> bool {
        if self.mode is Full && whole_millis(span) > 0 {
            exists|random_millis: u64| #[trigger]
                call_ensures(draw, (whole_millis(span) as u128,), random_millis) && delay
                    == self.jittered(span, random_millis)
        } else {
            delay == self.jittered(span, 0)
        }
    }
}

/// Makes a bounded number of attempts, with delays from an [`ExponentialBackoff`]. What remains are
/// the retries.
#[derive(Debug)]
pub struct ExponentialBackoffPolicy<L> {
    attempts_remaining: usize,
    backoff_iterator: ExponentialBackoff,
    max_total_retry_duration: Option<Duration>,
    first_attempt_made: bool,
    logic: L,
    jitter_mode: JitterMode,
}

/// A retry that waits to be made: the delay before it, and the policy for what follows.
#[derive(Debug)]
pub struct ExponentialPolicyFuture<L> {
    pub delay: Duration,
    pub policy_state_after_delay: ExponentialBackoffPolicy<L>,
}

impl<L> View for ExponentialBackoffPolicy<L> {
    type V = ExponentialModel;

    closed spec fn view(&self) -> ExponentialModel {
        ExponentialModel {
            attempts_remaining: self.attempts_remaining as nat,
            backoff: self.backoff_iterator@,
            max_total: span_of(self.max_total_retry_duration),
            first_attempt_made: self.first_attempt_made,
            mode: self.jitter_mode,
        }
    }
}

impl<L> ExponentialBackoffPolicy<L> {
    /// The retry logic of this policy.
    pub closed spec fn logic(&self) -> L {
        self.logic
    }
}

impl<L: Clone> Clone for ExponentialBackoffPolicy<L> {
    fn clone(&self) -> (r: Self)
        ensures
            r@ == self@,
            cloned(self.logic(), r.logic()),
    {
        ExponentialBackoffPolicy {
            attempts_remaining: self.attempts_remaining,
            backoff_iterator: self.backoff_iterator.clone(),
            max_total_retry_duration: self.max_total_retry_duration,
            first_attempt_made: self.first_attempt_made,
            logic: self.logic.clone(),
            jitter_mode: self.jitter_mode,
        }
    }
}

impl<L: RetryLogic> ExponentialBackoffPolicy<L> {
    /// A policy for `max_attempts` attempts in all: the first one and the retries after it. The
    /// total duration is kept for whoever configures the policy; no decision depends on it.
    pub fn new(
        max_attempts: usize,
        initial_backoff_iterator: ExponentialBackoff,
        logic: L,
        jitter_mode: JitterMode,
        max_total_retry_duration: Option<Duration>,
    ) -> (r: Self)
        ensures
            r.logic() == logic,
            r@ == ExponentialModel::fresh(
                max_attempts as nat,
                initial_backoff_iterator@,
                jitter_mode,
                span_of(max_total_retry_duration),
            ),
    {
        ExponentialBackoffPolicy {
            attempts_remaining: max_attempts.saturating_sub(1),
            backoff_iterator: initial_backoff_iterator,
            max_total_retry_duration,
            first_attempt_made: false,
            logic,
            jitter_mode,
        }
    }

    /// A retry after the given delay, with the backoff as it stands.
    pub fn build_retry_future(&self, delay_duration: Duration) -> (r: ExponentialPolicyFuture<L>)
        requires
            self@.attempts_remaining > 0,
        ensures
            r.delay == delay_duration,
            cloned(self.logic(), r.policy_state_after_delay.logic()),
            r.policy_state_after_delay@ == (ExponentialModel {
                attempts_remaining: (self@.attempts_remaining - 1) as nat,
                first_attempt_made: true,
                ..self@
            }),
    {
        let mut next_policy_state = self.clone();
        next_policy_state.attempts_remaining = next_policy_state.attempts_remaining - 1;
        next_policy_state.first_attempt_made = true;
        ExponentialPolicyFuture {
            delay: delay_duration,
            policy_state_after_delay: next_policy_state,
        }
    }

    /// The delay that comes of a span and a number of milliseconds drawn for it.
    pub fn jittered(&self, base_duration: Duration, random_millis: u64) -> (r: Duration)
        ensures
            r@ == self@.jittered(base_duration@, random_millis),
    {
        match self.jitter_mode {
            JitterMode::NoJitter => base_duration,
            JitterMode::Full => if base_duration.as_millis() == 0 {
                Duration::from_millis(0)
            } else {
                Duration::from_millis(random_millis)
            },
        }
    }

    /// The delay that comes of a span. With full jitter, and where the span has a millisecond,
    /// `draw` is handed its whole milliseconds and gives back those of the delay.
    pub fn apply_jitter<F: Fn(u128) -> u64>(&self, base_duration: Duration, draw: F) -> (r:
        Duration)
        requires
            forall|millis: u128| call_requires(draw, (millis,)),
        ensures
            self@.jitters(draw, base_duration@, r@),
    {
        let millis: u128 = base_duration.as_millis();
        match self.jitter_mode {
            JitterMode::Full => if millis > 0 {
                let random_millis: u64 = draw(millis);
                assert(whole_millis(base_duration@) as u128 == millis);
                return self.jittered(base_duration, random_millis);
            },
            JitterMode::NoJitter => {},
        }
        self.jittered(base_duration, 0)
    }

    /// Whether `retry` is a retry of this policy: its delay comes of the next one of the backoff,
    /// and it goes on with this policy after one more retry.
    pub open spec fn prepares<F: Fn(u128) -> u64>(
        &self,
        draw: F,
        retry: ExponentialPolicyFuture<L>,
    ) -> bool {
        &&& self@.jitters(draw, self@.backoff.delay(), retry.delay@)
        &&& cloned(self.logic(), retry.policy_state_after_delay.logic())
        &&& retry.policy_state_after_delay@ == self@.advance()
    }

    /// The retry that follows a call, for what the logic says of it.
    pub fn retry_for<F: Fn(u128) -> u64>(&self, action: &RetryAction, draw: F) -> (r: Option<
        ExponentialPolicyFuture<L>,
    >)
        requires
            forall|millis: u128| call_requires(draw, (millis,)),
        ensures
            r is Some <==> action@ is Retry && self@.attempts_remaining > 0,
            r matches Some(retry) ==> self.prepares(draw, retry),
    {
        if self.attempts_remaining == 0 || !action.is_retryable() {
            return None;
        }
        let mut current_backoff_iterator = self.backoff_iterator.clone();
        let base_delay = match current_backoff_iterator.next() {
            Some(delay) => delay,
            None => return None,
        };
        let delay = self.apply_jitter(base_delay, draw);
        let mut next_policy_state = self.clone();
        next_policy_state.attempts_remaining = self.attempts_remaining.saturating_sub(1);
        next_policy_state.backoff_iterator = current_backoff_iterator;
        Some(ExponentialPolicyFuture { delay, policy_state_after_delay: next_policy_state })
    }

    /// What follows a call: a retry, or nothing. A response is retried where the logic says so, an
    /// error where the logic calls it retriable; and nothing is retried once no attempt is left.
    pub fn retry<F: Fn(u128) -> u64>(
        &self,
        result: Result<&L::Response, &L::Error>,
        draw: F,
    ) -> (r: Option<ExponentialPolicyFuture<L>>)
        requires
            forall|millis: u128| call_requires(draw, (millis,)),
        ensures
            self@.attempts_remaining == 0 ==> r is None,
            self@.attempts_remaining > 0 ==> match result {
                Ok(response) => exists|action: RetryAction|
                    {
                        &&& #[trigger] call_ensures(
                            L::should_retry_response,
                            (&self.logic(), response),
                            action,
                        )
                        &&& r is Some <==> action@ is Retry
                    },
                Err(error) => call_ensures(
                    L::is_retriable_error,
                    (&self.logic(), error),
                    r is Some,
                ),
            },
            r matches Some(retry) ==> self.prepares(draw, retry),
    {
        if self.attempts_remaining == 0 {
            return None;
        }
        let action = match result {
            Ok(response) => self.logic.should_retry_response(response),
            Err(service_error) => if self.logic.is_retriable_error(service_error) {
                RetryAction::Retry(Cow::Borrowed("Service error deemed retriable"))
            } else {
                RetryAction::DontRetry(Cow::Borrowed("Service error deemed not retriable"))
            },
        };
        self.retry_for(&action, draw)
    }

    /// The request to send again: a clone of the one that was sent.
    pub fn clone_request<Req: Clone>(&self, request: &Req) -> (r: Option<Req>)
        ensures
            r matches Some(copy) && cloned(*request, copy),
    {
        Some(request.clone())
    }
}

proof fn lemma_saturated_product(p: nat, f: nat)
    ensures
        saturated(saturated(p) * f) == saturated(p * f),
{
    if p > u64::MAX {
        let m = u64::MAX as nat;
        if f == 0 {
            assert(m * f == 0 && p * f == 0) by (nonlinear_arith)
                requires
                    f == 0,
            ;
        } else {
            assert(m * f >= m && p * f >= p) by (nonlinear_arith)
                requires
                    f >= 1,
                    m >= 0,
                    p >= 0,
            ;
        }
    }
}

proof fn lemma_power_ascends(base: nat, k: nat, n: nat)
    requires
        base >= 1,
        k <= n,
    ensures
        power(base, k) <= power(base, n),
    decreases n - k,
{
    if k < n {
        lemma_power_ascends(base, k, (n - 1) as nat);
        let p = power(base, (n - 1) as nat);
        assert(p * base >= p) by (nonlinear_arith)
            requires
                base >= 1,
                p >= 0,
        ;
    }
}

/// After `n` delays the backoff stands where it first passed the limit, or one power of the base
/// further on where it has not.
proof fn lemma_position(start: nat, base: nat, factor: nat, max: Option<nat>, n: nat) -> (k: nat)
    requires
        start <= u64::MAX,
    ensures
        k <= n,
        ({
            let state = BackoffModel::starting(start, base, factor, max).steps(n);
            &&& state.base == base && state.factor == factor && state.max == max
            &&& state.current == saturated(start * power(base, k))
            &&& k < n ==> state.over_limit()
        }),
    decreases n,
{
    if n == 0 {
        assert(start * power(base, 0) == start) by (nonlinear_arith)
            requires
                power(base, 0) == 1,
        ;
        0
    } else {
        let k = lemma_position(start, base, factor, max, (n - 1) as nat);
        let before = BackoffModel::starting(start, base, factor, max).steps((n - 1) as nat);
        if before.over_limit() {
            k
        } else {
            let p = power(base, k);
            lemma_saturated_product(start * p, base);
            assert(start * p * base == start * (p * base)) by (nonlinear_arith);
            assert(power(base, k + 1) == p * base);
            (k + 1) as nat
        }
    }
}

/// The delay after `n` others is the first one times the base to the power `n`, times the factor, in
/// milliseconds: the largest 64-bit number of them where that is more, and the limit where that is
/// longer. Left out is the base 0 with a first delay over the limit: the backoff then stays there.
pub proof fn law_delays_grow_from_the_start(
    start: nat,
    base: nat,
    factor: nat,
    max: Option<nat>,
    n: nat,
)
    requires
        start <= u64::MAX,
        base > 0 || !BackoffModel::starting(start, base, factor, max).over_limit(),
    ensures
        BackoffModel::starting(start, base, factor, max).steps(n).delay() == limited(
            millis_span(saturated(start * power(base, n) * factor)),
            max,
        ),
{
    let k = lemma_position(start, base, factor, max, n);
    let p = power(base, k);
    let reached = start * p;
    lemma_saturated_product(reached, factor);
    if k < n {
        if base == 0 {
            if k == 0 {
                assert(start * p == start) by (nonlinear_arith)
                    requires
                        p == 1,
                ;
            } else {
                let earlier = power(base, (k - 1) as nat);
                assert(start * p * factor == 0) by (nonlinear_arith)
                    requires
                        base == 0,
                        p == earlier * base,
                ;
            }
        } else {
            lemma_power_ascends(base, k, n);
            let due = power(base, n);
            assert(start * p * factor <= start * due * factor) by (nonlinear_arith)
                requires
                    0 <= p <= due,
                    0 <= start,
                    0 <= factor,
            ;
        }
    }
}

/// Of a backoff that starts at its base, the delay after `n` others is the base to the power `n +
/// 1`, times the factor, in milliseconds: the largest 64-bit number of them where that is more, and
/// the limit where that is longer.
pub proof fn law_delays_are_powers(base: nat, factor: nat, max: Option<nat>, n: nat)
    requires
        base <= u64::MAX,
    ensures
        BackoffModel::fresh(base, factor, max).steps(n).delay() == limited(
            millis_span(saturated(power(base, n + 1) * factor)),
            max,
        ),
{
    if base == 0 {
        assert(base * factor == 0) by (nonlinear_arith)
            requires
                base == 0,
        ;
    }
    law_delays_grow_from_the_start(base, base, factor, max, n);
    let p = power(base, n);
    assert(base * p == p * base) by (nonlinear_arith);
}

/// No delay is longer than the limit.
pub proof fn law_no_delay_over_the_limit(backoff: BackoffModel, limit: nat, n: nat)
    requires
        backoff.max == Some(limit),
    ensures
        backoff.steps(n).delay() <= limit,
    decreases n,
{
    lemma_settings_kept(backoff, n);
}

proof fn lemma_settings_kept(backoff: BackoffModel, n: nat)
    ensures
        backoff.steps(n).start == backoff.start,
        backoff.steps(n).base == backoff.base,
        backoff.steps(n).factor == backoff.factor,
        backoff.steps(n).max == backoff.max,
    decreases n,
{
    if n > 0 {
        lemma_settings_kept(backoff, (n - 1) as nat);
    }
}

/// The delays never shrink, unless the base is 0 and the first delay is not.
pub proof fn law_delays_never_shrink(
    start: nat,
    base: nat,
    factor: nat,
    max: Option<nat>,
    n: nat,
)
    requires
        start <= u64::MAX,
        base > 0 || start == 0,
    ensures
        BackoffModel::starting(start, base, factor, max).steps(n).delay()
            <= BackoffModel::starting(start, base, factor, max).steps(n + 1).delay(),
{
    if base == 0 {
        assert(start * factor == 0) by (nonlinear_arith)
            requires
                start == 0,
        ;
    }
    law_delays_grow_from_the_start(start, base, factor, max, n);
    law_delays_grow_from_the_start(start, base, factor, max, n + 1);
    let now = power(base, n);
    let later = power(base, n + 1);
    if base > 0 {
        lemma_power_ascends(base, n, n + 1);
        assert(start * now * factor <= start * later * factor) by (nonlinear_arith)
            requires
                0 <= now <= later,
                0 <= start,
                0 <= factor,
        ;
    } else {
        assert(start * now * factor == 0) by (nonlinear_arith)
            requires
                start == 0,
        ;
    }
}

/// A reset takes a backoff back to where it started, whatever it has been through.
pub proof fn law_reset_restores_the_start(
    start: nat,
    base: nat,
    factor: nat,
    max: Option<nat>,
    n: nat,
)
    ensures
        BackoffModel::starting(start, base, factor, max).steps(n).reset()
            == BackoffModel::starting(start, base, factor, max),
{
    lemma_settings_kept(BackoffModel::starting(start, base, factor, max), n);
}

/// The attempts that a policy is made for include the first one: while fewer retries are made than
/// attempts but one, another follows, and then none.
pub proof fn law_attempts_include_the_first(
    max_attempts: nat,
    backoff: BackoffModel,
    mode: JitterMode,
    max_total: Option<nat>,
    n: nat,
)
    requires
        n < max_attempts,
    ensures
        ExponentialModel::fresh(max_attempts, backoff, mode, max_total).after(
            n,
        ).attempts_remaining > 0 <==> n + 1 < max_attempts,
{
    law_each_retry_uses_one_attempt(
        ExponentialModel::fresh(max_attempts, backoff, mode, max_total),
        n,
    );
}

/// Each retry uses up one attempt and moves the backoff on by one delay; nothing else changes.
pub proof fn law_each_retry_uses_one_attempt(policy: ExponentialModel, n: nat)
    requires
        n <= policy.attempts_remaining,
    ensures
        policy.after(n) == (ExponentialModel {
            attempts_remaining: (policy.attempts_remaining - n) as nat,
            backoff: policy.backoff.steps(n),
            ..policy
        }),
    decreases n,
{
    if n > 0 {
        law_each_retry_uses_one_attempt(policy, (n - 1) as nat);
    }
}

/// No retry of a policy waits longer than the limit of its backoff, jitter included, where what is
/// drawn is no more than the whole milliseconds it is drawn for.
pub proof fn law_no_retry_waits_over_the_limit(
    policy: ExponentialModel,
    limit: nat,
    n: nat,
    random_millis: u64,
)
    requires
        policy.backoff.max == Some(limit),
        n <= policy.attempts_remaining,
        random_millis <= whole_millis(policy.after(n).backoff.delay()),
    ensures
        policy.after(n).jittered(policy.after(n).backoff.delay(), random_millis) <= limit,
{
    law_each_retry_uses_one_attempt(policy, n);
    law_no_delay_over_the_limit(policy.backoff, limit, n);
    law_jitter_within_span(policy.after(n), policy.after(n).backoff.delay(), random_millis);
}

/// A delay with jitter is no longer than the one without, where what is drawn is no more than the
/// whole milliseconds it is drawn for.
pub proof fn law_jitter_within_span(policy: ExponentialModel, span: nat, random_millis: u64)
    requires
        random_millis <= whole_millis(span),
    ensures
        policy.jittered(span, random_millis) <= span,
{
}

} // verus!
