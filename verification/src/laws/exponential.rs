//! Laws of the exponential backoff and of the policy that retries by it.

use crate::adaptive_concurrency::retries::exponential::law_delays_grow_from_the_start;
use crate::adaptive_concurrency::retries::exponential::law_each_retry_uses_one_attempt;
use crate::adaptive_concurrency::retries::exponential::power;
use crate::adaptive_concurrency::retries::exponential::BackoffModel;
use crate::adaptive_concurrency::retries::exponential::ExponentialModel;
use crate::adaptive_concurrency::retries::ExponentialBackoff;
use crate::adaptive_concurrency::retries::ExponentialBackoffPolicy;
use crate::adaptive_concurrency::retries::ExponentialPolicyFuture;
use crate::adaptive_concurrency::retries::JitterMode;
use crate::adaptive_concurrency::retries::RetryAction;
use crate::adaptive_concurrency::retries::RetryLogic;
use crate::duration::Duration;
use vstd::arithmetic::power::pow;
use vstd::prelude::*;

verus! {

/// The nanoseconds of a delay that is due: so many milliseconds, of which 64 bits can count no more
/// than they can, and no more than the limit where there is one.
pub open spec fn due(millis: int, max: Option<nat>) -> int {
    let counted = if millis > 0xFFFF_FFFF_FFFF_FFFF {
        0xFFFF_FFFF_FFFF_FFFF
    } else {
        millis
    };
    match max {
        Some(limit) => if counted * 1_000_000 > limit {
            limit as int
        } else {
            counted * 1_000_000
        },
        None => counted * 1_000_000,
    }
}

/// What is due is a whole number of milliseconds or the limit, whichever is shorter.
pub proof fn law_due(millis: nat, limit: nat)
    ensures
        due(millis as int, None) <= millis * 1_000_000,
        due(millis as int, Some(limit)) <= limit,
        due(millis as int, Some(limit)) <= due(millis as int, None),
        due(millis as int, Some(limit)) == limit || due(millis as int, Some(limit)) == due(
            millis as int,
            None,
        ),
        millis <= u64::MAX ==> due(millis as int, None) == millis * 1_000_000,
        millis >= u64::MAX ==> due(millis as int, None) == u64::MAX * 1_000_000,
{
}

/// Whether a wait comes of a delay that is due. Without jitter it is that delay. With full jitter it
/// is as many whole milliseconds as were drawn for those of the delay, and none where it has none.
pub open spec fn waited<F: Fn(u128) -> u64>(mode: JitterMode, draw: F, span: int, wait: nat) -> bool {
    match mode {
        JitterMode::NoJitter => wait == span,
        JitterMode::Full => if span < 1_000_000 {
            wait == 0
        } else {
            exists|millis: u64| #[trigger]
                call_ensures(draw, ((span / 1_000_000) as u128,), millis) && wait == millis
                    * 1_000_000
        },
    }
}

/// The constructors: powers of a base times a factor, powers of a base alone, or multiples of an
/// initial delay. Each stands at its start.
pub proof fn law_backoffs_start(
    base: u64,
    factor: u64,
    initial: u64,
    max: Option<Duration>,
    a: ExponentialBackoff,
    b: ExponentialBackoff,
    c: ExponentialBackoff,
)
    requires
        call_ensures(ExponentialBackoff::new, (base, factor, max), a),
        call_ensures(ExponentialBackoff::from_millis, (base,), b),
        call_ensures(ExponentialBackoff::starting_at, (initial, base, max), c),
    ensures
        a@.start == base && a@.current == base && a@.base == base && a@.factor == factor,
        b@.start == base && b@.current == base && b@.base == base && b@.factor == 1,
        c@.start == initial && c@.current == initial && c@.base == base && c@.factor == 1,
        b@.max is None,
        max is None ==> a@.max is None && c@.max is None,
        max matches Some(limit) ==> a@.max == Some(limit@) && c@.max == Some(limit@),
{
}

/// Setting the factor or the longest delay sets just that.
pub proof fn law_backoff_setters(
    backoff: ExponentialBackoff,
    factor: u64,
    limit: Duration,
    a: ExponentialBackoff,
    b: ExponentialBackoff,
    c: ExponentialBackoff,
)
    requires
        call_ensures(ExponentialBackoff::factor, (backoff, factor), a),
        call_ensures(ExponentialBackoff::max_delay, (backoff, limit), b),
        call_ensures(ExponentialBackoff::clone, (&backoff,), c),
    ensures
        a@ == (BackoffModel { factor: factor as nat, ..backoff@ }),
        b@ == (BackoffModel { max: Some(limit@), ..backoff@ }),
        c@ == backoff@,
{
}

/// The next delay of a backoff is what it stands at, times its factor, in milliseconds, up to the
/// limit. Then it stands at its base times that, unless the limit was passed.
pub proof fn law_next_delay(backoff: BackoffModel)
    ensures
        backoff.delay() == due((backoff.current * backoff.factor) as int, backoff.max),
        backoff.step().start == backoff.start,
        backoff.step().base == backoff.base,
        backoff.step().factor == backoff.factor,
        backoff.step().max == backoff.max,
        backoff.step().current == (if backoff.max matches Some(limit) && due(
            (backoff.current * backoff.factor) as int,
            None,
        ) > limit {
            backoff.current
        } else if backoff.current * backoff.base > u64::MAX {
            u64::MAX as nat
        } else {
            backoff.current * backoff.base
        }),
        backoff.reset() == (BackoffModel { current: backoff.start, ..backoff }),
{
}

/// A call for the next delay gives what the backoff stands at, times its factor, in milliseconds, up
/// to the limit, and moves the backoff on to its base times that, unless the limit was passed.
pub proof fn law_next_call(backoff: &mut ExponentialBackoff, r: Option<Duration>)
    requires
        call_ensures(ExponentialBackoff::next, (backoff,), r),
    ensures
        r matches Some(delay) && delay@ == due(
            (old(backoff)@.current * old(backoff)@.factor) as int,
            old(backoff)@.max,
        ),
        final(backoff)@.start == old(backoff)@.start,
        final(backoff)@.base == old(backoff)@.base,
        final(backoff)@.factor == old(backoff)@.factor,
        final(backoff)@.max == old(backoff)@.max,
        final(backoff)@.current == (if old(backoff)@.max matches Some(limit) && due(
            (old(backoff)@.current * old(backoff)@.factor) as int,
            None,
        ) > limit {
            old(backoff)@.current
        } else if old(backoff)@.current * old(backoff)@.base > u64::MAX {
            u64::MAX as nat
        } else {
            old(backoff)@.current * old(backoff)@.base
        }),
{
}

/// A reset takes the backoff back to its start, and changes nothing else.
pub proof fn law_reset_call(backoff: &mut ExponentialBackoff)
    requires
        call_ensures(ExponentialBackoff::reset, (backoff,), ()),
    ensures
        final(backoff)@.current == old(backoff)@.start,
        final(backoff)@.start == old(backoff)@.start,
        final(backoff)@.base == old(backoff)@.base,
        final(backoff)@.factor == old(backoff)@.factor,
        final(backoff)@.max == old(backoff)@.max,
{
}

/// What is sent again is a clone of the request.
pub proof fn law_request_is_sent_again<L: RetryLogic, Req: Clone>(
    policy: ExponentialBackoffPolicy<L>,
    request: Req,
    r: Option<Req>,
)
    requires
        call_ensures(ExponentialBackoffPolicy::<L>::clone_request::<Req>, (&policy, &request), r),
    ensures
        r matches Some(copy) && cloned(request, copy),
{
}

/// A fresh policy holds one retry fewer than attempts, and the backoff, logic and mode that it is
/// given.
pub proof fn law_fresh_policy<L: RetryLogic>(
    max_attempts: usize,
    backoff: ExponentialBackoff,
    logic: L,
    mode: JitterMode,
    total: Option<Duration>,
    r: ExponentialBackoffPolicy<L>,
)
    requires
        call_ensures(
            ExponentialBackoffPolicy::<L>::new,
            (max_attempts, backoff, logic, mode, total),
            r,
        ),
    ensures
        max_attempts > 0 ==> r@.attempts_remaining == max_attempts - 1,
        max_attempts == 0 ==> r@.attempts_remaining == 0,
        r@.backoff == backoff@,
        r@.mode == mode,
        r.logic() == logic,
        total is None ==> r@.max_total is None,
        total matches Some(bound) ==> r@.max_total == Some(bound@),
        !r@.first_attempt_made,
{
}

/// A clone of a policy decides as the policy does.
pub proof fn law_policy_clone<L: RetryLogic>(
    policy: ExponentialBackoffPolicy<L>,
    r: ExponentialBackoffPolicy<L>,
)
    requires
        call_ensures(ExponentialBackoffPolicy::<L>::clone, (&policy,), r),
    ensures
        r@ == policy@,
        cloned(policy.logic(), r.logic()),
{
}

/// A wait without jitter is the delay itself; with full jitter it is the drawn milliseconds, or
/// nothing where the delay has none.
pub proof fn law_jittered<L: RetryLogic>(
    policy: ExponentialBackoffPolicy<L>,
    span: Duration,
    millis: u64,
    r: Duration,
)
    requires
        call_ensures(ExponentialBackoffPolicy::<L>::jittered, (&policy, span, millis), r),
    ensures
        policy@.mode is NoJitter ==> r@ == span@,
        policy@.mode is Full && span@ < 1_000_000 ==> r@ == 0,
        policy@.mode is Full && span@ >= 1_000_000 ==> r@ == millis * 1_000_000,
{
}

/// A wait is drawn for just the whole milliseconds of the delay.
pub proof fn law_apply_jitter<L: RetryLogic, F: Fn(u128) -> u64>(
    policy: ExponentialBackoffPolicy<L>,
    span: Duration,
    draw: F,
    r: Duration,
)
    requires
        call_ensures(ExponentialBackoffPolicy::<L>::apply_jitter::<F>, (&policy, span, draw), r),
    ensures
        waited(policy@.mode, draw, span@ as int, r@),
{
}

/// A retry that is built waits for the delay that it is given, and uses one attempt.
pub proof fn law_built_retry<L: RetryLogic>(
    policy: ExponentialBackoffPolicy<L>,
    span: Duration,
    r: ExponentialPolicyFuture<L>,
)
    requires
        call_ensures(ExponentialBackoffPolicy::<L>::build_retry_future, (&policy, span), r),
        policy@.attempts_remaining > 0,
    ensures
        r.delay@ == span@,
        r.policy_state_after_delay@.attempts_remaining == policy@.attempts_remaining - 1,
        r.policy_state_after_delay@.backoff == policy@.backoff,
        r.policy_state_after_delay@.mode == policy@.mode,
        r.policy_state_after_delay@.max_total == policy@.max_total,
        r.policy_state_after_delay@.first_attempt_made,
        cloned(policy.logic(), r.policy_state_after_delay.logic()),
{
}

/// Whether a retry is the one that follows in a policy: it waits for what the backoff stands at, and
/// goes on with one attempt fewer and with the backoff one step further on.
pub open spec fn goes_on<F: Fn(u128) -> u64>(
    policy: ExponentialModel,
    draw: F,
    wait: nat,
    after: ExponentialModel,
) -> bool {
    let backoff = policy.backoff;
    let millis = (backoff.current * backoff.factor) as int;
    &&& waited(policy.mode, draw, due(millis, backoff.max), wait)
    &&& after.attempts_remaining == policy.attempts_remaining - 1
    &&& after.mode == policy.mode
    &&& after.max_total == policy.max_total
    &&& after.first_attempt_made == policy.first_attempt_made
    &&& after.backoff.start == backoff.start
    &&& after.backoff.base == backoff.base
    &&& after.backoff.factor == backoff.factor
    &&& after.backoff.max == backoff.max
    &&& after.backoff.current == (if backoff.max matches Some(limit) && due(millis, None) > limit {
        backoff.current
    } else if backoff.current * backoff.base > u64::MAX {
        u64::MAX as nat
    } else {
        backoff.current * backoff.base
    })
}

/// A retry follows an action that asks for one while an attempt is left, and goes on from there.
pub proof fn law_retry_for_an_action<L: RetryLogic, F: Fn(u128) -> u64>(
    policy: ExponentialBackoffPolicy<L>,
    action: RetryAction,
    draw: F,
    r: Option<ExponentialPolicyFuture<L>>,
)
    requires
        call_ensures(ExponentialBackoffPolicy::<L>::retry_for::<F>, (&policy, &action, draw), r),
    ensures
        r is Some <==> action is Retry && policy@.attempts_remaining > 0,
        r matches Some(retry) ==> goes_on(
            policy@,
            draw,
            retry.delay@,
            retry.policy_state_after_delay@,
        ) && cloned(policy.logic(), retry.policy_state_after_delay.logic()),
{
}

/// A retry follows just where the logic of the policy has it, while an attempt is left: after an
/// error that it calls retriable, or a response that it says to retry.
pub proof fn law_retry_follows_the_logic<L: RetryLogic, F: Fn(u128) -> u64>(
    policy: ExponentialBackoffPolicy<L>,
    result: Result<&L::Response, &L::Error>,
    draw: F,
    r: Option<ExponentialPolicyFuture<L>>,
    wanted: bool,
)
    requires
        call_ensures(ExponentialBackoffPolicy::<L>::retry::<F>, (&policy, result, draw), r),
        match result {
            Ok(response) => forall|action: RetryAction| #[trigger]
                call_ensures(L::should_retry_response, (&policy.logic(), response), action) ==> (
                action is Retry <==> wanted),
            Err(error) => forall|answer: bool| #[trigger]
                call_ensures(L::is_retriable_error, (&policy.logic(), error), answer) ==> answer
                    == wanted,
        },
    ensures
        r is Some <==> wanted && policy@.attempts_remaining > 0,
{
}

/// Without an attempt left nothing is retried, whatever the logic says; and each retry waits and
/// goes on as its policy has it.
pub proof fn law_retry_goes_on<L: RetryLogic, F: Fn(u128) -> u64>(
    policy: ExponentialBackoffPolicy<L>,
    result: Result<&L::Response, &L::Error>,
    draw: F,
    r: Option<ExponentialPolicyFuture<L>>,
)
    requires
        call_ensures(ExponentialBackoffPolicy::<L>::retry::<F>, (&policy, result, draw), r),
    ensures
        policy@.attempts_remaining == 0 ==> r is None,
        r matches Some(retry) ==> goes_on(
            policy@,
            draw,
            retry.delay@,
            retry.policy_state_after_delay@,
        ) && cloned(policy.logic(), retry.policy_state_after_delay.logic()),
{
}

/// The policy that stands after the first `n` of some retries.
pub open spec fn policy_after<L>(
    first: ExponentialBackoffPolicy<L>,
    retries: Seq<ExponentialPolicyFuture<L>>,
    n: int,
) -> ExponentialBackoffPolicy<L> {
    if n <= 0 {
        first
    } else {
        retries[n - 1].policy_state_after_delay
    }
}

/// Whether some retries were made in turn, each by the policy that the one before left.
pub open spec fn made_in_turn<L: RetryLogic, F: Fn(u128) -> u64>(
    first: ExponentialBackoffPolicy<L>,
    results: Seq<Result<&L::Response, &L::Error>>,
    draw: F,
    retries: Seq<ExponentialPolicyFuture<L>>,
) -> bool {
    forall|k: int|
        0 <= k < retries.len() ==> call_ensures(
            ExponentialBackoffPolicy::<L>::retry::<F>,
            (&policy_after(first, retries, k), results[k], draw),
            Some(#[trigger] retries[k]),
        )
}

proof fn lemma_policy_after<L: RetryLogic, F: Fn(u128) -> u64>(
    first: ExponentialBackoffPolicy<L>,
    results: Seq<Result<&L::Response, &L::Error>>,
    draw: F,
    retries: Seq<ExponentialPolicyFuture<L>>,
    n: int,
)
    requires
        made_in_turn(first, results, draw, retries),
        0 <= n <= retries.len(),
    ensures
        n <= first@.attempts_remaining,
        policy_after(first, retries, n)@ == first@.after(n as nat),
        policy_after(first, retries, n)@.attempts_remaining == first@.attempts_remaining - n,
    decreases n,
{
    if n > 0 {
        lemma_policy_after(first, results, draw, retries, n - 1);
        let before = policy_after(first, retries, n - 1);
        assert(call_ensures(
            ExponentialBackoffPolicy::<L>::retry::<F>,
            (&before, results[n - 1], draw),
            Some(retries[n - 1]),
        ));
        law_retry_goes_on(before, results[n - 1], draw, Some(retries[n - 1]));
        assert(before@.attempts_remaining > 0);
    }
}

proof fn lemma_power_is_pow(base: nat, n: nat)
    ensures
        power(base, n) == pow(base as int, n),
    decreases n,
{
    reveal(pow);
    if n > 0 {
        lemma_power_is_pow(base, (n - 1) as nat);
        let p = power(base, (n - 1) as nat);
        assert(p * base == base * p) by (nonlinear_arith);
    }
}

/// The retry after `n` others waits for the initial delay times the base to the power `n`, times the
/// factor: for just that without jitter, and for what is drawn for it with full jitter. Left out is
/// the base 0 with a first delay over the limit.
pub proof fn law_waits_grow<L: RetryLogic, F: Fn(u128) -> u64>(
    backoff: ExponentialBackoff,
    max_attempts: usize,
    logic: L,
    mode: JitterMode,
    total: Option<Duration>,
    first: ExponentialBackoffPolicy<L>,
    results: Seq<Result<&L::Response, &L::Error>>,
    draw: F,
    retries: Seq<ExponentialPolicyFuture<L>>,
    n: int,
)
    requires
        call_ensures(
            ExponentialBackoffPolicy::<L>::new,
            (max_attempts, backoff, logic, mode, total),
            first,
        ),
        backoff@.current == backoff@.start,
        backoff@.start <= u64::MAX,
        backoff@.base > 0 || (backoff@.max matches Some(limit) ==> due(
            (backoff@.start * backoff@.factor) as int,
            None,
        ) <= limit),
        made_in_turn(first, results, draw, retries),
        0 <= n < retries.len(),
    ensures
        waited(
            mode,
            draw,
            due(backoff@.start * pow(backoff@.base as int, n as nat) * backoff@.factor, backoff@.max),
            retries[n].delay@,
        ),
{
    let b = backoff@;
    let start = BackoffModel::starting(b.start, b.base, b.factor, b.max);
    assert(b == start);
    lemma_policy_after(first, results, draw, retries, n);
    lemma_policy_after(first, results, draw, retries, n + 1);
    law_each_retry_uses_one_attempt(first@, n as nat);
    law_delays_grow_from_the_start(b.start, b.base, b.factor, b.max, n as nat);
    lemma_power_is_pow(b.base, n as nat);
    let policy = policy_after(first, retries, n);
    assert(call_ensures(
        ExponentialBackoffPolicy::<L>::retry::<F>,
        (&policy, results[n], draw),
        Some(retries[n]),
    ));
    law_retry_goes_on(policy, results[n], draw, Some(retries[n]));
    law_next_delay(policy@.backoff);
}

/// Without jitter the retry after `n` others waits for just the initial delay times the base to the
/// power `n`, times the factor, in milliseconds, where 64 bits can count them and no limit is
/// shorter. Where the limit is shorter, it waits for just the limit; and where 64 bits cannot count
/// them and there is no limit, for as many as they can.
pub proof fn law_waits_without_jitter<L: RetryLogic, F: Fn(u128) -> u64>(
    backoff: ExponentialBackoff,
    max_attempts: usize,
    logic: L,
    total: Option<Duration>,
    first: ExponentialBackoffPolicy<L>,
    results: Seq<Result<&L::Response, &L::Error>>,
    draw: F,
    retries: Seq<ExponentialPolicyFuture<L>>,
    n: int,
)
    requires
        call_ensures(
            ExponentialBackoffPolicy::<L>::new,
            (max_attempts, backoff, logic, JitterMode::NoJitter, total),
            first,
        ),
        backoff@.current == backoff@.start,
        backoff@.start <= u64::MAX,
        backoff@.base > 0,
        made_in_turn(first, results, draw, retries),
        0 <= n < retries.len(),
    ensures
        ({
            let millis = backoff@.start * pow(backoff@.base as int, n as nat) * backoff@.factor;
            let wait = retries[n].delay@;
            match backoff@.max {
                None => {
                    &&& millis <= u64::MAX ==> wait == millis * 1_000_000
                    &&& millis > u64::MAX ==> wait == u64::MAX * 1_000_000
                },
                Some(limit) => {
                    &&& millis <= u64::MAX && millis * 1_000_000 <= limit ==> wait == millis
                        * 1_000_000
                    &&& millis <= u64::MAX && millis * 1_000_000 > limit ==> wait == limit
                    &&& millis > u64::MAX && limit <= u64::MAX * 1_000_000 ==> wait == limit
                },
            }
        }),
{
    law_waits_grow(
        backoff,
        max_attempts,
        logic,
        JitterMode::NoJitter,
        total,
        first,
        results,
        draw,
        retries,
        n,
    );
}

/// A policy makes as many attempts as it is made for, the first one among them. After as many
/// retries as attempts but one nothing is retried; before, a retry that the logic asks for is made.
pub proof fn law_attempts_in_all<L: RetryLogic, F: Fn(u128) -> u64>(
    backoff: ExponentialBackoff,
    max_attempts: usize,
    logic: L,
    mode: JitterMode,
    total: Option<Duration>,
    first: ExponentialBackoffPolicy<L>,
    results: Seq<Result<&L::Response, &L::Error>>,
    draw: F,
    retries: Seq<ExponentialPolicyFuture<L>>,
    action: RetryAction,
    r: Option<ExponentialPolicyFuture<L>>,
)
    requires
        call_ensures(
            ExponentialBackoffPolicy::<L>::new,
            (max_attempts, backoff, logic, mode, total),
            first,
        ),
        made_in_turn(first, results, draw, retries),
        call_ensures(
            ExponentialBackoffPolicy::<L>::retry_for::<F>,
            (&policy_after(first, retries, retries.len() as int), &action, draw),
            r,
        ),
    ensures
        retries.len() > 0 ==> retries.len() < max_attempts,
        r is Some <==> action is Retry && retries.len() + 1 < max_attempts,
{
    lemma_policy_after(first, results, draw, retries, retries.len() as int);
}

} // verus!
