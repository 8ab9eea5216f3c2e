//! Laws of the policy whose delays grow like the Fibonacci numbers.

use crate::adaptive_concurrency::retries::fibonacci::can_jitter;
use crate::adaptive_concurrency::retries::fibonacci::fibonacci;
use crate::adaptive_concurrency::retries::fibonacci::full_jitter_of;
use crate::adaptive_concurrency::retries::fibonacci::lemma_growth;
use crate::adaptive_concurrency::retries::fibonacci::FibonacciModel;
use crate::adaptive_concurrency::retries::FibonacciRetryPolicy;
use crate::adaptive_concurrency::retries::JitterMode;
use crate::adaptive_concurrency::retries::RetryAction;
use crate::adaptive_concurrency::retries::RetryLogic;
use crate::adaptive_concurrency::retries::RetryPolicyFuture;
use crate::adaptive_concurrency::retries::ServiceError;
use crate::duration::Duration;
use vstd::prelude::*;

verus! {

/// Whether a wait is one that can be drawn for a span: whole milliseconds, from one of them up to
/// those of the span, counted in 64 bits; and nothing for a span that has none.
pub open spec fn drawn(span: nat, random: u64, wait: nat) -> bool {
    if span < 1_000_000 {
        wait == 0
    } else {
        wait == (random as nat % (span / 1_000_000 % 0x1_0000_0000_0000_0000) + 1) * 1_000_000
    }
}

/// A wait is drawn by the remainder of the random number.
pub proof fn law_full_jitter(d: Duration, random: u64, r: Duration)
    requires
        call_ensures(full_jitter_of, (d, random), r),
    ensures
        d@ < 1_000_000 ==> r@ == 0,
        d@ >= 1_000_000 ==> r@ == (random as nat % (d@ / 1_000_000 % 0x1_0000_0000_0000_0000) + 1)
            * 1_000_000,
        d@ < 0x1_0000_0000_0000_0000 * 1_000_000 ==> r@ <= d@,
        1_000_000 <= d@ < 0x1_0000_0000_0000_0000 * 1_000_000 ==> r@ >= 1_000_000,
{
    if 1_000_000 <= d@ < 0x1_0000_0000_0000_0000 * 1_000_000 {
        let millis = d@ / 1_000_000;
        assert(0 < millis < 0x1_0000_0000_0000_0000);
        assert(random as nat % millis < millis);
    }
}

/// A wait can be drawn for every span but those of a nonzero multiple of 2^64 milliseconds.
pub proof fn law_can_jitter(d: Duration, r: bool)
    requires
        call_ensures(can_jitter, (d,), r),
    ensures
        r <==> d@ < 1_000_000 || d@ / 1_000_000 % 0x1_0000_0000_0000_0000 != 0,
{
}

/// A fresh policy holds what it is given, and its first wait is drawn for the initial delay.
pub proof fn law_fresh_policy<L: RetryLogic>(
    attempts: usize,
    initial: Duration,
    max: Duration,
    logic: L,
    mode: JitterMode,
    random: u64,
    r: FibonacciRetryPolicy<L>,
)
    requires
        call_ensures(
            FibonacciRetryPolicy::<L>::new_with_random,
            (attempts, initial, max, logic, mode, random),
            r,
        ),
    ensures
        r.logic() == logic,
        r@.remaining_attempts == attempts,
        r@.previous == 0,
        r@.current == initial@,
        r@.max == max@,
        r@.mode == mode,
        drawn(initial@, random, r@.jitter),
{
}

/// A fresh policy holds what it is given, and its first wait is drawn for the initial delay by some
/// random number.
pub proof fn law_fresh_policy_by_chance<L: RetryLogic>(
    attempts: usize,
    initial: Duration,
    max: Duration,
    logic: L,
    mode: JitterMode,
    r: FibonacciRetryPolicy<L>,
)
    requires
        call_ensures(
            FibonacciRetryPolicy::<L>::new,
            (attempts, initial, max, logic, mode),
            r,
        ),
    ensures
        r.logic() == logic,
        r@.remaining_attempts == attempts,
        r@.previous == 0,
        r@.current == initial@,
        r@.max == max@,
        r@.mode == mode,
        exists|random: u64| #[trigger] drawn(initial@, random, r@.jitter),
{
    let random = choose|random: u64|
        r@ == #[trigger] FibonacciModel::fresh(attempts as nat, initial@, max@, mode, random);
    assert(drawn(initial@, random, r@.jitter));
}

/// Whether a policy is the one after one more retry: with one attempt fewer, with the sum of the
/// last two delays or the limit for the next, and with a wait drawn for it.
pub open spec fn one_further(before: FibonacciModel, random: u64, after: FibonacciModel) -> bool {
    &&& after.remaining_attempts == before.remaining_attempts - 1
    &&& after.previous == before.current
    &&& after.current <= before.max
    &&& after.current <= before.previous + before.current
    &&& after.current == before.max || after.current == before.previous + before.current
    &&& after.max == before.max
    &&& after.mode == before.mode
    &&& drawn(after.current, random, after.jitter)
}

/// Advancing goes one retry further.
pub proof fn law_advance<L: RetryLogic>(
    policy: FibonacciRetryPolicy<L>,
    random: u64,
    r: FibonacciRetryPolicy<L>,
)
    requires
        call_ensures(FibonacciRetryPolicy::<L>::advance_with_random, (&policy, random), r),
        policy@.remaining_attempts > 0,
    ensures
        one_further(policy@, random, r@),
        cloned(policy.logic(), r.logic()),
{
}

/// Advancing goes one retry further, with some random number.
pub proof fn law_advance_by_chance<L: RetryLogic>(
    policy: FibonacciRetryPolicy<L>,
    r: FibonacciRetryPolicy<L>,
)
    requires
        call_ensures(FibonacciRetryPolicy::<L>::advance, (&policy,), r),
        policy@.remaining_attempts > 0,
    ensures
        exists|random: u64| #[trigger] one_further(policy@, random, r@),
        cloned(policy.logic(), r.logic()),
{
    let random = choose|random: u64| r@ == #[trigger] policy@.advance(random);
    assert(one_further(policy@, random, r@));
}

/// Without jitter a policy waits for its delay, and with full jitter for what was drawn for it.
pub proof fn law_backoff<L: RetryLogic>(policy: FibonacciRetryPolicy<L>, r: Duration)
    requires
        call_ensures(FibonacciRetryPolicy::<L>::backoff, (&policy,), r),
    ensures
        policy@.mode is NoJitter ==> r@ == policy@.current,
        policy@.mode is Full ==> r@ == policy@.jitter,
{
}

/// Whether an attempt is left, and whether a retry can be prepared: the last two delays add up to a
/// span, and a wait can be drawn for what follows.
pub proof fn law_can_advance<L: RetryLogic>(
    policy: FibonacciRetryPolicy<L>,
    left: bool,
    able: bool,
)
    requires
        call_ensures(FibonacciRetryPolicy::<L>::has_attempts, (&policy,), left),
        call_ensures(FibonacciRetryPolicy::<L>::can_advance, (&policy,), able),
    ensures
        left <==> policy@.remaining_attempts > 0,
        ({
            let sum = policy@.previous + policy@.current;
            let next = if sum <= policy@.max {
                sum
            } else {
                policy@.max
            };
            able <==> policy@.remaining_attempts > 0 && sum <= u64::MAX * 1_000_000_000
                + 999_999_999 && (next < 1_000_000 || next / 1_000_000 % 0x1_0000_0000_0000_0000
                != 0)
        }),
{
}

/// A clone of a policy decides as the policy does.
pub proof fn law_policy_clone<L: RetryLogic>(
    policy: FibonacciRetryPolicy<L>,
    r: FibonacciRetryPolicy<L>,
)
    requires
        call_ensures(FibonacciRetryPolicy::<L>::clone, (&policy,), r),
    ensures
        r@ == policy@,
        cloned(policy.logic(), r.logic()),
{
}

/// Whether a retry is the one that follows in a policy: it waits for what the policy holds, and goes
/// on one retry further.
pub open spec fn goes_on(policy: FibonacciModel, wait: nat, after: FibonacciModel) -> bool {
    &&& policy.mode is NoJitter ==> wait == policy.current
    &&& policy.mode is Full ==> wait == policy.jitter
    &&& exists|random: u64| #[trigger] one_further(policy, random, after)
}

proof fn lemma_prepared<L: RetryLogic>(
    policy: FibonacciRetryPolicy<L>,
    retry: RetryPolicyFuture<L>,
)
    requires
        policy.prepares(retry),
        policy@.remaining_attempts > 0,
    ensures
        goes_on(policy@, retry.delay@, retry.policy@),
        cloned(policy.logic(), retry.policy.logic()),
{
    let random = choose|random: u64| retry.policy@ == #[trigger] policy@.advance(random);
    assert(one_further(policy@, random, retry.policy@));
}

/// The retry that is built waits and goes on as its policy has it.
pub proof fn law_built_retry<L: RetryLogic>(
    policy: FibonacciRetryPolicy<L>,
    r: RetryPolicyFuture<L>,
)
    requires
        call_ensures(FibonacciRetryPolicy::<L>::build_retry, (&policy,), r),
        policy@.remaining_attempts > 0,
    ensures
        goes_on(policy@, r.delay@, r.policy@),
        cloned(policy.logic(), r.policy.logic()),
{
    lemma_prepared(policy, r);
}

/// A retry that is wanted is made while an attempt is left.
pub proof fn law_wanted_retry<L: RetryLogic>(
    policy: FibonacciRetryPolicy<L>,
    wanted: bool,
    r: Option<RetryPolicyFuture<L>>,
)
    requires
        call_ensures(FibonacciRetryPolicy::<L>::retry_if, (&policy, wanted), r),
    ensures
        r is Some <==> wanted && policy@.remaining_attempts > 0,
        r matches Some(retry) ==> goes_on(policy@, retry.delay@, retry.policy@) && cloned(
            policy.logic(),
            retry.policy.logic(),
        ),
{
    if let Some(retry) = r {
        lemma_prepared(policy, retry);
    }
}

/// A retry follows, while an attempt is left, just where the logic has it: after a response that it
/// says to retry, or an expected error that it calls retriable; after every timeout; and after no
/// other error. It waits and goes on as its policy has it.
pub proof fn law_retry_follows_the_logic<L: RetryLogic>(
    policy: FibonacciRetryPolicy<L>,
    result: Result<&L::Response, ServiceError<'_, L::Error>>,
    wanted: bool,
    asked: bool,
    r: Option<RetryPolicyFuture<L>>,
)
    requires
        call_ensures(FibonacciRetryPolicy::<L>::retry, (&policy, result), r),
        call_ensures(FibonacciRetryPolicy::<L>::asks_retry, (&policy, result), asked),
        match result {
            Ok(response) => forall|action: RetryAction| #[trigger]
                call_ensures(L::should_retry_response, (&policy.logic(), response), action) ==> (
                action is Retry <==> wanted),
            Err(ServiceError::Expected(error)) => forall|answer: bool| #[trigger]
                call_ensures(L::is_retriable_error, (&policy.logic(), error), answer) ==> answer
                    == wanted,
            Err(ServiceError::Elapsed) => wanted,
            Err(ServiceError::Unexpected) => !wanted,
        },
    ensures
        r is Some <==> wanted && policy@.remaining_attempts > 0,
        policy@.remaining_attempts > 0 ==> asked == wanted,
        r matches Some(retry) ==> goes_on(policy@, retry.delay@, retry.policy@) && cloned(
            policy.logic(),
            retry.policy.logic(),
        ),
{
    if let Some(retry) = r {
        lemma_prepared(policy, retry);
    }
}

/// Nothing is retried without an attempt left, whatever the logic says, and each retry waits and
/// goes on as its policy has it.
pub proof fn law_retry_goes_on<L: RetryLogic>(
    policy: FibonacciRetryPolicy<L>,
    result: Result<&L::Response, ServiceError<'_, L::Error>>,
    r: Option<RetryPolicyFuture<L>>,
)
    requires
        call_ensures(FibonacciRetryPolicy::<L>::retry, (&policy, result), r),
    ensures
        policy@.remaining_attempts == 0 ==> r is None,
        r matches Some(retry) ==> goes_on(policy@, retry.delay@, retry.policy@) && cloned(
            policy.logic(),
            retry.policy.logic(),
        ),
{
    if let Some(retry) = r {
        lemma_prepared(policy, retry);
    }
}

/// What is sent again is a clone of the request.
pub proof fn law_request_is_sent_again<L: RetryLogic, Req: Clone>(
    policy: FibonacciRetryPolicy<L>,
    request: Req,
    r: Option<Req>,
)
    requires
        call_ensures(FibonacciRetryPolicy::<L>::clone_request::<Req>, (&policy, &request), r),
    ensures
        r matches Some(copy) && cloned(request, copy),
{
}

/// The policy that stands after the first `n` of some retries.
pub open spec fn policy_after<L>(
    first: FibonacciRetryPolicy<L>,
    retries: Seq<RetryPolicyFuture<L>>,
    n: int,
) -> FibonacciRetryPolicy<L> {
    if n <= 0 {
        first
    } else {
        retries[n - 1].policy
    }
}

/// Whether some retries were made in turn, each by the policy that the one before left.
pub open spec fn made_in_turn<L: RetryLogic>(
    first: FibonacciRetryPolicy<L>,
    results: Seq<Result<&L::Response, ServiceError<'_, L::Error>>>,
    retries: Seq<RetryPolicyFuture<L>>,
) -> bool {
    forall|k: int|
        0 <= k < retries.len() ==> call_ensures(
            FibonacciRetryPolicy::<L>::retry,
            (&policy_after(first, retries, k), results[k]),
            Some(#[trigger] retries[k]),
        )
}

proof fn lemma_policy_after<L: RetryLogic>(
    first: FibonacciRetryPolicy<L>,
    results: Seq<Result<&L::Response, ServiceError<'_, L::Error>>>,
    retries: Seq<RetryPolicyFuture<L>>,
    n: int,
)
    requires
        made_in_turn(first, results, retries),
        0 <= n <= retries.len(),
    ensures
        policy_after(first, retries, n)@.remaining_attempts == first@.remaining_attempts - n,
        policy_after(first, retries, n)@.max == first@.max,
        policy_after(first, retries, n)@.mode == first@.mode,
        n > 0 ==> goes_on(
            policy_after(first, retries, n - 1)@,
            retries[n - 1].delay@,
            policy_after(first, retries, n)@,
        ),
    decreases n,
{
    if n > 0 {
        lemma_policy_after(first, results, retries, n - 1);
        let before = policy_after(first, retries, n - 1);
        assert(call_ensures(
            FibonacciRetryPolicy::<L>::retry,
            (&before, results[n - 1]),
            Some(retries[n - 1]),
        ));
        law_retry_goes_on(before, results[n - 1], Some(retries[n - 1]));
    }
}

proof fn lemma_current<L: RetryLogic>(
    first: FibonacciRetryPolicy<L>,
    results: Seq<Result<&L::Response, ServiceError<'_, L::Error>>>,
    retries: Seq<RetryPolicyFuture<L>>,
    n: int,
)
    requires
        made_in_turn(first, results, retries),
        first@.previous == 0,
        0 <= n <= retries.len(),
    ensures
        policy_after(first, retries, n)@.current == (if n == 0 {
            first@.current
        } else if fibonacci((n + 1) as nat) * first@.current <= first@.max {
            fibonacci((n + 1) as nat) * first@.current
        } else {
            first@.max
        }),
    decreases n,
{
    let initial = first@.current;
    let max = first@.max;
    if n == 1 {
        lemma_policy_after(first, results, retries, 1);
        assert(fibonacci(2) == 1) by {
            reveal_with_fuel(fibonacci, 3);
        }
        assert(fibonacci(2) * initial == initial) by (nonlinear_arith)
            requires
                fibonacci(2) == 1,
        ;
    } else if n > 1 {
        lemma_current(first, results, retries, n - 1);
        lemma_current(first, results, retries, n - 2);
        lemma_policy_after(first, results, retries, n - 2);
        lemma_policy_after(first, results, retries, n - 1);
        lemma_policy_after(first, results, retries, n);
        let earlier = policy_after(first, retries, n - 2)@;
        let later = policy_after(first, retries, n - 1)@;
        assert(later.previous == earlier.current);
        lemma_growth(initial, max, (n - 2) as nat, earlier.current, later.current);
    }
}

/// Without jitter the first retry waits for the initial delay, and the one after `n > 0` others for
/// the Fibonacci number `n + 1` times it, or for the limit where that is shorter. From the third on,
/// each waits for the sum of the two before it, or for the limit.
pub proof fn law_waits_follow_fibonacci<L: RetryLogic>(
    attempts: usize,
    initial: Duration,
    max: Duration,
    logic: L,
    first: FibonacciRetryPolicy<L>,
    results: Seq<Result<&L::Response, ServiceError<'_, L::Error>>>,
    retries: Seq<RetryPolicyFuture<L>>,
    n: int,
)
    requires
        call_ensures(
            FibonacciRetryPolicy::<L>::new,
            (attempts, initial, max, logic, JitterMode::NoJitter),
            first,
        ),
        made_in_turn(first, results, retries),
        0 <= n < retries.len(),
    ensures
        n == 0 ==> retries[n].delay@ == initial@,
        n == 1 ==> retries[n].delay@ == (if initial@ <= max@ {
            initial@
        } else {
            max@
        }),
        n > 0 ==> retries[n].delay@ == (if fibonacci((n + 1) as nat) * initial@ <= max@ {
            fibonacci((n + 1) as nat) * initial@
        } else {
            max@
        }),
        n > 1 ==> retries[n].delay@ == (if retries[n - 1].delay@ + retries[n - 2].delay@ <= max@ {
            retries[n - 1].delay@ + retries[n - 2].delay@
        } else {
            max@
        }),
{
    law_fresh_policy_by_chance(attempts, initial, max, logic, JitterMode::NoJitter, first);
    lemma_policy_after(first, results, retries, n);
    lemma_policy_after(first, results, retries, n + 1);
    lemma_current(first, results, retries, n);
    if n > 0 {
        lemma_policy_after(first, results, retries, n - 1);
    }
}

/// With full jitter no retry waits longer than it would without, and where that is a millisecond or
/// more, none waits less than one; for delays below 2^64 milliseconds.
pub proof fn law_jitter_only_shortens<L: RetryLogic>(
    attempts: usize,
    initial: Duration,
    max: Duration,
    logic: L,
    first: FibonacciRetryPolicy<L>,
    results: Seq<Result<&L::Response, ServiceError<'_, L::Error>>>,
    retries: Seq<RetryPolicyFuture<L>>,
    n: int,
)
    requires
        call_ensures(
            FibonacciRetryPolicy::<L>::new,
            (attempts, initial, max, logic, JitterMode::Full),
            first,
        ),
        made_in_turn(first, results, retries),
        0 <= n < retries.len(),
        initial@ < 0x1_0000_0000_0000_0000 * 1_000_000,
        max@ < 0x1_0000_0000_0000_0000 * 1_000_000,
    ensures
        ({
            let span = if n == 0 {
                initial@
            } else if fibonacci((n + 1) as nat) * initial@ <= max@ {
                fibonacci((n + 1) as nat) * initial@
            } else {
                max@
            };
            let wait = retries[n].delay@;
            if span < 1_000_000 {
                wait == 0
            } else {
                &&& 1_000_000 <= wait <= span
                &&& wait % 1_000_000 == 0
            }
        }),
{
    law_fresh_policy_by_chance(attempts, initial, max, logic, JitterMode::Full, first);
    lemma_policy_after(first, results, retries, n);
    lemma_policy_after(first, results, retries, n + 1);
    lemma_current(first, results, retries, n);
    let policy = policy_after(first, retries, n)@;
    let span = policy.current;
    let random = if n == 0 {
        choose|random: u64| #[trigger] drawn(initial@, random, policy.jitter)
    } else {
        let before = policy_after(first, retries, n - 1)@;
        choose|random: u64| #[trigger] one_further(before, random, policy)
    };
    assert(drawn(span, random, policy.jitter));
    if span >= 1_000_000 {
        let millis = span / 1_000_000;
        assert(0 < millis < 0x1_0000_0000_0000_0000);
        assert(random as nat % millis < millis);
    }
}

/// A policy makes as many retries as it is made for. While fewer are made, a wanted one is made too,
/// and then none.
pub proof fn law_retries_in_all<L: RetryLogic>(
    attempts: usize,
    initial: Duration,
    max: Duration,
    logic: L,
    mode: JitterMode,
    first: FibonacciRetryPolicy<L>,
    results: Seq<Result<&L::Response, ServiceError<'_, L::Error>>>,
    retries: Seq<RetryPolicyFuture<L>>,
    wanted: bool,
    r: Option<RetryPolicyFuture<L>>,
)
    requires
        call_ensures(
            FibonacciRetryPolicy::<L>::new,
            (attempts, initial, max, logic, mode),
            first,
        ),
        made_in_turn(first, results, retries),
        call_ensures(
            FibonacciRetryPolicy::<L>::retry_if,
            (&policy_after(first, retries, retries.len() as int), wanted),
            r,
        ),
    ensures
        retries.len() <= attempts,
        r is Some <==> wanted && retries.len() < attempts,
{
    law_fresh_policy_by_chance(attempts, initial, max, logic, mode, first);
    lemma_policy_after(first, results, retries, retries.len() as int);
}

/// Advancing without jitter, a policy waits after `n` steps as its retries would: for the initial
/// delay at first, then for the Fibonacci number `n + 1` times it, up to the limit.
pub proof fn law_advanced_waits_follow_fibonacci<L: RetryLogic>(
    attempts: usize,
    initial: Duration,
    max: Duration,
    logic: L,
    policies: Seq<FibonacciRetryPolicy<L>>,
    wait: Duration,
)
    requires
        policies.len() > 0,
        policies.len() <= attempts + 1,
        call_ensures(
            FibonacciRetryPolicy::<L>::new,
            (attempts, initial, max, logic, JitterMode::NoJitter),
            policies[0],
        ),
        forall|k: int|
            #![trigger policies[k]]
            0 <= k < policies.len() - 1 ==> call_ensures(
                FibonacciRetryPolicy::<L>::advance,
                (&policies[k],),
                policies[k + 1],
            ),
        call_ensures(FibonacciRetryPolicy::<L>::backoff, (&policies.last(),), wait),
    ensures
        policies.len() == 1 ==> wait@ == initial@,
        policies.len() > 1 ==> wait@ == (if fibonacci(policies.len()) * initial@ <= max@ {
            fibonacci(policies.len()) * initial@
        } else {
            max@
        }),
{
    law_fresh_policy_by_chance(
        attempts,
        initial,
        max,
        logic,
        JitterMode::NoJitter,
        policies[0],
    );
    lemma_advanced(policies, policies.len() - 1);
    law_backoff(policies.last(), wait);
}

proof fn lemma_advanced<L: RetryLogic>(policies: Seq<FibonacciRetryPolicy<L>>, n: int)
    requires
        0 <= n < policies.len(),
        policies.len() <= policies[0]@.remaining_attempts + 1,
        policies[0]@.previous == 0,
        forall|k: int|
            #![trigger policies[k]]
            0 <= k < policies.len() - 1 ==> call_ensures(
                FibonacciRetryPolicy::<L>::advance,
                (&policies[k],),
                policies[k + 1],
            ),
    ensures
        policies[n]@.remaining_attempts == policies[0]@.remaining_attempts - n,
        policies[n]@.max == policies[0]@.max,
        policies[n]@.mode == policies[0]@.mode,
        n > 0 ==> policies[n]@.previous == policies[n - 1]@.current,
        policies[n]@.current == (if n == 0 {
            policies[0]@.current
        } else if fibonacci((n + 1) as nat) * policies[0]@.current <= policies[0]@.max {
            fibonacci((n + 1) as nat) * policies[0]@.current
        } else {
            policies[0]@.max
        }),
    decreases n,
{
    let initial = policies[0]@.current;
    let max = policies[0]@.max;
    if n > 0 {
        lemma_advanced(policies, n - 1);
        law_advance_by_chance(policies[n - 1], policies[n]);
        if n == 1 {
            assert(fibonacci(2) == 1) by {
                reveal_with_fuel(fibonacci, 3);
            }
            assert(fibonacci(2) * initial == initial) by (nonlinear_arith)
                requires
                    fibonacci(2) == 1,
            ;
        } else {
            lemma_advanced(policies, n - 2);
            lemma_growth(
                initial,
                max,
                (n - 2) as nat,
                policies[n - 2]@.current,
                policies[n - 1]@.current,
            );
        }
    }
}

} // verus!
