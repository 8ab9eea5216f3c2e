use rate_limiter_aimd::adaptive_concurrency::http::{HttpError, HttpResponse, StatusCode};
use rate_limiter_aimd::adaptive_concurrency::reqwest_integration::DefaultReqwestRetryLogic;
use rate_limiter_aimd::adaptive_concurrency::retries::{
    ExponentialBackoff, ExponentialBackoffPolicy, JitterMode, RetryAction,
};
use rate_limiter_aimd::duration::Duration;

fn delays(backoff: &mut ExponentialBackoff, n: usize) -> Vec<Duration> {
    (0..n).map(|_| backoff.next().unwrap()).collect()
}

fn millis(all: &[u64]) -> Vec<Duration> {
    all.iter().map(|m| Duration::from_millis(*m)).collect()
}

fn policy(attempts: usize, mode: JitterMode) -> ExponentialBackoffPolicy<DefaultReqwestRetryLogic> {
    ExponentialBackoffPolicy::new(
        attempts,
        ExponentialBackoff::from_millis(10),
        DefaultReqwestRetryLogic,
        mode,
        None,
    )
}

fn response(code: u16) -> HttpResponse {
    HttpResponse::new(StatusCode::from_u16(code).unwrap(), None)
}

#[test]
fn delays_are_powers_of_the_base() {
    assert_eq!(delays(&mut ExponentialBackoff::from_millis(2), 5), millis(&[2, 4, 8, 16, 32]));
    assert_eq!(delays(&mut ExponentialBackoff::from_millis(10), 3), millis(&[10, 100, 1000]));
    assert_eq!(delays(&mut ExponentialBackoff::from_millis(1), 3), millis(&[1, 1, 1]));
    assert_eq!(delays(&mut ExponentialBackoff::from_millis(0), 3), millis(&[0, 0, 0]));
}

#[test]
fn factor_scales_each_delay() {
    let mut backoff = ExponentialBackoff::from_millis(2).factor(1000);
    assert_eq!(delays(&mut backoff, 4), millis(&[2000, 4000, 8000, 16000]));
    let mut backoff = ExponentialBackoff::new(3, 7, None);
    assert_eq!(delays(&mut backoff, 3), millis(&[21, 63, 189]));
}

#[test]
fn no_delay_is_longer_than_the_limit() {
    let mut backoff = ExponentialBackoff::from_millis(2).max_delay(Duration::from_millis(10));
    assert_eq!(delays(&mut backoff, 6), millis(&[2, 4, 8, 10, 10, 10]));
    let mut backoff = ExponentialBackoff::new(200, 2, Some(Duration::from_secs(30)));
    assert_eq!(delays(&mut backoff, 3), millis(&[400, 30_000, 30_000]));
}

#[test]
fn a_delay_equal_to_the_limit_is_kept() {
    let mut backoff = ExponentialBackoff::from_millis(2).max_delay(Duration::from_millis(8));
    assert_eq!(delays(&mut backoff, 5), millis(&[2, 4, 8, 8, 8]));
}

#[test]
fn large_delays_saturate() {
    let mut backoff = ExponentialBackoff::from_millis(u64::MAX);
    assert_eq!(delays(&mut backoff, 2), millis(&[u64::MAX, u64::MAX]));
    let mut backoff = ExponentialBackoff::from_millis(u64::MAX - 1);
    assert_eq!(delays(&mut backoff, 2), millis(&[u64::MAX - 1, u64::MAX]));
    let mut backoff = ExponentialBackoff::from_millis(u64::MAX / 2).factor(3);
    assert_eq!(delays(&mut backoff, 1), millis(&[u64::MAX]));
}

#[test]
fn reset_starts_over() {
    let mut backoff = ExponentialBackoff::from_millis(2).max_delay(Duration::from_millis(10));
    assert_eq!(delays(&mut backoff, 5), millis(&[2, 4, 8, 10, 10]));
    backoff.reset();
    assert_eq!(delays(&mut backoff, 4), millis(&[2, 4, 8, 10]));
}

#[test]
fn clone_goes_on_from_the_same_delay() {
    let mut backoff = ExponentialBackoff::from_millis(2);
    assert_eq!(delays(&mut backoff, 2), millis(&[2, 4]));
    assert_eq!(delays(&mut backoff.clone(), 2), millis(&[8, 16]));
    assert_eq!(delays(&mut backoff, 1), millis(&[8]));
}

#[test]
fn policy_delays_grow_until_attempts_run_out() {
    let mut current = policy(4, JitterMode::NoJitter);
    for due in [10, 100, 1000] {
        let retry = current.retry(Err(&HttpError::Timeout), |_| 0).unwrap();
        assert_eq!(retry.delay, Duration::from_millis(due));
        current = retry.policy_state_after_delay;
    }
    assert!(current.retry(Err(&HttpError::Timeout), |_| 0).is_none());
    assert!(current.retry(Ok(&response(503)), |_| 0).is_none());
}

#[test]
fn policy_follows_its_logic() {
    let policy = policy(3, JitterMode::NoJitter);
    assert!(policy.retry(Ok(&response(429)), |_| 0).is_some());
    assert!(policy.retry(Ok(&response(500)), |_| 0).is_some());
    assert!(policy.retry(Ok(&response(404)), |_| 0).is_none());
    assert!(policy.retry(Ok(&response(200)), |_| 0).is_none());
    let refused = HttpError::InvalidRequest { details: "no".to_string() };
    assert!(policy.retry(Err(&refused), |_| 0).is_none());
}

#[test]
fn full_jitter_draws_from_the_whole_delay() {
    let policy = policy(3, JitterMode::Full);
    let retry = policy.retry(Err(&HttpError::Timeout), |m| (m / 2) as u64).unwrap();
    assert_eq!(retry.delay, Duration::from_millis(5));
    let next = retry.policy_state_after_delay;
    assert_eq!(next.retry(Err(&HttpError::Timeout), |m| m as u64).unwrap().delay, Duration::from_millis(100));
    assert_eq!(next.apply_jitter(Duration::from_millis(40), |m| m as u64 - 1), Duration::from_millis(39));
}

#[test]
fn no_delay_is_drawn_below_a_millisecond() {
    let full = policy(3, JitterMode::Full);
    let short = Duration::new(0, 999_999);
    assert_eq!(full.apply_jitter(short, |_| unreachable!()), Duration::from_millis(0));
    let plain = policy(3, JitterMode::NoJitter);
    assert_eq!(plain.apply_jitter(short, |_| unreachable!()), short);
    assert_eq!(plain.jittered(short, 9), short);
    assert_eq!(full.jittered(Duration::from_secs(1), 9), Duration::from_millis(9));
}

#[test]
fn retry_for_an_action() {
    let some = policy(2, JitterMode::NoJitter);
    assert!(some.retry_for(&RetryAction::Retry("again".into()), |_| 0).is_some());
    assert!(some.retry_for(&RetryAction::DontRetry("no".into()), |_| 0).is_none());
    assert!(some.retry_for(&RetryAction::Successful, |_| 0).is_none());
    let none = policy(0, JitterMode::NoJitter);
    assert!(none.retry_for(&RetryAction::Retry("again".into()), |_| 0).is_none());
}

#[test]
fn built_future_leaves_the_backoff_alone() {
    let retry = policy(3, JitterMode::NoJitter).build_retry_future(Duration::from_secs(7));
    assert_eq!(retry.delay, Duration::from_secs(7));
    let next = retry.policy_state_after_delay.retry(Err(&HttpError::Timeout), |_| 0).unwrap();
    assert_eq!(next.delay, Duration::from_millis(10));
    assert!(next.policy_state_after_delay.retry(Err(&HttpError::Timeout), |_| 0).is_none());
}

#[test]
fn exponential_policy_clones_requests() {
    assert_eq!(policy(1, JitterMode::Full).clone_request(&"hello".to_string()), Some("hello".to_string()));
}

#[test]
fn attempts_include_the_first_one() {
    for attempts in 0..12 {
        let mut current = policy(attempts, JitterMode::Full);
        let mut made = 1;
        while let Some(retry) = current.retry(Err(&HttpError::Timeout), |_| 0) {
            current = retry.policy_state_after_delay;
            made += 1;
        }
        assert_eq!(made, attempts.max(1));
    }
}

#[test]
fn delays_grow_from_the_initial_one() {
    let mut backoff = ExponentialBackoff::starting_at(1000, 2, Some(Duration::from_secs(60)));
    assert_eq!(
        delays(&mut backoff, 8),
        millis(&[1000, 2000, 4000, 8000, 16_000, 32_000, 60_000, 60_000])
    );
    backoff.reset();
    assert_eq!(delays(&mut backoff, 3), millis(&[1000, 2000, 4000]));
    let mut backoff = ExponentialBackoff::starting_at(5, 3, None).factor(10);
    assert_eq!(delays(&mut backoff.clone(), 3), millis(&[50, 150, 450]));
    assert_eq!(delays(&mut backoff, 1), millis(&[50]));
    let mut backoff = ExponentialBackoff::starting_at(7, 1, None);
    assert_eq!(delays(&mut backoff, 3), millis(&[7, 7, 7]));
    let mut backoff = ExponentialBackoff::starting_at(u64::MAX / 2, 3, None);
    assert_eq!(delays(&mut backoff, 3), millis(&[u64::MAX / 2, u64::MAX, u64::MAX]));
}

#[test]
fn base_zero_after_a_first_delay_over_the_limit() {
    let mut backoff = ExponentialBackoff::starting_at(70, 0, Some(Duration::from_millis(60)));
    assert_eq!(delays(&mut backoff, 3), millis(&[60, 60, 60]));
    let mut backoff = ExponentialBackoff::starting_at(50, 0, Some(Duration::from_millis(60)));
    assert_eq!(delays(&mut backoff, 3), millis(&[50, 0, 0]));
}
