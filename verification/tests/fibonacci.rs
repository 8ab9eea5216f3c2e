use rate_limiter_aimd::adaptive_concurrency::retries::fibonacci::{can_jitter, full_jitter_of};
use rate_limiter_aimd::adaptive_concurrency::retries::{
    FibonacciRetryPolicy, JitterMode, RetryAction, RetryLogic, ServiceError,
};
use rate_limiter_aimd::duration::Duration;

#[derive(Debug, Clone)]
struct SvcRetryLogic;

impl RetryLogic for SvcRetryLogic {
    type Error = Error;
    type Response = &'static str;

    fn is_retriable_error(&self, error: &Self::Error) -> bool {
        error.0
    }
}

#[derive(Debug)]
struct Error(bool);

#[derive(Debug, Clone)]
struct BusyLogic;

impl RetryLogic for BusyLogic {
    type Error = Error;
    type Response = &'static str;

    fn is_retriable_error(&self, error: &Self::Error) -> bool {
        error.0
    }

    fn should_retry_response(&self, response: &Self::Response) -> RetryAction {
        match *response {
            "busy" => RetryAction::Retry("busy".into()),
            "gone" => RetryAction::DontRetry("gone".into()),
            _ => RetryAction::Successful,
        }
    }
}

fn five_attempts() -> FibonacciRetryPolicy<SvcRetryLogic> {
    FibonacciRetryPolicy::new(
        5,
        Duration::from_secs(1),
        Duration::from_secs(10),
        SvcRetryLogic,
        JitterMode::NoJitter,
    )
}

#[test]
fn service_error_retry() {
    let policy = five_attempts();

    let error = Error(true);
    let request = policy.clone_request(&"hello");
    let retry = policy.retry(Err(ServiceError::Expected(&error))).unwrap();
    assert_eq!(request, Some("hello"));
    assert!(!retry.delay.is_zero());
    assert!(retry.delay <= Duration::from_secs(2));
    assert_eq!(retry.delay, Duration::from_secs(1));

    assert!(retry.policy.retry(Ok(&"world")).is_none());
}

#[test]
fn service_error_no_retry() {
    let policy = five_attempts();

    assert_eq!(policy.clone_request(&"hello"), Some("hello"));
    assert!(policy.retry(Err(ServiceError::Expected(&Error(false)))).is_none());
}

#[test]
fn timeout_error() {
    let policy = five_attempts();

    assert_eq!(policy.clone_request(&"hello"), Some("hello"));
    let retry = policy.retry(Err(ServiceError::Elapsed)).unwrap();
    assert!(!retry.delay.is_zero());
    assert!(retry.delay <= Duration::from_secs(2));
    assert_eq!(retry.delay, Duration::from_secs(1));

    assert!(retry.policy.retry(Ok(&"world")).is_none());
}

#[test]
fn backoff_grows_to_max() {
    let mut policy = FibonacciRetryPolicy::new(
        10,
        Duration::from_secs(1),
        Duration::from_secs(10),
        SvcRetryLogic,
        JitterMode::NoJitter,
    );
    assert_eq!(Duration::from_secs(1), policy.backoff());

    policy = policy.advance();
    assert_eq!(Duration::from_secs(1), policy.backoff());

    policy = policy.advance();
    assert_eq!(Duration::from_secs(2), policy.backoff());

    policy = policy.advance();
    assert_eq!(Duration::from_secs(3), policy.backoff());

    policy = policy.advance();
    assert_eq!(Duration::from_secs(5), policy.backoff());

    policy = policy.advance();
    assert_eq!(Duration::from_secs(8), policy.backoff());

    policy = policy.advance();
    assert_eq!(Duration::from_secs(10), policy.backoff());

    policy = policy.advance();
    assert_eq!(Duration::from_secs(10), policy.backoff());
}

#[test]
fn backoff_grows_to_max_with_jitter() {
    let max_duration = Duration::from_secs(10);
    let mut policy = FibonacciRetryPolicy::new(
        10,
        Duration::from_secs(1),
        max_duration,
        SvcRetryLogic,
        JitterMode::Full,
    );

    let expected_fib = [1, 1, 2, 3, 5, 8];

    for (i, &exp_fib_secs) in expected_fib.iter().enumerate() {
        let backoff = policy.backoff();
        let upper_bound = Duration::from_secs(exp_fib_secs);

        // Check if the backoff is within the expected range, considering the jitter
        assert!(
            !backoff.is_zero() && backoff <= upper_bound,
            "Attempt {}: Expected backoff to be within 0 and {:?}, got {:?}",
            i + 1,
            upper_bound,
            backoff
        );

        policy = policy.advance();
    }

    // Once the max backoff is reached, it should not exceed the max backoff.
    for _ in 0..4 {
        let backoff = policy.backoff();
        assert!(
            !backoff.is_zero() && backoff <= max_duration,
            "Expected backoff to not exceed {:?}, got {:?}",
            max_duration,
            backoff
        );

        policy = policy.advance();
    }
}

#[test]
fn error_of_another_kind_is_never_retried() {
    assert!(five_attempts().retry(Err(ServiceError::Unexpected)).is_none());
}

#[test]
fn nothing_is_retried_without_attempts() {
    let policy = FibonacciRetryPolicy::new(
        0,
        Duration::from_secs(1),
        Duration::from_secs(10),
        BusyLogic,
        JitterMode::NoJitter,
    );
    assert!(policy.retry(Ok(&"busy")).is_none());
    assert!(policy.retry(Err(ServiceError::Expected(&Error(true)))).is_none());
    assert!(policy.retry(Err(ServiceError::Elapsed)).is_none());
}

#[test]
fn responses_are_retried_where_the_logic_says_so() {
    let policy = FibonacciRetryPolicy::new(
        2,
        Duration::from_secs(1),
        Duration::from_secs(10),
        BusyLogic,
        JitterMode::NoJitter,
    );
    assert!(policy.retry(Ok(&"busy")).is_some());
    assert!(policy.retry(Ok(&"gone")).is_none());
    assert!(policy.retry(Ok(&"fine")).is_none());
}

#[test]
fn attempts_run_out() {
    let mut policy = five_attempts();
    for _ in 0..5 {
        policy = policy.retry(Err(ServiceError::Elapsed)).unwrap().policy;
    }
    assert!(policy.retry(Err(ServiceError::Elapsed)).is_none());
}

#[test]
fn delays_are_fibonacci_multiples() {
    let mut policy = FibonacciRetryPolicy::new(
        9,
        Duration::from_millis(30),
        Duration::from_secs(3600),
        SvcRetryLogic,
        JitterMode::NoJitter,
    );
    for millis in [30, 30, 60, 90, 150, 240, 390, 630, 1020] {
        assert_eq!(policy.backoff(), Duration::from_millis(millis));
        policy = policy.advance();
    }
}

#[test]
fn first_delay_may_exceed_the_limit() {
    let policy = FibonacciRetryPolicy::new(
        2,
        Duration::from_secs(20),
        Duration::from_secs(10),
        SvcRetryLogic,
        JitterMode::NoJitter,
    );
    assert_eq!(policy.backoff(), Duration::from_secs(20));
    assert_eq!(policy.advance().backoff(), Duration::from_secs(10));
}

#[test]
fn drawn_delay_is_the_remainder_plus_one() {
    let second = Duration::from_secs(1);
    assert_eq!(full_jitter_of(second, 0), Duration::from_millis(1));
    assert_eq!(full_jitter_of(second, 999), Duration::from_millis(1000));
    assert_eq!(full_jitter_of(second, 1000), Duration::from_millis(1));
    assert_eq!(full_jitter_of(second, 12_345), Duration::from_millis(346));
    assert_eq!(full_jitter_of(Duration::new(0, 999_999), 7), Duration::from_millis(0));
}

#[test]
fn delay_follows_the_given_random_number() {
    let policy = FibonacciRetryPolicy::new_with_random(
        3,
        Duration::from_secs(1),
        Duration::from_secs(10),
        SvcRetryLogic,
        JitterMode::Full,
        41,
    );
    assert_eq!(policy.backoff(), Duration::from_millis(42));
    assert_eq!(policy.advance_with_random(1_999).backoff(), Duration::from_millis(1000));
    assert_eq!(policy.advance_with_random(3).advance_with_random(1_999).backoff(), Duration::from_secs(2));
}

#[test]
fn random_numbers_differ() {
    let draw = || {
        FibonacciRetryPolicy::new(
            1,
            Duration::from_secs(1_000_000),
            Duration::from_secs(1_000_000),
            SvcRetryLogic,
            JitterMode::Full,
        )
        .backoff()
    };
    let first = draw();
    assert!((0..20).any(|_| draw() != first));
}

#[test]
fn clone_keeps_the_delays() {
    let policy = five_attempts().advance().advance();
    assert_eq!(policy.clone().backoff(), Duration::from_secs(2));
    assert_eq!(policy.clone().advance().backoff(), Duration::from_secs(3));
}

#[test]
fn built_retry_waits_for_the_current_delay() {
    let retry = five_attempts().build_retry();
    assert_eq!(retry.delay, Duration::from_secs(1));
    assert_eq!(retry.policy.advance().backoff(), Duration::from_secs(2));
    assert!(five_attempts().retry_if(false).is_none());
    assert_eq!(five_attempts().retry_if(true).unwrap().delay, Duration::from_secs(1));
}

#[test]
fn whether_a_policy_can_go_on() {
    assert!(five_attempts().has_attempts() && five_attempts().can_advance());
    let used = FibonacciRetryPolicy::new(
        0,
        Duration::from_secs(1),
        Duration::from_secs(10),
        SvcRetryLogic,
        JitterMode::NoJitter,
    );
    assert!(!used.has_attempts() && !used.can_advance());
    let longest = Duration::new(u64::MAX, 999_999_999);
    let endless =
        FibonacciRetryPolicy::new(3, longest, longest, SvcRetryLogic, JitterMode::NoJitter);
    assert!(endless.can_advance());
    assert!(!endless.advance().can_advance());
}

#[test]
fn whether_a_delay_can_be_drawn() {
    assert!(can_jitter(Duration::from_secs(0)));
    assert!(can_jitter(Duration::from_millis(u64::MAX)));
    let wrapped = Duration::from_millis(u64::MAX).checked_add(Duration::from_millis(1)).unwrap();
    assert!(!can_jitter(wrapped));
    assert!(can_jitter(wrapped.checked_add(Duration::from_millis(1)).unwrap()));
}

#[test]
fn whether_a_retry_is_asked_for() {
    let policy = five_attempts();
    assert!(policy.asks_retry(Err(ServiceError::Elapsed)));
    assert!(policy.asks_retry(Err(ServiceError::Expected(&Error(true)))));
    assert!(!policy.asks_retry(Err(ServiceError::Expected(&Error(false)))));
    assert!(!policy.asks_retry(Err(ServiceError::Unexpected)));
    assert!(!policy.asks_retry(Ok(&"world")));
}
