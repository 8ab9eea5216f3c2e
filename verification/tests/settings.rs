use rate_limiter_aimd::adaptive_concurrency::internal_event::AdaptiveConcurrencyLimitData;
use rate_limiter_aimd::adaptive_concurrency::{AdaptiveConcurrencySettings, Error};
use rate_limiter_aimd::bits::DoubleBits;
use rate_limiter_aimd::duration::Duration;
use rate_limiter_aimd::text::{decimal_text, take_chars, trim_end};

fn double(value: f64) -> DoubleBits {
    DoubleBits { bits: value.to_bits() }
}

fn assert_defaults(settings: AdaptiveConcurrencySettings) {
    assert_eq!(settings.get_initial_concurrency(), 1);
    assert_eq!(settings.get_max_concurrency_limit(), 200);
    assert_eq!(f64::from_bits(settings.get_decrease_ratio().bits), 0.9);
    assert_eq!(f64::from_bits(settings.get_ewma_alpha().bits), 0.4);
    assert_eq!(f64::from_bits(settings.get_rtt_deviation_scale().bits), 2.5);
}

#[test]
fn documented_defaults() {
    assert_defaults(AdaptiveConcurrencySettings::default());
    assert_defaults(AdaptiveConcurrencySettings::builder().build());
}

#[test]
fn builder_sets_each_field() {
    let settings = AdaptiveConcurrencySettings::builder()
        .initial_concurrency(10)
        .decrease_ratio(double(0.8))
        .max_concurrency_limit(500)
        .build();
    assert_eq!(settings.get_initial_concurrency(), 10);
    assert_eq!(f64::from_bits(settings.get_decrease_ratio().bits), 0.8);
    assert_eq!(settings.get_max_concurrency_limit(), 500);
    assert_eq!(f64::from_bits(settings.get_ewma_alpha().bits), 0.4);
    assert_eq!(f64::from_bits(settings.get_rtt_deviation_scale().bits), 2.5);
    let settings = AdaptiveConcurrencySettings::builder()
        .ewma_alpha(double(0.3))
        .rtt_deviation_scale(double(1.25))
        .build();
    assert_eq!(f64::from_bits(settings.get_ewma_alpha().bits), 0.3);
    assert_eq!(f64::from_bits(settings.get_rtt_deviation_scale().bits), 1.25);
    assert_eq!(settings.get_initial_concurrency(), 1);
}

#[test]
fn settings_chain_from_their_defaults() {
    let settings = AdaptiveConcurrencySettings::default()
        .initial_concurrency(10)
        .max_concurrency_limit(100)
        .decrease_ratio(double(0.8));
    assert_eq!(settings.get_initial_concurrency(), 10);
    assert_eq!(settings.get_max_concurrency_limit(), 100);
    assert_eq!(f64::from_bits(settings.get_decrease_ratio().bits), 0.8);
    let settings = settings.ewma_alpha(double(0.5)).rtt_deviation_scale(double(3.0));
    assert_eq!(f64::from_bits(settings.get_ewma_alpha().bits), 0.5);
    assert_eq!(f64::from_bits(settings.get_rtt_deviation_scale().bits), 3.0);
}

#[test]
fn plain_error_is_described() {
    assert_eq!(Error(true).to_string(), "error");
    assert_eq!(Error(false).to_string(), "error");
}

#[test]
fn adjustment_becomes_samples() {
    let data = AdaptiveConcurrencyLimitData {
        concurrency: 7,
        reached_limit: true,
        had_back_pressure: false,
        current_rtt: None,
        past_rtt: Duration::from_millis(30),
        past_rtt_deviation: Duration::from_millis(4),
    };
    let samples = data.samples();
    assert_eq!(samples.limit, 7);
    assert_eq!(samples.reached_limit, 1);
    assert_eq!(samples.back_pressure, 0);
    assert_eq!(samples.past_rtt_mean, Duration::from_millis(30));
}

#[test]
fn durations_add_and_compare() {
    let (second, milli) = (Duration::from_secs(1), Duration::from_millis(1));
    assert_eq!(second.as_millis(), 1000);
    assert_eq!(second.as_nanos(), 1_000_000_000);
    assert!(second.is_longer_than(&milli) && !milli.is_longer_than(&second));
    assert!(!second.is_longer_than(&second));
    assert_eq!(second.min(milli), milli);
    assert_eq!(second.checked_add(milli), Some(Duration::new(1, 1_000_000)));
    assert_eq!(Duration::new(u64::MAX, 999_999_999).checked_add(Duration::new(0, 1)), None);
    assert!(Duration::from_secs(0).is_zero() && !milli.is_zero());
}

#[test]
fn decimal_numbers() {
    for n in [0, 9, 10, 99, 100, 4096, u16::MAX] {
        assert_eq!(decimal_text(n), format!("{}", n));
    }
}

#[test]
fn trailing_characters_are_trimmed() {
    assert_eq!(trim_end("a/b//", '/'), "a/b");
    assert_eq!(trim_end("a/b", '/'), "a/b");
    assert_eq!(trim_end("///", '/'), "");
    assert_eq!(trim_end("", '/'), "");
}

#[test]
fn texts_are_cut_by_characters() {
    assert_eq!(take_chars("h\u{e9}llo", 2), "h\u{e9}");
    assert_eq!(take_chars("ab", 2), "ab");
    assert_eq!(take_chars("ab", 9), "ab");
    assert_eq!(take_chars("ab", 0), "");
}
