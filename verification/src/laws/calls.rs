//! Laws of the steps of a call, of the settings and of what is reported.

use crate::adaptive_concurrency::http::HttpError;
use crate::adaptive_concurrency::http::StatusCode;
use crate::adaptive_concurrency::internal_event::AdaptiveConcurrencyLimitData;
use crate::adaptive_concurrency::internal_event::LimitSamples;
use crate::adaptive_concurrency::request::url_parsed;
use crate::adaptive_concurrency::reqwest_integration::after_answer;
use crate::adaptive_concurrency::reqwest_integration::after_error_body;
use crate::adaptive_concurrency::reqwest_integration::after_failure;
use crate::adaptive_concurrency::reqwest_integration::first_step;
use crate::adaptive_concurrency::reqwest_integration::start_call;
use crate::adaptive_concurrency::reqwest_integration::CallStep;
use crate::adaptive_concurrency::settings::default_decrease_ratio;
use crate::adaptive_concurrency::settings::default_ewma_alpha;
use crate::adaptive_concurrency::settings::default_initial_concurrency;
use crate::adaptive_concurrency::settings::default_max_concurrency_limit;
use crate::adaptive_concurrency::settings::default_rtt_deviation_scale;
use crate::adaptive_concurrency::settings::AdaptiveConcurrencySettingsBuilder;
use crate::adaptive_concurrency::settings::SettingsModel;
use crate::adaptive_concurrency::AdaptiveConcurrencySettings;
use crate::adaptive_concurrency::Error;
use crate::bits::DoubleBits;
use vstd::prelude::*;

verus! {

/// A call is sent to the URL that its URI parses to; where it parses to none, it fails and says
/// which URI and why.
pub proof fn law_call_goes_to_its_url(uri: &str, r: CallStep)
    requires
        call_ensures(start_call, (uri,), r),
    ensures
        match url_parsed(uri@) {
            Ok(url) => r matches CallStep::Send { url: to } && to@ == url,
            Err(why) => r matches CallStep::Fail { error: HttpError::InvalidRequest { details } }
                && details@ == "Invalid URL '"@ + uri@ + "': "@ + why,
        },
{
}

/// The first step follows what parsing gave.
pub proof fn law_first_step_follows_the_parse(
    uri: &str,
    parsed: Result<String, String>,
    r: CallStep,
)
    requires
        call_ensures(first_step, (uri, parsed), r),
    ensures
        match parsed {
            Ok(url) => r matches CallStep::Send { url: to } && to@ == url@,
            Err(why) => r matches CallStep::Fail { error: HttpError::InvalidRequest { details } }
                && details@ == "Invalid URL '"@ + uri@ + "': "@ + why@,
        },
{
}

/// An answer from 200 to 299 is handed on, and of any other the body is read.
pub proof fn law_success_is_handed_on(status: StatusCode, r: CallStep)
    requires
        call_ensures(after_answer, (status,), r),
    ensures
        if 200 <= status@ < 300 {
            r is Accept
        } else {
            r matches CallStep::ReadErrorBody { status: of } && of@ == status@
        },
{
}

/// An answer that is no success fails the call with its status and its whole body.
pub proof fn law_error_body_is_reported(status: StatusCode, body: Option<String>, r: CallStep)
    requires
        call_ensures(after_error_body, (status, body), r),
    ensures
        r matches CallStep::Fail { error: HttpError::ServerError { status: code, body: text } }
            && code == status@ && match body {
            Some(read) => text@ == read@,
            None => text@ == "Could not read error body"@,
        },
{
}

/// A failure is a timeout where it says so, else one of the network where no connection was made,
/// else one of the client; and it keeps its cause.
pub proof fn law_failures_are_told_apart(
    is_timeout: bool,
    is_connect: bool,
    source: String,
    r: CallStep,
)
    requires
        call_ensures(after_failure, (is_timeout, is_connect, source), r),
    ensures
        if is_timeout {
            r matches CallStep::Fail { error: HttpError::Timeout }
        } else if is_connect {
            r matches CallStep::Fail { error: HttpError::Transport { source: cause } } && cause@
                == source@
        } else {
            r matches CallStep::Fail { error: HttpError::ClientError { source: cause } } && cause@
                == source@
        },
{
}

/// The default settings are one request at first, two hundred at most, and the bit patterns of 0.9,
/// 0.4 and 2.5; a builder with nothing set builds them too.
pub proof fn law_default_settings(
    r: AdaptiveConcurrencySettings,
    builder: AdaptiveConcurrencySettingsBuilder,
    built: AdaptiveConcurrencySettings,
)
    requires
        call_ensures(AdaptiveConcurrencySettings::default, (), r),
        call_ensures(AdaptiveConcurrencySettings::builder, (), builder),
        call_ensures(AdaptiveConcurrencySettingsBuilder::build, (builder,), built),
    ensures
        r@.initial_concurrency == 1,
        r@.max_concurrency_limit == 200,
        r@.decrease_ratio.bits == 0x3FEC_CCCC_CCCC_CCCD,
        r@.ewma_alpha.bits == 0x3FD9_9999_9999_999A,
        r@.rtt_deviation_scale.bits == 0x4004_0000_0000_0000,
        built@ == r@,
{
}

/// Each default by itself is the one that the settings have.
pub proof fn law_single_defaults(
    initial: usize,
    max: usize,
    ratio: DoubleBits,
    alpha: DoubleBits,
    scale: DoubleBits,
)
    requires
        call_ensures(default_initial_concurrency, (), initial),
        call_ensures(default_max_concurrency_limit, (), max),
        call_ensures(default_decrease_ratio, (), ratio),
        call_ensures(default_ewma_alpha, (), alpha),
        call_ensures(default_rtt_deviation_scale, (), scale),
    ensures
        initial == 1,
        max == 200,
        ratio.bits == 0x3FEC_CCCC_CCCC_CCCD,
        alpha.bits == 0x3FD9_9999_9999_999A,
        scale.bits == 0x4004_0000_0000_0000,
{
}

/// What settings hold can be read.
pub proof fn law_settings_are_read(
    settings: AdaptiveConcurrencySettings,
    initial: usize,
    max: usize,
    ratio: DoubleBits,
    alpha: DoubleBits,
    scale: DoubleBits,
)
    requires
        call_ensures(AdaptiveConcurrencySettings::get_initial_concurrency, (&settings,), initial),
        call_ensures(AdaptiveConcurrencySettings::get_max_concurrency_limit, (&settings,), max),
        call_ensures(AdaptiveConcurrencySettings::get_decrease_ratio, (&settings,), ratio),
        call_ensures(AdaptiveConcurrencySettings::get_ewma_alpha, (&settings,), alpha),
        call_ensures(AdaptiveConcurrencySettings::get_rtt_deviation_scale, (&settings,), scale),
    ensures
        settings@ == (SettingsModel {
            initial_concurrency: initial,
            decrease_ratio: ratio,
            ewma_alpha: alpha,
            rtt_deviation_scale: scale,
            max_concurrency_limit: max,
        }),
{
}

/// Setting a field sets it to just that value and leaves the others alone.
pub proof fn law_setters_set_one_field(
    settings: AdaptiveConcurrencySettings,
    count: usize,
    value: DoubleBits,
    a: AdaptiveConcurrencySettings,
    b: AdaptiveConcurrencySettings,
    c: AdaptiveConcurrencySettings,
    d: AdaptiveConcurrencySettings,
    e: AdaptiveConcurrencySettings,
)
    requires
        call_ensures(AdaptiveConcurrencySettings::initial_concurrency, (settings, count), a),
        call_ensures(AdaptiveConcurrencySettings::max_concurrency_limit, (settings, count), b),
        call_ensures(AdaptiveConcurrencySettings::decrease_ratio, (settings, value), c),
        call_ensures(AdaptiveConcurrencySettings::ewma_alpha, (settings, value), d),
        call_ensures(AdaptiveConcurrencySettings::rtt_deviation_scale, (settings, value), e),
    ensures
        a@ == (SettingsModel { initial_concurrency: count, ..settings@ }),
        b@ == (SettingsModel { max_concurrency_limit: count, ..settings@ }),
        c@ == (SettingsModel { decrease_ratio: value, ..settings@ }),
        d@ == (SettingsModel { ewma_alpha: value, ..settings@ }),
        e@ == (SettingsModel { rtt_deviation_scale: value, ..settings@ }),
{
}

/// Setting a field of a builder sets it to just that value and leaves the others alone, and what is
/// built is what was set.
pub proof fn law_builder_sets_one_field(
    builder: AdaptiveConcurrencySettingsBuilder,
    count: usize,
    value: DoubleBits,
    a: AdaptiveConcurrencySettingsBuilder,
    b: AdaptiveConcurrencySettingsBuilder,
    c: AdaptiveConcurrencySettingsBuilder,
    d: AdaptiveConcurrencySettingsBuilder,
    e: AdaptiveConcurrencySettingsBuilder,
    built: AdaptiveConcurrencySettings,
)
    requires
        call_ensures(AdaptiveConcurrencySettingsBuilder::initial_concurrency, (builder, count), a),
        call_ensures(AdaptiveConcurrencySettingsBuilder::max_concurrency_limit, (builder, count), b),
        call_ensures(AdaptiveConcurrencySettingsBuilder::decrease_ratio, (builder, value), c),
        call_ensures(AdaptiveConcurrencySettingsBuilder::ewma_alpha, (builder, value), d),
        call_ensures(AdaptiveConcurrencySettingsBuilder::rtt_deviation_scale, (builder, value), e),
        call_ensures(AdaptiveConcurrencySettingsBuilder::build, (builder,), built),
    ensures
        a@ == (SettingsModel { initial_concurrency: count, ..builder@ }),
        b@ == (SettingsModel { max_concurrency_limit: count, ..builder@ }),
        c@ == (SettingsModel { decrease_ratio: value, ..builder@ }),
        d@ == (SettingsModel { ewma_alpha: value, ..builder@ }),
        e@ == (SettingsModel { rtt_deviation_scale: value, ..builder@ }),
        built@ == builder@,
{
}

/// A plain failure says nothing of itself.
pub proof fn law_plain_failure_text(error: Error, r: String)
    requires
        call_ensures(Error::to_string, (&error,), r),
    ensures
        r@ == "error"@,
{
}

/// An adjustment is reported as it is: its limit, its round-trip time, and each flag as 1 or 0.
pub proof fn law_adjustment_is_reported(data: AdaptiveConcurrencyLimitData, r: LimitSamples)
    requires
        call_ensures(AdaptiveConcurrencyLimitData::samples, (&data,), r),
    ensures
        r.limit == data.concurrency,
        r.reached_limit == (if data.reached_limit {
            1int
        } else {
            0
        }),
        r.back_pressure == (if data.had_back_pressure {
            1int
        } else {
            0
        }),
        r.past_rtt_mean@ == data.past_rtt@,
{
}

} // verus!
