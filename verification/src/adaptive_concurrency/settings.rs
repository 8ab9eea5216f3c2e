//! Settings of the adaptive concurrency limit.

use crate::bits::DoubleBits;
use vstd::prelude::*;
use vstd::string::*;

verus! {

/// The ratio 0.9.
pub const NINE_TENTHS: u64 = 0x3FEC_CCCC_CCCC_CCCD;

/// The ratio 0.4.
pub const FOUR_TENTHS: u64 = 0x3FD9_9999_9999_999A;

/// The number 2.5.
pub const TWO_AND_A_HALF: u64 = 0x4004_0000_0000_0000;

/// The initial concurrency unless another is set: 1.
pub fn default_initial_concurrency() -> (r: usize)
    ensures
        r == 1,
{
    1
}

/// The decrease ratio unless another is set: 0.9, a decrease by a tenth.
pub fn default_decrease_ratio() -> (r: DoubleBits)
    ensures
        r.bits == NINE_TENTHS,
{
    DoubleBits { bits: NINE_TENTHS }
}

/// The smoothing factor for latencies unless another is set: 0.4.
pub fn default_ewma_alpha() -> (r: DoubleBits)
    ensures
        r.bits == FOUR_TENTHS,
{
    DoubleBits { bits: FOUR_TENTHS }
}

/// The scale of the deviation that counts as congestion unless another is set: 2.5.
pub fn default_rtt_deviation_scale() -> (r: DoubleBits)
    ensures
        r.bits == TWO_AND_A_HALF,
{
    DoubleBits { bits: TWO_AND_A_HALF }
}

/// The largest concurrency unless another is set: 200.
pub fn default_max_concurrency_limit() -> (r: usize)
    ensures
        r == 200,
{
    200
}

/// What the settings hold.
pub struct SettingsModel {
    pub initial_concurrency: usize,
    pub decrease_ratio: DoubleBits,
    pub ewma_alpha: DoubleBits,
    pub rtt_deviation_scale: DoubleBits,
    pub max_concurrency_limit: usize,
}

impl SettingsModel {
    /// The settings where nothing is set.
    pub open spec fn defaults() -> SettingsModel {
        SettingsModel {
            initial_concurrency: 1,
            decrease_ratio: DoubleBits { bits: NINE_TENTHS },
            ewma_alpha: DoubleBits { bits: FOUR_TENTHS },
            rtt_deviation_scale: DoubleBits { bits: TWO_AND_A_HALF },
            max_concurrency_limit: 200,
        }
    }
}

/// Parameters of the limit, which rises by one at a time and falls by a ratio. The defaults seldom
/// need a change.
#[derive(Clone, Copy, Debug)]
pub struct AdaptiveConcurrencySettings {
    initial_concurrency: usize,
    decrease_ratio: DoubleBits,
    ewma_alpha: DoubleBits,
    rtt_deviation_scale: DoubleBits,
    max_concurrency_limit: usize,
}

impl View for AdaptiveConcurrencySettings {
    type V = SettingsModel;

    closed spec fn view(&self) -> SettingsModel {
        SettingsModel {
            initial_concurrency: self.initial_concurrency,
            decrease_ratio: self.decrease_ratio,
            ewma_alpha: self.ewma_alpha,
            rtt_deviation_scale: self.rtt_deviation_scale,
            max_concurrency_limit: self.max_concurrency_limit,
        }
    }
}

impl Default for AdaptiveConcurrencySettings {
    fn default() -> (r: AdaptiveConcurrencySettings)
        ensures
            r@ == SettingsModel::defaults(),
    {
        AdaptiveConcurrencySettings {
            initial_concurrency: default_initial_concurrency(),
            decrease_ratio: default_decrease_ratio(),
            ewma_alpha: default_ewma_alpha(),
            rtt_deviation_scale: default_rtt_deviation_scale(),
            max_concurrency_limit: default_max_concurrency_limit(),
        }
    }
}

impl AdaptiveConcurrencySettings {
    /// A builder with nothing set.
    pub fn builder() -> (r: AdaptiveConcurrencySettingsBuilder)
        ensures
            r@ == SettingsModel::defaults(),
    {
        AdaptiveConcurrencySettingsBuilder { settings: AdaptiveConcurrencySettings::default() }
    }

    /// The starting number of concurrent requests.
    pub fn get_initial_concurrency(&self) -> (r: usize)
        ensures
            r == self@.initial_concurrency,
    {
        self.initial_concurrency
    }

    /// The upper bound on concurrent requests.
    pub fn get_max_concurrency_limit(&self) -> (r: usize)
        ensures
            r == self@.max_concurrency_limit,
    {
        self.max_concurrency_limit
    }

    /// The factor by which congestion shrinks the limit.
    pub fn get_decrease_ratio(&self) -> (r: DoubleBits)
        ensures
            r == self@.decrease_ratio,
    {
        self.decrease_ratio
    }

    /// The weight of the newest latency in their moving average.
    pub fn get_ewma_alpha(&self) -> (r: DoubleBits)
        ensures
            r == self@.ewma_alpha,
    {
        self.ewma_alpha
    }

    /// How many deviations above the average a latency has to be to count as congestion.
    pub fn get_rtt_deviation_scale(&self) -> (r: DoubleBits)
        ensures
            r == self@.rtt_deviation_scale,
    {
        self.rtt_deviation_scale
    }

    /// These settings with another starting number of concurrent requests.
    pub fn initial_concurrency(self, value: usize) -> (r: AdaptiveConcurrencySettings)
        ensures
            r@ == (SettingsModel { initial_concurrency: value, ..self@ }),
    {
        AdaptiveConcurrencySettings { initial_concurrency: value, ..self }
    }

    /// These settings with another decrease ratio.
    pub fn decrease_ratio(self, value: DoubleBits) -> (r: AdaptiveConcurrencySettings)
        ensures
            r@ == (SettingsModel { decrease_ratio: value, ..self@ }),
    {
        AdaptiveConcurrencySettings { decrease_ratio: value, ..self }
    }

    /// These settings with another smoothing factor.
    pub fn ewma_alpha(self, value: DoubleBits) -> (r: AdaptiveConcurrencySettings)
        ensures
            r@ == (SettingsModel { ewma_alpha: value, ..self@ }),
    {
        AdaptiveConcurrencySettings { ewma_alpha: value, ..self }
    }

    /// These settings with another scale of deviations.
    pub fn rtt_deviation_scale(self, value: DoubleBits) -> (r: AdaptiveConcurrencySettings)
        ensures
            r@ == (SettingsModel { rtt_deviation_scale: value, ..self@ }),
    {
        AdaptiveConcurrencySettings { rtt_deviation_scale: value, ..self }
    }

    /// These settings with another upper bound on concurrent requests.
    pub fn max_concurrency_limit(self, value: usize) -> (r: AdaptiveConcurrencySettings)
        ensures
            r@ == (SettingsModel { max_concurrency_limit: value, ..self@ }),
    {
        AdaptiveConcurrencySettings { max_concurrency_limit: value, ..self }
    }
}

/// Builds [`AdaptiveConcurrencySettings`]. What is not set keeps its default. Its view is what it
/// would build.
#[derive(Clone, Copy, Debug)]
pub struct AdaptiveConcurrencySettingsBuilder {
    settings: AdaptiveConcurrencySettings,
}

impl View for AdaptiveConcurrencySettingsBuilder {
    type V = SettingsModel;

    closed spec fn view(&self) -> SettingsModel {
        self.settings@
    }
}

impl AdaptiveConcurrencySettingsBuilder {
    /// Sets the starting number of concurrent requests.
    pub fn initial_concurrency(self, value: usize) -> (r: AdaptiveConcurrencySettingsBuilder)
        ensures
            r@ == (SettingsModel { initial_concurrency: value, ..self@ }),
    {
        AdaptiveConcurrencySettingsBuilder { settings: self.settings.initial_concurrency(value) }
    }

    /// Sets the decrease ratio.
    pub fn decrease_ratio(self, value: DoubleBits) -> (r: AdaptiveConcurrencySettingsBuilder)
        ensures
            r@ == (SettingsModel { decrease_ratio: value, ..self@ }),
    {
        AdaptiveConcurrencySettingsBuilder { settings: self.settings.decrease_ratio(value) }
    }

    /// Sets the smoothing factor.
    pub fn ewma_alpha(self, value: DoubleBits) -> (r: AdaptiveConcurrencySettingsBuilder)
        ensures
            r@ == (SettingsModel { ewma_alpha: value, ..self@ }),
    {
        AdaptiveConcurrencySettingsBuilder { settings: self.settings.ewma_alpha(value) }
    }

    /// Sets the scale of deviations.
    pub fn rtt_deviation_scale(self, value: DoubleBits) -> (r: AdaptiveConcurrencySettingsBuilder)
        ensures
            r@ == (SettingsModel { rtt_deviation_scale: value, ..self@ }),
    {
        AdaptiveConcurrencySettingsBuilder { settings: self.settings.rtt_deviation_scale(value) }
    }

    /// Sets the upper bound on concurrent requests.
    pub fn max_concurrency_limit(self, value: usize) -> (r: AdaptiveConcurrencySettingsBuilder)
        ensures
            r@ == (SettingsModel { max_concurrency_limit: value, ..self@ }),
    {
        AdaptiveConcurrencySettingsBuilder { settings: self.settings.max_concurrency_limit(value) }
    }

    /// The settings.
    pub fn build(self) -> (r: AdaptiveConcurrencySettings)
        ensures
            r@ == self@,
    {
        self.settings
    }
}

/// A failure that says only whether it is worth a retry.
#[derive(Debug)]
pub struct Error(pub bool);

impl Error {
    /// Describes this failure.
    pub fn to_string(&self) -> (r: String)
        ensures
            r@ == "error"@,
    {
        String::from_str("error")
    }
}

} // verus!
