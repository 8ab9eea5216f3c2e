//! What is reported when the concurrency limit is adjusted.

use crate::duration::Duration;
use vstd::prelude::*;

verus! {

/// One adjustment of the limit.
#[derive(Clone, Copy, Debug)]
pub struct AdaptiveConcurrencyLimitData {
    pub concurrency: u64,
    pub reached_limit: bool,
    pub had_back_pressure: bool,
    pub current_rtt: Option<Duration>,
    pub past_rtt: Duration,
    pub past_rtt_deviation: Duration,
}

/// The samples that one adjustment adds to the histograms. A flag counts as 1 or 0.
#[derive(Clone, Copy, Debug)]
pub struct LimitSamples {
    pub limit: u64,
    pub reached_limit: u32,
    pub back_pressure: u32,
    pub past_rtt_mean: Duration,
}

fn mark(flag: bool) -> (r: u32)
    ensures
        r == (if flag {
            1u32
        } else {
            0u32
        }),
{
    if flag {
        1
    } else {
        0
    }
}

impl AdaptiveConcurrencyLimitData {
    /// The samples of this adjustment.
    pub fn samples(&self) -> (r: LimitSamples)
        ensures
            r.limit == self.concurrency,
            r.reached_limit == 1 <==> self.reached_limit,
            r.reached_limit == 0 <==> !self.reached_limit,
            r.back_pressure == 1 <==> self.had_back_pressure,
            r.back_pressure == 0 <==> !self.had_back_pressure,
            r.past_rtt_mean == self.past_rtt,
    {
        LimitSamples {
            limit: self.concurrency,
            reached_limit: mark(self.reached_limit),
            back_pressure: mark(self.had_back_pressure),
            past_rtt_mean: self.past_rtt,
        }
    }
}

} // verus!
