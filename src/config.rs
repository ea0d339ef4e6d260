use vstd::prelude::*;

verus! {

/// One whole in basis points.
pub const BPS: u64 = 10_000;

/// What a monitor does once its price feed has failed too often in a row.
#[derive(Clone, Copy, Debug, PartialEq, Eq, Structural)]
pub enum FeedExhaustion {
    /// Liquidate the whole position as a precaution.
    FailClosed,
    /// Stop monitoring and raise an alert, leaving the position as it is.
    FailOpen,
}

/// Thresholds of the exit policies.
#[derive(Clone, Copy, Debug, PartialEq, Eq, Structural)]
pub struct RiskConfig {
    /// Drop of the liquidity reserve since entry that counts as a rug pull.
    pub rug_drop_bps: u64,
    /// Drop of the price below entry that triggers a panic exit.
    pub panic_drop_bps: u64,
    /// Seconds after opening from which a stalled position is partly sold.
    pub stall_after_secs: u64,
    /// Gain over entry below which the position counts as stalled.
    pub stall_gain_bps: u64,
    /// Share of the remaining stake sold when the position has stalled.
    pub stall_exit_bps: u64,
    /// Drop from the peak price that triggers the trailing stop.
    pub trailing_drop_bps: u64,
    /// Multiple of the entry price at which the moon allocation is sold.
    pub moon_multiple: u64,
    /// Seconds after opening at which the moon allocation is sold anyway.
    pub moon_after_secs: u64,
    /// Consecutive feed failures tolerated before escalating.
    pub max_feed_failures: u32,
    /// Escalation once the tolerated failures are exceeded.
    pub on_feed_exhausted: FeedExhaustion,
}

impl RiskConfig {
    /// The thresholds are meaningful fractions and multiples.
    pub open spec fn wf(&self) -> bool {
        &&& self.rug_drop_bps <= BPS
        &&& self.panic_drop_bps <= BPS
        &&& self.stall_gain_bps <= BPS
        &&& self.stall_exit_bps <= BPS
        &&& self.trailing_drop_bps <= BPS
        &&& self.moon_multiple <= 2 * BPS
    }

    /// The default thresholds: 40% reserve drop, 60% price drop, half of the
    /// stake after 90 s below +10%, 30% trailing stop, moon exit at 50x or
    /// after one day; escalation to a full exit after more than four feed
    /// failures in a row.
    pub fn standard() -> (r: RiskConfig)
        ensures
            r.wf(),
            r.rug_drop_bps == 4000,
            r.panic_drop_bps == 6000,
            r.stall_after_secs == 90,
            r.stall_gain_bps == 1000,
            r.stall_exit_bps == 5000,
            r.trailing_drop_bps == 3000,
            r.moon_multiple == 50,
            r.moon_after_secs == 86400,
            r.max_feed_failures == 4,
            r.on_feed_exhausted == FeedExhaustion::FailClosed,
    {
        RiskConfig {
            rug_drop_bps: 4000,
            panic_drop_bps: 6000,
            stall_after_secs: 90,
            stall_gain_bps: 1000,
            stall_exit_bps: 5000,
            trailing_drop_bps: 3000,
            moon_multiple: 50,
            moon_after_secs: 86400,
            max_feed_failures: 4,
            on_feed_exhausted: FeedExhaustion::FailClosed,
        }
    }

    /// Whether the thresholds are meaningful.
    pub fn is_valid(&self) -> (r: bool)
        ensures
            r == self.wf(),
    {
        self.rug_drop_bps <= BPS && self.panic_drop_bps <= BPS && self.stall_gain_bps <= BPS
            && self.stall_exit_bps <= BPS && self.trailing_drop_bps <= BPS
            && self.moon_multiple <= 2 * BPS
    }
}

} // verus!
