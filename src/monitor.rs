use vstd::prelude::*;

use crate::config::{FeedExhaustion, RiskConfig};
use crate::policy::{applied, evaluate, evaluate_spec, sold_by, Decision, Observation};
use crate::lemmas::lemma_apply_monotone;
use crate::position::{status_rank, Position, Status};

verus! {

/// Why a price feed gave no usable observation.
#[derive(Clone, Copy, Debug, PartialEq, Eq, Structural)]
pub enum FeedError {
    /// The feed could not be reached or timed out.
    Unavailable,
    /// The observation failed validation.
    Malformed,
}

/// Why a monitor has stopped.
#[derive(Clone, Copy, Debug, PartialEq, Eq, Structural)]
pub enum StopReason {
    /// The position is fully liquidated.
    Closed,
    /// The feed failed more often in a row than the configuration tolerates.
    FeedExhausted,
    /// Monitoring was cancelled from outside.
    Cancelled,
}

/// Instruction for the execution sink.
#[derive(Clone, Copy, Debug, PartialEq, Eq, Structural)]
pub struct Liquidation {
    /// Stake to sell.
    pub amount: u64,
    /// Stake held just before the sale.
    pub held: u64,
    /// Whether the sale closes out the position in an emergency.
    pub urgent: bool,
}

/// What one tick did, for the loop that drives the monitor.
#[derive(Clone, Copy, Debug, PartialEq, Eq, Structural)]
pub struct TickReport {
    /// The decision applied on this tick.
    pub decision: Decision,
    /// The sale to submit, if the decision sells anything.
    pub liquidation: Option<Liquidation>,
    /// Set once the monitor has stopped.
    pub stop: Option<StopReason>,
}

/// The position after a valid observation: the peak is raised to the observed
/// price where that is higher.
pub open spec fn with_peak(p: Position, obs: Observation) -> Position {
    Position { peak_price: if obs.price > p.peak_price { obs.price } else { p.peak_price }, ..p }
}

/// An observation is usable when its price is positive.
pub open spec fn well_formed_observation(obs: Observation) -> bool {
    obs.price > 0
}

/// Watches one position: takes the feed's result on each tick, decides, and
/// applies the decision before reporting it.
#[derive(Clone, Debug)]
pub struct RiskMonitor {
    pub position: Position,
    pub config: RiskConfig,
    /// Feed failures since the last usable observation.
    pub consecutive_failures: u32,
    /// Set once the monitor has stopped; no tick changes anything after that.
    pub stopped: Option<StopReason>,
}

impl RiskMonitor {
    pub open spec fn wf(&self) -> bool {
        &&& self.position.wf()
        &&& self.config.wf()
        &&& (self.position.status == Status::Closed ==> self.stopped.is_some())
    }

    /// A running monitor for an open position.
    pub fn new(position: Position, config: RiskConfig) -> (m: RiskMonitor)
        requires
            position.wf(),
            position.status != Status::Closed,
            config.wf(),
        ensures
            m.wf(),
            m.position == position,
            m.config == config,
            m.consecutive_failures == 0,
            m.stopped.is_none(),
    {
        RiskMonitor { position, config, consecutive_failures: 0, stopped: None }
    }

    /// Whether the monitor still runs.
    pub fn is_running(&self) -> (r: bool)
        ensures
            r == self.stopped.is_none(),
    {
        self.stopped.is_none()
    }

    /// Stops the monitor; a monitor already stopped keeps its reason.
    pub fn cancel(&mut self)
        requires
            old(self).wf(),
        ensures
            final(self).wf(),
            final(self).position == old(self).position,
            final(self).config == old(self).config,
            final(self).consecutive_failures == old(self).consecutive_failures,
            final(self).stopped == (if old(self).stopped.is_none() {
                Some(StopReason::Cancelled)
            } else {
                old(self).stopped
            }),
    {
        if self.stopped.is_none() {
            self.stopped = Some(StopReason::Cancelled);
        }
    }

    /// Applies `d` and builds the report of the tick.
    fn settle(&mut self, d: Decision) -> (r: TickReport)
        requires
            old(self).wf(),
            old(self).stopped.is_none(),
            d matches Decision::PartialExit(bps) ==> bps == old(self).config.stall_exit_bps,
        ensures
            final(self).wf(),
            final(self).position == applied(old(self).position, d),
            final(self).position.remaining_stake <= old(self).position.remaining_stake,
            final(self).position.moon_remaining <= old(self).position.moon_remaining,
            status_rank(final(self).position.status) >= status_rank(old(self).position.status),
            final(self).config == old(self).config,
            final(self).consecutive_failures == old(self).consecutive_failures,
            r.decision == d,
            r.liquidation == (if d == Decision::NoAction {
                None
            } else {
                Some(
                    Liquidation {
                        amount: sold_by(old(self).position, d) as u64,
                        held: old(self).position.remaining_stake,
                        urgent: d == Decision::FullExit,
                    },
                )
            }),
            final(self).stopped == (if final(self).position.remaining_stake == 0 {
                Some(StopReason::Closed)
            } else {
                None
            }),
            r.stop == final(self).stopped,
    {
        let held = self.position.remaining_stake;
        proof {
            lemma_apply_monotone(self.config, self.position, d);
        }
        let sold = self.position.apply(d);
        let liquidation = match d {
            Decision::NoAction => None,
            _ => Some(Liquidation { amount: sold, held, urgent: d == Decision::FullExit }),
        };
        if self.position.remaining_stake == 0 {
            self.stopped = Some(StopReason::Closed);
        }
        TickReport { decision: d, liquidation, stop: self.stopped }
    }

    /// Handles one tick given the feed's result at time `now`.
    ///
    /// A usable observation resets the failure count, raises the peak,
    /// and applies the policies' decision. A failure, or an observation
    /// without a positive price, is counted; once the count exceeds the
    /// tolerated number the monitor escalates: fail-closed applies a full
    /// exit, fail-open leaves the position as it is; either way it stops.
    /// A stopped monitor changes nothing.
    pub fn tick(&mut self, now: u64, feed: Result<Observation, FeedError>) -> (r: TickReport)
        requires
            old(self).wf(),
        ensures
            final(self).wf(),
            final(self).config == old(self).config,
            final(self).position.remaining_stake <= old(self).position.remaining_stake,
            final(self).position.moon_remaining <= old(self).position.moon_remaining,
            status_rank(final(self).position.status) >= status_rank(old(self).position.status),
            final(self).position.entry_price == old(self).position.entry_price,
            final(self).position.entry_reserve == old(self).position.entry_reserve,
            final(self).position.peak_price >= old(self).position.peak_price,
            old(self).stopped.is_some() ==> *final(self) == *old(self) && r == (TickReport {
                decision: Decision::NoAction,
                liquidation: None,
                stop: old(self).stopped,
            }),
            old(self).stopped.is_none() ==> {
                let usable = feed matches Ok(obs) && well_formed_observation(obs);
                let failures = if old(self).consecutive_failures == u32::MAX {
                    u32::MAX as int
                } else {
                    old(self).consecutive_failures + 1
                };
                let exhausted = !usable && failures > old(self).config.max_feed_failures;
                let fail_closed = old(self).config.on_feed_exhausted == FeedExhaustion::FailClosed;
                &&& usable ==> final(self).consecutive_failures == 0
                &&& !usable ==> final(self).consecutive_failures == failures
                &&& (usable ==> {
                    let p = with_peak(old(self).position, feed->Ok_0);
                    &&& r.decision == evaluate_spec(old(self).config, p, feed->Ok_0, now)
                    &&& final(self).position == applied(p, r.decision)
                    &&& r.liquidation == (if r.decision == Decision::NoAction {
                        None
                    } else {
                        Some(
                            Liquidation {
                                amount: sold_by(p, r.decision) as u64,
                                held: p.remaining_stake,
                                urgent: r.decision == Decision::FullExit,
                            },
                        )
                    })
                    &&& final(self).stopped == (if final(self).position.remaining_stake == 0 {
                        Some(StopReason::Closed)
                    } else {
                        None
                    })
                })
                &&& (!usable && !exhausted) ==> {
                    &&& final(self).position == old(self).position
                    &&& final(self).stopped.is_none()
                    &&& r.decision == Decision::NoAction
                    &&& r.liquidation.is_none()
                }
                &&& (exhausted && fail_closed) ==> {
                    &&& r.decision == Decision::FullExit
                    &&& final(self).position == applied(old(self).position, Decision::FullExit)
                    &&& r.liquidation == Some(
                        Liquidation {
                            amount: old(self).position.remaining_stake,
                            held: old(self).position.remaining_stake,
                            urgent: true,
                        },
                    )
                    &&& final(self).stopped == Some(StopReason::FeedExhausted)
                }
                &&& (exhausted && !fail_closed) ==> {
                    &&& final(self).position == old(self).position
                    &&& r.decision == Decision::NoAction
                    &&& r.liquidation.is_none()
                    &&& final(self).stopped == Some(StopReason::FeedExhausted)
                }
                &&& r.stop == final(self).stopped
            },
    {
        if self.stopped.is_some() {
            return TickReport { decision: Decision::NoAction, liquidation: None, stop: self.stopped };
        }
        match feed {
            Ok(obs) if obs.price > 0 => {
                self.consecutive_failures = 0;
                if obs.price > self.position.peak_price {
                    self.position.peak_price = obs.price;
                }
                let d = evaluate(&self.config, &self.position, &obs, now);
                self.settle(d)
            },
            _ => {
                if self.consecutive_failures < u32::MAX {
                    self.consecutive_failures = self.consecutive_failures + 1;
                }
                if self.consecutive_failures <= self.config.max_feed_failures {
                    return TickReport { decision: Decision::NoAction, liquidation: None, stop: None };
                }
                match self.config.on_feed_exhausted {
                    FeedExhaustion::FailClosed => {
                        let r = self.settle(Decision::FullExit);
                        self.stopped = Some(StopReason::FeedExhausted);
                        TickReport { stop: self.stopped, ..r }
                    },
                    FeedExhaustion::FailOpen => {
                        self.stopped = Some(StopReason::FeedExhausted);
                        TickReport { decision: Decision::NoAction, liquidation: None, stop: self.stopped }
                    },
                }
            },
        }
    }
}

} // verus!
