use vstd::prelude::*;

use crate::config::{RiskConfig, BPS};
use crate::position::{share_of, FiredFlags, Position, Status};

verus! {

/// A market observation for one token.
#[derive(Clone, Copy, Debug, PartialEq, Eq, Structural)]
pub struct Observation {
    /// Price, in the same units as the entry price.
    pub price: u64,
    /// Liquidity reserve of the pool.
    pub liquidity_reserve: u64,
    /// Time of the observation, in seconds.
    pub observed_at: u64,
}

/// The one action the policies choose on a tick.
#[derive(Clone, Copy, Debug, PartialEq, Eq, Structural)]
pub enum Decision {
    NoAction,
    /// Sell the given share, in basis points, of the remaining stake.
    PartialExit(u64),
    /// Sell everything that remains.
    FullExit,
    /// Sell the moon allocation.
    MoonExit,
}

/// Seconds elapsed since opening; negative if `now` precedes the opening.
pub open spec fn elapsed(p: Position, now: u64) -> int {
    now as int - p.opened_at as int
}

/// The reserve has fallen by at least the rug threshold relative to the
/// reserve captured at entry: `1 - reserve / entry_reserve >= rug_drop`.
pub open spec fn rug_pulled(cfg: RiskConfig, p: Position, obs: Observation) -> bool {
    BPS as int * (p.entry_reserve as int - obs.liquidity_reserve as int)
        >= cfg.rug_drop_bps as int * p.entry_reserve as int
}

/// The price has fallen by at least the panic threshold below entry:
/// `(entry - price) / entry >= panic_drop`.
pub open spec fn panic_dropped(cfg: RiskConfig, p: Position, obs: Observation) -> bool {
    BPS as int * (p.entry_price as int - obs.price as int) >= cfg.panic_drop_bps as int
        * p.entry_price as int
}

/// The position is older than the stall delay and the price is still below
/// `entry * (1 + stall_gain)`.
pub open spec fn stalled(cfg: RiskConfig, p: Position, obs: Observation, now: u64) -> bool {
    &&& elapsed(p, now) > cfg.stall_after_secs as int
    &&& (BPS as int) * (obs.price as int) < (BPS as int + cfg.stall_gain_bps as int)
        * p.entry_price as int
}

/// The peak has exceeded the entry price and the price has fallen by at least
/// the trailing threshold below the peak: `(peak - price) / peak >= trailing_drop`.
pub open spec fn trailing_stopped(cfg: RiskConfig, p: Position, obs: Observation) -> bool {
    &&& p.peak_price > p.entry_price
    &&& BPS as int * (p.peak_price as int - obs.price as int) >= cfg.trailing_drop_bps as int
        * p.peak_price as int
}

/// The price has reached the moon multiple of entry, or the moon delay has passed.
pub open spec fn moon_due(cfg: RiskConfig, p: Position, obs: Observation, now: u64) -> bool {
    ||| obs.price as int >= cfg.moon_multiple as int * p.entry_price as int
    ||| elapsed(p, now) >= cfg.moon_after_secs as int
}

/// The decision for a tick: the first policy that triggers, in priority order.
pub open spec fn evaluate_spec(cfg: RiskConfig, p: Position, obs: Observation, now: u64) -> Decision {
    if rug_pulled(cfg, p, obs) {
        Decision::FullExit
    } else if panic_dropped(cfg, p, obs) {
        Decision::FullExit
    } else if stalled(cfg, p, obs, now) && !p.fired.panic_timeout {
        Decision::PartialExit(cfg.stall_exit_bps)
    } else if trailing_stopped(cfg, p, obs) {
        Decision::FullExit
    } else if moon_due(cfg, p, obs, now) && !p.fired.moon {
        Decision::MoonExit
    } else {
        Decision::NoAction
    }
}

/// Stake that `d` liquidates from `p`.
pub open spec fn sold_by(p: Position, d: Decision) -> int {
    match d {
        Decision::NoAction => 0,
        Decision::PartialExit(bps) => (p.remaining_stake as int * bps as int) / BPS as int,
        Decision::FullExit => p.remaining_stake as int,
        Decision::MoonExit => p.moon_remaining as int,
    }
}

/// Status after an exit leaves `remaining` stake.
pub open spec fn status_after_exit(remaining: int) -> Status {
    if remaining == 0 {
        Status::Closed
    } else {
        Status::PartiallyExited
    }
}

/// `p` after applying `d`: the sold stake leaves `remaining_stake`, the moon
/// allocation never exceeds what remains, and a one-shot policy records that
/// it has fired.
pub open spec fn applied(p: Position, d: Decision) -> Position {
    let remaining = (p.remaining_stake as int - sold_by(p, d)) as u64;
    if d == Decision::NoAction {
        p
    } else {
        Position {
            remaining_stake: remaining,
            moon_remaining: if d == Decision::MoonExit {
                0
            } else if p.moon_remaining <= remaining {
                p.moon_remaining
            } else {
                remaining
            },
            status: status_after_exit(remaining as int),
            fired: FiredFlags {
                panic_timeout: p.fired.panic_timeout || d is PartialExit,
                moon: p.fired.moon || d == Decision::MoonExit,
            },
            ..p
        }
    }
}

/// `a * ka + b * kb`, computed without overflow for the threshold comparisons.
fn weighted_sum(a: u64, ka: u64, b: u64, kb: u64) -> (r: u128)
    requires
        ka <= 2 * BPS,
        kb <= 2 * BPS,
    ensures
        r as int == a as int * ka as int + b as int * kb as int,
{
    proof {
        assert(a as int * ka as int <= 20000 * 0xffff_ffff_ffff_ffff) by (nonlinear_arith)
            requires
                ka <= 20000,
                0 <= a <= 0xffff_ffff_ffff_ffff,
        ;
        assert(b as int * kb as int <= 20000 * 0xffff_ffff_ffff_ffff) by (nonlinear_arith)
            requires
                kb <= 20000,
                0 <= b <= 0xffff_ffff_ffff_ffff,
        ;
    }
    (a as u128) * (ka as u128) + (b as u128) * (kb as u128)
}

/// Whether the rug-pull check triggers.
pub fn check_rug_pull(cfg: &RiskConfig, p: &Position, obs: &Observation) -> (r: bool)
    requires
        cfg.wf(),
    ensures
        r == rug_pulled(*cfg, *p, *obs),
{
    weighted_sum(p.entry_reserve, cfg.rug_drop_bps, obs.liquidity_reserve, BPS)
        <= weighted_sum(p.entry_reserve, BPS, 0, 0)
}

/// Whether the panic check's full exit triggers.
pub fn check_panic_sell(cfg: &RiskConfig, p: &Position, obs: &Observation) -> (r: bool)
    requires
        cfg.wf(),
    ensures
        r == panic_dropped(*cfg, *p, *obs),
{
    weighted_sum(p.entry_price, cfg.panic_drop_bps, obs.price, BPS)
        <= weighted_sum(p.entry_price, BPS, 0, 0)
}

/// Whether the position has stalled.
pub fn check_stall(cfg: &RiskConfig, p: &Position, obs: &Observation, now: u64) -> (r: bool)
    requires
        cfg.wf(),
    ensures
        r == stalled(*cfg, *p, *obs, now),
{
    let old_enough = now >= p.opened_at && now - p.opened_at > cfg.stall_after_secs;
    old_enough && weighted_sum(obs.price, BPS, 0, 0) < weighted_sum(
        p.entry_price,
        BPS + cfg.stall_gain_bps,
        0,
        0,
    )
}

/// Whether the trailing stop triggers.
pub fn check_trailing_stop(cfg: &RiskConfig, p: &Position, obs: &Observation) -> (r: bool)
    requires
        cfg.wf(),
    ensures
        r == trailing_stopped(*cfg, *p, *obs),
{
    p.peak_price > p.entry_price && weighted_sum(
        p.peak_price,
        cfg.trailing_drop_bps,
        obs.price,
        BPS,
    ) <= weighted_sum(p.peak_price, BPS, 0, 0)
}

/// Whether the moon exit is due.
pub fn check_moon_exit(cfg: &RiskConfig, p: &Position, obs: &Observation, now: u64) -> (r: bool)
    requires
        cfg.wf(),
    ensures
        r == moon_due(*cfg, *p, *obs, now),
{
    weighted_sum(obs.price, 1, 0, 0) >= weighted_sum(p.entry_price, cfg.moon_multiple, 0, 0) || (
    now >= p.opened_at && now - p.opened_at >= cfg.moon_after_secs)
}

/// Chooses the action for a tick: the first of rug pull, panic drop, stall,
/// trailing stop and moon exit that triggers; a one-shot policy that has
/// already fired is skipped.
pub fn evaluate(cfg: &RiskConfig, p: &Position, obs: &Observation, now: u64) -> (d: Decision)
    requires
        cfg.wf(),
    ensures
        d == evaluate_spec(*cfg, *p, *obs, now),
{
    if check_rug_pull(cfg, p, obs) {
        Decision::FullExit
    } else if check_panic_sell(cfg, p, obs) {
        Decision::FullExit
    } else if !p.fired.panic_timeout && check_stall(cfg, p, obs, now) {
        Decision::PartialExit(cfg.stall_exit_bps)
    } else if check_trailing_stop(cfg, p, obs) {
        Decision::FullExit
    } else if !p.fired.moon && check_moon_exit(cfg, p, obs, now) {
        Decision::MoonExit
    } else {
        Decision::NoAction
    }
}

impl Position {
    /// Applies a decision and returns the stake it liquidated.
    pub fn apply(&mut self, d: Decision) -> (sold: u64)
        requires
            old(self).wf(),
            d matches Decision::PartialExit(bps) ==> bps <= BPS,
        ensures
            *final(self) == applied(*old(self), d),
            sold == sold_by(*old(self), d),
            final(self).wf(),
    {
        let sold: u64 = match d {
            Decision::NoAction => 0,
            Decision::PartialExit(bps) => share_of(self.remaining_stake, bps),
            Decision::FullExit => self.remaining_stake,
            Decision::MoonExit => self.moon_remaining,
        };
        if let Decision::NoAction = d {
            return 0;
        }
        let remaining = self.remaining_stake - sold;
        self.remaining_stake = remaining;
        if let Decision::MoonExit = d {
            self.moon_remaining = 0;
            self.fired.moon = true;
        } else if self.moon_remaining > remaining {
            self.moon_remaining = remaining;
        }
        if let Decision::PartialExit(_) = d {
            self.fired.panic_timeout = true;
        }
        self.status = if remaining == 0 {
            Status::Closed
        } else {
            Status::PartiallyExited
        };
        sold
    }
}

} // verus!
