use vstd::prelude::*;

use crate::config::BPS;

verus! {

/// Lifecycle stage of a position; it only ever moves forward.
#[derive(Clone, Copy, Debug, PartialEq, Eq, Structural)]
pub enum Status {
    Active,
    PartiallyExited,
    Closed,
}

/// Rank of a status in the order `Active`, `PartiallyExited`, `Closed`.
pub open spec fn status_rank(s: Status) -> int {
    match s {
        Status::Active => 0,
        Status::PartiallyExited => 1,
        Status::Closed => 2,
    }
}

/// One-shot policies that have already fired for a position.
#[derive(Clone, Copy, Debug, PartialEq, Eq, Structural)]
pub struct FiredFlags {
    /// The partial exit of a stalled position.
    pub panic_timeout: bool,
    /// The sale of the moon allocation.
    pub moon: bool,
}

/// One open trade, owned by the monitor that watches it.
#[derive(Clone, Debug)]
pub struct Position {
    /// Opaque identifier of the traded asset.
    pub token_id: Vec<u8>,
    /// Price at opening, in price units.
    pub entry_price: u64,
    /// Liquidity reserve of the pool at opening.
    pub entry_reserve: u64,
    /// Stake committed at opening, in stake units.
    pub stake: u64,
    /// Share of the stake set aside for the moon exit, in basis points.
    pub moon_fraction_bps: u64,
    /// Stake not yet liquidated.
    pub remaining_stake: u64,
    /// Part of `remaining_stake` still held for the moon exit.
    pub moon_remaining: u64,
    /// Highest price observed since opening.
    pub peak_price: u64,
    /// Opening time, in seconds.
    pub opened_at: u64,
    pub status: Status,
    pub fired: FiredFlags,
}

/// Why a position could not be opened.
#[derive(Clone, Copy, Debug, PartialEq, Eq, Structural)]
pub enum OpenError {
    /// A parameter is out of range: a zero price, reserve or stake, or a moon
    /// share above the whole stake.
    InvalidParameters,
    /// The token already has an active monitor.
    AlreadyMonitored,
}

/// Whether opening parameters describe a position that can be monitored.
pub open spec fn valid_open_params(entry_price: u64, entry_reserve: u64, stake: u64, moon_fraction_bps: u64) -> bool {
    &&& entry_price > 0
    &&& entry_reserve > 0
    &&& stake > 0
    &&& moon_fraction_bps <= BPS
}

/// The moon allocation of a stake: the given share, rounded down.
pub open spec fn moon_allocation(stake: u64, moon_fraction_bps: u64) -> int {
    (stake as int * moon_fraction_bps as int) / BPS as int
}

impl Position {
    /// The invariant every monitored position keeps.
    pub open spec fn wf(&self) -> bool {
        &&& valid_open_params(self.entry_price, self.entry_reserve, self.stake, self.moon_fraction_bps)
        &&& self.remaining_stake <= self.stake
        &&& self.moon_remaining <= self.remaining_stake
        &&& self.peak_price >= self.entry_price
        &&& (self.status == Status::Closed <==> self.remaining_stake == 0)
        &&& (self.status == Status::Active ==> self.remaining_stake == self.stake)
        &&& (self.fired.moon ==> self.moon_remaining == 0)
    }

    /// The position as opened with the given parameters.
    pub open spec fn opened_spec(
        token_id: Seq<u8>,
        entry_price: u64,
        entry_reserve: u64,
        stake: u64,
        moon_fraction_bps: u64,
        now: u64,
        p: Position,
    ) -> bool {
        &&& p.token_id@ == token_id
        &&& p.entry_price == entry_price
        &&& p.entry_reserve == entry_reserve
        &&& p.stake == stake
        &&& p.moon_fraction_bps == moon_fraction_bps
        &&& p.remaining_stake == stake
        &&& p.moon_remaining == moon_allocation(stake, moon_fraction_bps)
        &&& p.peak_price == entry_price
        &&& p.opened_at == now
        &&& p.status == Status::Active
        &&& p.fired == FiredFlags { panic_timeout: false, moon: false }
    }

    /// Opens a position at time `now`, or rejects parameters out of range.
    pub fn open(
        token_id: Vec<u8>,
        entry_price: u64,
        entry_reserve: u64,
        stake: u64,
        moon_fraction_bps: u64,
        now: u64,
    ) -> (r: Result<Position, OpenError>)
        ensures
            valid_open_params(entry_price, entry_reserve, stake, moon_fraction_bps) <==> r is Ok,
            r is Err ==> r == Err::<Position, OpenError>(OpenError::InvalidParameters),
            r matches Ok(p) ==> p.wf() && Position::opened_spec(
                token_id@,
                entry_price,
                entry_reserve,
                stake,
                moon_fraction_bps,
                now,
                p,
            ),
    {
        if entry_price == 0 || entry_reserve == 0 || stake == 0 || moon_fraction_bps > BPS {
            return Err(OpenError::InvalidParameters);
        }
        let moon = share_of(stake, moon_fraction_bps);
        Ok(
            Position {
                token_id,
                entry_price,
                entry_reserve,
                stake,
                moon_fraction_bps,
                remaining_stake: stake,
                moon_remaining: moon,
                peak_price: entry_price,
                opened_at: now,
                status: Status::Active,
                fired: FiredFlags { panic_timeout: false, moon: false },
            },
        )
    }
}

/// `amount * bps / BPS`, rounded down.
pub fn share_of(amount: u64, bps: u64) -> (r: u64)
    requires
        bps <= BPS,
    ensures
        r as int == (amount as int * bps as int) / BPS as int,
        r <= amount,
{
    proof {
        assert(amount as int * bps as int <= amount as int * BPS as int) by (nonlinear_arith)
            requires
                bps <= BPS,
                amount >= 0,
        ;
        assert((amount as int * bps as int) / (BPS as int) <= amount as int) by (nonlinear_arith)
            requires
                amount as int * bps as int <= amount as int * 10000,
                amount >= 0,
        ;
    }
    let wide = (amount as u128) * (bps as u128);
    (wide / (BPS as u128)) as u64
}

} // verus!
