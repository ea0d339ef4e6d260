use exit_guard::config::{FeedExhaustion, RiskConfig};
use exit_guard::monitor::{FeedError, Liquidation, RiskMonitor, StopReason};
use exit_guard::policy::{evaluate, Decision, Observation};
use exit_guard::position::{share_of, OpenError, Position, Status};

const ONE: u64 = 1_000_000;
const RESERVE: u64 = 10_000_000_000;

fn monitor_with(config: RiskConfig) -> RiskMonitor {
    let p = Position::open(b"mint".to_vec(), ONE, RESERVE, 10, 2000, 0).unwrap();
    RiskMonitor::new(p, config)
}

fn monitor() -> RiskMonitor {
    monitor_with(RiskConfig::standard())
}

fn obs(price: u64, reserve: u64, at: u64) -> Result<Observation, FeedError> {
    Ok(Observation { price, liquidity_reserve: reserve, observed_at: at })
}

#[test]
fn rug_pull_closes_position() {
    let mut m = monitor();
    let r = m.tick(1, obs(ONE, 5_900_000_000, 1));
    assert_eq!(r.decision, Decision::FullExit);
    assert_eq!(r.liquidation, Some(Liquidation { amount: 10, held: 10, urgent: true }));
    assert_eq!(r.stop, Some(StopReason::Closed));
    assert_eq!(m.position.remaining_stake, 0);
    assert_eq!(m.position.moon_remaining, 0);
    assert_eq!(m.position.status, Status::Closed);
}

#[test]
fn rug_pull_just_below_threshold_holds() {
    let mut m = monitor();
    let r = m.tick(1, obs(ONE, 6_000_000_001, 1));
    assert_eq!(r.decision, Decision::NoAction);
    assert_eq!(m.position.remaining_stake, 10);
    assert_eq!(m.position.status, Status::Active);
}

#[test]
fn rug_pull_at_exact_threshold_fires() {
    let mut m = monitor();
    let r = m.tick(1, obs(ONE, 6_000_000_000, 1));
    assert_eq!(r.decision, Decision::FullExit);
}

#[test]
fn rug_pull_measured_from_entry_reserve() {
    let mut m = monitor();
    // Two 25% drops in a row: each alone is below the threshold, together
    // they exceed it relative to the reserve at entry.
    let r = m.tick(1, obs(ONE, 7_500_000_000, 1));
    assert_eq!(r.decision, Decision::NoAction);
    let r = m.tick(2, obs(ONE, 5_625_000_000, 2));
    assert_eq!(r.decision, Decision::FullExit);
}

#[test]
fn stall_sells_half_once() {
    let mut m = monitor();
    let r = m.tick(91, obs(1_050_000, RESERVE, 91));
    assert_eq!(r.decision, Decision::PartialExit(5000));
    assert_eq!(r.liquidation, Some(Liquidation { amount: 5, held: 10, urgent: false }));
    assert_eq!(m.position.remaining_stake, 5);
    assert_eq!(m.position.status, Status::PartiallyExited);
    assert!(m.position.fired.panic_timeout);
    let r = m.tick(92, obs(1_050_000, RESERVE, 92));
    assert_eq!(r.decision, Decision::NoAction);
    assert_eq!(r.liquidation, None);
    assert_eq!(m.position.remaining_stake, 5);
    assert_eq!(m.position.status, Status::PartiallyExited);
}

#[test]
fn stall_waits_past_ninety_seconds() {
    let mut m = monitor();
    let r = m.tick(90, obs(1_050_000, RESERVE, 90));
    assert_eq!(r.decision, Decision::NoAction);
    assert_eq!(m.position.remaining_stake, 10);
}

#[test]
fn stall_skipped_with_enough_gain() {
    let mut m = monitor();
    let r = m.tick(91, obs(1_100_000, RESERVE, 91));
    assert_eq!(r.decision, Decision::NoAction);
}

#[test]
fn panic_drop_sells_everything() {
    let mut m = monitor();
    let r = m.tick(5, obs(400_000, RESERVE, 5));
    assert_eq!(r.decision, Decision::FullExit);
    assert_eq!(m.position.remaining_stake, 0);
    assert_eq!(m.position.status, Status::Closed);
    let mut m = monitor();
    let r = m.tick(5, obs(400_001, RESERVE, 5));
    assert_eq!(r.decision, Decision::NoAction);
}

#[test]
fn trailing_stop_from_peak() {
    let mut m = monitor();
    let r = m.tick(10, obs(2 * ONE, RESERVE, 10));
    assert_eq!(r.decision, Decision::NoAction);
    assert_eq!(m.position.peak_price, 2 * ONE);
    let r = m.tick(20, obs(1_400_000, RESERVE, 20));
    assert_eq!(r.decision, Decision::FullExit);
    assert_eq!(m.position.remaining_stake, 0);
    assert_eq!(m.position.status, Status::Closed);
}

#[test]
fn trailing_stop_needs_gain_over_entry() {
    let config = RiskConfig::standard();
    let p = Position::open(b"mint".to_vec(), ONE, RESERVE, 10, 2000, 0).unwrap();
    // Peak equal to entry: a 35% drop is no trailing stop.
    let o = Observation { price: 650_000, liquidity_reserve: RESERVE, observed_at: 5 };
    assert_eq!(evaluate(&config, &p, &o, 5), Decision::NoAction);
}

#[test]
fn moon_multiple_sells_moon_share() {
    let mut m = monitor();
    let r = m.tick(5, obs(55 * ONE, RESERVE, 5));
    assert_eq!(r.decision, Decision::MoonExit);
    assert_eq!(r.liquidation, Some(Liquidation { amount: 2, held: 10, urgent: false }));
    assert_eq!(m.position.moon_remaining, 0);
    assert_eq!(m.position.remaining_stake, 8);
    assert_eq!(m.position.status, Status::PartiallyExited);
    assert!(m.is_running());
    let r = m.tick(6, obs(55 * ONE, RESERVE, 6));
    assert_eq!(r.decision, Decision::NoAction);
    assert_eq!(m.position.remaining_stake, 8);
}

#[test]
fn moon_timer_fires_once() {
    let mut m = monitor();
    let r = m.tick(86_400, obs(1_200_000, RESERVE, 86_400));
    assert_eq!(r.decision, Decision::MoonExit);
    assert_eq!(m.position.remaining_stake, 8);
    assert_eq!(m.position.moon_remaining, 0);
    let r = m.tick(86_401, obs(1_200_000, RESERVE, 86_401));
    assert_eq!(r.decision, Decision::NoAction);
    assert_eq!(m.position.remaining_stake, 8);
}

#[test]
fn moon_exit_that_empties_stake_closes() {
    let p = Position::open(b"mint".to_vec(), ONE, RESERVE, 10, 10_000, 0).unwrap();
    let mut m = RiskMonitor::new(p, RiskConfig::standard());
    let r = m.tick(5, obs(60 * ONE, RESERVE, 5));
    assert_eq!(r.decision, Decision::MoonExit);
    assert_eq!(m.position.remaining_stake, 0);
    assert_eq!(m.position.status, Status::Closed);
    assert_eq!(r.stop, Some(StopReason::Closed));
}

#[test]
fn feed_exhaustion_fail_closed() {
    let mut m = monitor();
    for t in 1..5u64 {
        let r = m.tick(t, Err(FeedError::Unavailable));
        assert_eq!(r.decision, Decision::NoAction);
        assert_eq!(r.stop, None);
    }
    let r = m.tick(5, Err(FeedError::Unavailable));
    assert_eq!(r.decision, Decision::FullExit);
    assert_eq!(r.liquidation, Some(Liquidation { amount: 10, held: 10, urgent: true }));
    assert_eq!(r.stop, Some(StopReason::FeedExhausted));
    assert_eq!(m.position.remaining_stake, 0);
    assert_eq!(m.position.status, Status::Closed);
    assert!(!m.is_running());
}

#[test]
fn feed_exhaustion_fail_open() {
    let mut config = RiskConfig::standard();
    config.on_feed_exhausted = FeedExhaustion::FailOpen;
    let mut m = monitor_with(config);
    for t in 1..5u64 {
        let r = m.tick(t, Err(FeedError::Unavailable));
        assert_eq!(r.stop, None);
    }
    let r = m.tick(5, Err(FeedError::Unavailable));
    assert_eq!(r.decision, Decision::NoAction);
    assert_eq!(r.liquidation, None);
    assert_eq!(r.stop, Some(StopReason::FeedExhausted));
    assert_eq!(m.position.remaining_stake, 10);
    assert_eq!(m.position.status, Status::Active);
    let r = m.tick(6, obs(ONE, 1, 6));
    assert_eq!(r.decision, Decision::NoAction);
    assert_eq!(m.position.remaining_stake, 10);
}

#[test]
fn usable_observation_resets_failures() {
    let mut m = monitor();
    for t in 1..5u64 {
        m.tick(t, Err(FeedError::Unavailable));
    }
    assert_eq!(m.consecutive_failures, 4);
    m.tick(5, obs(ONE, RESERVE, 5));
    assert_eq!(m.consecutive_failures, 0);
    let r = m.tick(6, Err(FeedError::Unavailable));
    assert_eq!(r.stop, None);
}

#[test]
fn zero_price_counts_as_failure() {
    let mut m = monitor();
    let r = m.tick(1, obs(0, RESERVE, 1));
    assert_eq!(r.decision, Decision::NoAction);
    assert_eq!(m.consecutive_failures, 1);
    m.tick(2, Err(FeedError::Malformed));
    assert_eq!(m.consecutive_failures, 2);
}

#[test]
fn cancel_stops_ticks() {
    let mut m = monitor();
    m.cancel();
    assert_eq!(m.stopped, Some(StopReason::Cancelled));
    let r = m.tick(1, obs(ONE, 1, 1));
    assert_eq!(r.decision, Decision::NoAction);
    assert_eq!(r.stop, Some(StopReason::Cancelled));
    assert_eq!(m.position.remaining_stake, 10);
}

#[test]
fn closed_monitor_stays_closed() {
    let mut m = monitor();
    m.tick(1, obs(ONE, 1, 1));
    m.cancel();
    assert_eq!(m.stopped, Some(StopReason::Closed));
    let r = m.tick(2, obs(ONE, 1, 2));
    assert_eq!(r.liquidation, None);
}

#[test]
fn open_rejects_bad_parameters() {
    assert_eq!(Position::open(b"m".to_vec(), 0, RESERVE, 10, 2000, 0).unwrap_err(), OpenError::InvalidParameters);
    assert_eq!(Position::open(b"m".to_vec(), ONE, 0, 10, 2000, 0).unwrap_err(), OpenError::InvalidParameters);
    assert_eq!(Position::open(b"m".to_vec(), ONE, RESERVE, 0, 2000, 0).unwrap_err(), OpenError::InvalidParameters);
    assert_eq!(Position::open(b"m".to_vec(), ONE, RESERVE, 10, 10_001, 0).unwrap_err(), OpenError::InvalidParameters);
}

#[test]
fn open_sets_entry_values() {
    let p = Position::open(b"m".to_vec(), ONE, RESERVE, 1_000, 2000, 42).unwrap();
    assert_eq!(p.token_id, b"m".to_vec());
    assert_eq!(p.remaining_stake, 1_000);
    assert_eq!(p.moon_remaining, 200);
    assert_eq!(p.peak_price, ONE);
    assert_eq!(p.opened_at, 42);
    assert_eq!(p.status, Status::Active);
    assert!(!p.fired.panic_timeout && !p.fired.moon);
}

#[test]
fn share_rounds_down() {
    assert_eq!(share_of(10, 5000), 5);
    assert_eq!(share_of(7, 5000), 3);
    assert_eq!(share_of(u64::MAX, 10_000), u64::MAX);
    assert_eq!(share_of(123, 0), 0);
}

#[test]
fn standard_config_is_valid() {
    let c = RiskConfig::standard();
    assert!(c.is_valid());
    assert_eq!(c.rug_drop_bps, 4000);
    assert_eq!(c.moon_after_secs, 86_400);
    let mut bad = c;
    bad.stall_exit_bps = 10_001;
    assert!(!bad.is_valid());
}

#[test]
fn stake_never_grows_over_a_run() {
    let mut m = monitor();
    let feed = vec![
        obs(1_200_000, RESERVE, 10),
        Err(FeedError::Unavailable),
        obs(1_050_000, RESERVE, 95),
        obs(60 * ONE, RESERVE, 100),
        obs(60 * ONE, RESERVE, 101),
        obs(30 * ONE, RESERVE, 102),
    ];
    let mut last_stake = m.position.remaining_stake;
    let mut last_moon = m.position.moon_remaining;
    let mut decisions = Vec::new();
    let times = [10u64, 40, 95, 100, 101, 102];
    for (t, f) in times.into_iter().zip(feed) {
        let r = m.tick(t, f);
        decisions.push(r.decision);
        assert!(m.position.remaining_stake <= last_stake);
        assert!(m.position.moon_remaining <= last_moon);
        assert_eq!(m.position.status == Status::Closed, m.position.remaining_stake == 0);
        last_stake = m.position.remaining_stake;
        last_moon = m.position.moon_remaining;
    }
    assert_eq!(
        decisions,
        vec![
            Decision::NoAction,
            Decision::NoAction,
            Decision::PartialExit(5000),
            Decision::MoonExit,
            Decision::NoAction,
            Decision::FullExit,
        ]
    );
    assert_eq!(m.position.status, Status::Closed);
}
