use vstd::prelude::*;

use crate::config::RiskConfig;
use crate::monitor::with_peak;
use crate::policy::{
    applied, evaluate_spec, panic_dropped, rug_pulled, trailing_stopped, Decision, Observation,
};
use crate::position::{status_rank, Position, Status};

verus! {

/// The decision a monitor takes on a usable observation at `now`.
pub open spec fn decision_on(cfg: RiskConfig, p: Position, obs: Observation, now: u64) -> Decision {
    evaluate_spec(cfg, with_peak(p, obs), obs, now)
}

/// The position after a tick with a usable observation at `now`.
pub open spec fn observed(cfg: RiskConfig, p: Position, obs: Observation, now: u64) -> Position {
    applied(with_peak(p, obs), decision_on(cfg, p, obs, now))
}

/// The decisions of successive ticks over usable observations, each paired
/// with the time it is evaluated at.
pub open spec fn run(cfg: RiskConfig, p: Position, evs: Seq<(Observation, u64)>) -> Seq<Decision>
    decreases evs.len(),
{
    if evs.len() == 0 {
        Seq::empty()
    } else {
        seq![decision_on(cfg, p, evs[0].0, evs[0].1)] + run(
            cfg,
            observed(cfg, p, evs[0].0, evs[0].1),
            evs.drop_first(),
        )
    }
}

/// The position after the ticks of `run`.
pub open spec fn run_position(cfg: RiskConfig, p: Position, evs: Seq<(Observation, u64)>) -> Position
    decreases evs.len(),
{
    if evs.len() == 0 {
        p
    } else {
        run_position(cfg, observed(cfg, p, evs[0].0, evs[0].1), evs.drop_first())
    }
}

/// How many decisions of `ds` are partial exits.
pub open spec fn partial_exits(ds: Seq<Decision>) -> nat
    decreases ds.len(),
{
    if ds.len() == 0 {
        0
    } else {
        (if ds[0] is PartialExit { 1nat } else { 0nat }) + partial_exits(ds.drop_first())
    }
}

/// How many decisions of `ds` are moon exits.
pub open spec fn moon_exits(ds: Seq<Decision>) -> nat
    decreases ds.len(),
{
    if ds.len() == 0 {
        0
    } else {
        (if ds[0] == Decision::MoonExit { 1nat } else { 0nat }) + moon_exits(ds.drop_first())
    }
}

/// Raising the peak keeps a position well formed and changes nothing else.
pub proof fn lemma_with_peak(p: Position, obs: Observation)
    requires
        p.wf(),
    ensures
        with_peak(p, obs).wf(),
        with_peak(p, obs).peak_price >= p.peak_price,
        with_peak(p, obs).peak_price >= obs.price,
        with_peak(p, obs) == (Position { peak_price: with_peak(p, obs).peak_price, ..p }),
{
}

/// Applying a decision keeps a position well formed; the remaining stake and
/// the moon allocation never grow, the status never moves backwards, the
/// entry values stay, and a fired one-shot policy stays fired.
pub proof fn lemma_apply_monotone(cfg: RiskConfig, p: Position, d: Decision)
    requires
        cfg.wf(),
        p.wf(),
        d matches Decision::PartialExit(bps) ==> bps == cfg.stall_exit_bps,
    ensures
        applied(p, d).wf(),
        applied(p, d).remaining_stake <= p.remaining_stake,
        applied(p, d).moon_remaining <= p.moon_remaining,
        status_rank(applied(p, d).status) >= status_rank(p.status),
        applied(p, d).status == Status::Closed <==> applied(p, d).remaining_stake == 0,
        applied(p, d).entry_price == p.entry_price,
        applied(p, d).entry_reserve == p.entry_reserve,
        applied(p, d).peak_price == p.peak_price,
        p.fired.panic_timeout ==> applied(p, d).fired.panic_timeout,
        p.fired.moon ==> applied(p, d).fired.moon,
{
    if let Decision::PartialExit(bps) = d {
        assert(p.remaining_stake as int * bps as int <= p.remaining_stake as int * 10000)
            by (nonlinear_arith)
            requires
                bps <= 10000,
        ;
        assert((p.remaining_stake as int * bps as int) / 10000 <= p.remaining_stake as int)
            by (nonlinear_arith)
            requires
                p.remaining_stake as int * bps as int <= p.remaining_stake as int * 10000,
                bps >= 0,
        ;
        assert(0 <= (p.remaining_stake as int * bps as int) / 10000) by (nonlinear_arith)
            requires
                bps >= 0,
        ;
    }
}

/// Every tick with a usable observation keeps the position well formed: the
/// remaining stake and the moon allocation are non-negative and never grow,
/// the status never moves backwards, and `Closed` holds exactly when no stake
/// remains.
pub proof fn lemma_tick_monotone(cfg: RiskConfig, p: Position, obs: Observation, now: u64)
    requires
        cfg.wf(),
        p.wf(),
    ensures
        observed(cfg, p, obs, now).wf(),
        0 <= observed(cfg, p, obs, now).remaining_stake <= p.remaining_stake,
        0 <= observed(cfg, p, obs, now).moon_remaining <= p.moon_remaining,
        status_rank(observed(cfg, p, obs, now).status) >= status_rank(p.status),
        observed(cfg, p, obs, now).status == Status::Closed
            <==> observed(cfg, p, obs, now).remaining_stake == 0,
        observed(cfg, p, obs, now).entry_reserve == p.entry_reserve,
        observed(cfg, p, obs, now).peak_price >= p.peak_price,
        p.fired.panic_timeout ==> observed(cfg, p, obs, now).fired.panic_timeout,
        p.fired.moon ==> observed(cfg, p, obs, now).fired.moon,
{
    lemma_with_peak(p, obs);
    lemma_apply_monotone(cfg, with_peak(p, obs), decision_on(cfg, p, obs, now));
}

/// A one-shot policy that has fired does not fire again, whatever is observed.
pub proof fn lemma_fired_stays_quiet(cfg: RiskConfig, p: Position, obs: Observation, now: u64)
    ensures
        p.fired.panic_timeout ==> !(decision_on(cfg, p, obs, now) is PartialExit),
        p.fired.moon ==> decision_on(cfg, p, obs, now) != Decision::MoonExit,
{
}

/// After a partial exit has fired, no later tick partially exits again.
proof fn lemma_no_partial_after_fired(cfg: RiskConfig, p: Position, evs: Seq<(Observation, u64)>)
    requires
        cfg.wf(),
        p.wf(),
        p.fired.panic_timeout,
    ensures
        partial_exits(run(cfg, p, evs)) == 0,
    decreases evs.len(),
{
    if evs.len() > 0 {
        let ds = run(cfg, p, evs);
        lemma_fired_stays_quiet(cfg, p, evs[0].0, evs[0].1);
        lemma_tick_monotone(cfg, p, evs[0].0, evs[0].1);
        lemma_no_partial_after_fired(cfg, observed(cfg, p, evs[0].0, evs[0].1), evs.drop_first());
        assert(ds.drop_first() =~= run(cfg, observed(cfg, p, evs[0].0, evs[0].1), evs.drop_first()));
    }
}

/// After the moon exit has fired, no later tick sells the moon allocation again.
proof fn lemma_no_moon_after_fired(cfg: RiskConfig, p: Position, evs: Seq<(Observation, u64)>)
    requires
        cfg.wf(),
        p.wf(),
        p.fired.moon,
    ensures
        moon_exits(run(cfg, p, evs)) == 0,
    decreases evs.len(),
{
    if evs.len() > 0 {
        let ds = run(cfg, p, evs);
        lemma_fired_stays_quiet(cfg, p, evs[0].0, evs[0].1);
        lemma_tick_monotone(cfg, p, evs[0].0, evs[0].1);
        lemma_no_moon_after_fired(cfg, observed(cfg, p, evs[0].0, evs[0].1), evs.drop_first());
        assert(ds.drop_first() =~= run(cfg, observed(cfg, p, evs[0].0, evs[0].1), evs.drop_first()));
    }
}

/// Over the lifetime of a position, the stall exit and the moon exit each fire
/// at most once, however long their conditions keep holding.
pub proof fn lemma_one_shot_at_most_once(cfg: RiskConfig, p: Position, evs: Seq<(Observation, u64)>)
    requires
        cfg.wf(),
        p.wf(),
    ensures
        partial_exits(run(cfg, p, evs)) <= 1,
        moon_exits(run(cfg, p, evs)) <= 1,
    decreases evs.len(),
{
    if evs.len() > 0 {
        let q = observed(cfg, p, evs[0].0, evs[0].1);
        let ds = run(cfg, p, evs);
        lemma_tick_monotone(cfg, p, evs[0].0, evs[0].1);
        assert(ds.drop_first() =~= run(cfg, q, evs.drop_first()));
        lemma_one_shot_at_most_once(cfg, q, evs.drop_first());
        if ds[0] is PartialExit {
            lemma_no_partial_after_fired(cfg, q, evs.drop_first());
        }
        if ds[0] == Decision::MoonExit {
            lemma_no_moon_after_fired(cfg, q, evs.drop_first());
        }
    }
}

/// Evaluating the same observation again right after a one-shot policy has
/// fired gives no second firing of that policy.
pub proof fn lemma_one_shot_idempotent(cfg: RiskConfig, p: Position, obs: Observation, now: u64, later: u64)
    requires
        cfg.wf(),
        p.wf(),
    ensures
        decision_on(cfg, p, obs, now) is PartialExit
            ==> !(decision_on(cfg, observed(cfg, p, obs, now), obs, later) is PartialExit),
        decision_on(cfg, p, obs, now) == Decision::MoonExit
            ==> decision_on(cfg, observed(cfg, p, obs, now), obs, later) != Decision::MoonExit,
{
    lemma_tick_monotone(cfg, p, obs, now);
    lemma_fired_stays_quiet(cfg, observed(cfg, p, obs, now), obs, later);
}

/// The rug-pull check reads the reserve captured at entry and nothing else of
/// the position, and no tick changes that reserve.
pub proof fn lemma_rug_against_entry_reserve(
    cfg: RiskConfig,
    p: Position,
    q: Position,
    obs: Observation,
    evs: Seq<(Observation, u64)>,
)
    requires
        cfg.wf(),
        p.wf(),
    ensures
        q.entry_reserve == p.entry_reserve ==> rug_pulled(cfg, q, obs) == rug_pulled(cfg, p, obs),
        run_position(cfg, p, evs).entry_reserve == p.entry_reserve,
    decreases evs.len(),
{
    if evs.len() > 0 {
        lemma_tick_monotone(cfg, p, evs[0].0, evs[0].1);
        lemma_rug_against_entry_reserve(
            cfg,
            observed(cfg, p, evs[0].0, evs[0].1),
            q,
            obs,
            evs.drop_first(),
        );
    }
}

/// The trailing stop triggers only once the peak has risen strictly above the
/// entry price; without that, a full exit comes only from the rug-pull or the
/// panic check.
pub proof fn lemma_trailing_needs_gain(cfg: RiskConfig, p: Position, obs: Observation, now: u64)
    ensures
        trailing_stopped(cfg, p, obs) ==> p.peak_price > p.entry_price,
        evaluate_spec(cfg, p, obs, now) == Decision::FullExit && p.peak_price <= p.entry_price
            ==> rug_pulled(cfg, p, obs) || panic_dropped(cfg, p, obs),
{
}

} // verus!
