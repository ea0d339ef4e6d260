use vstd::prelude::*;

verus! {

/// Lifecycle state of a token's liquidity pool.
#[derive(Clone, Copy, Debug, PartialEq, Eq, Structural)]
pub enum LpStatus {
    Initialized,
    Pending,
    Other,
}

/// What the eligibility rules read of a listed token.
#[derive(Clone, Copy, Debug, PartialEq, Eq, Structural)]
pub struct TokenCandidate {
    /// Creation time, in seconds since the epoch.
    pub created_timestamp: u64,
    pub mint_authority_revoked: bool,
    /// Pool liquidity, in thousandths of the quote asset.
    pub liquidity_milli: u64,
    pub lp_status: LpStatus,
    /// Price change over 24 hours, in basis points.
    pub price_change_24h_bps: i64,
}

/// Static thresholds a token must pass to be traded.
#[derive(Clone, Copy, Debug, PartialEq, Eq, Structural)]
pub struct EligibilityRules {
    /// Tokens must be younger than this many seconds.
    pub max_age_secs: u64,
    /// Liquidity must be at least this, in thousandths.
    pub min_liquidity_milli: u64,
    /// The 24-hour price change must exceed this, in basis points.
    pub min_price_change_bps: i64,
}

impl EligibilityRules {
    /// Younger than 15 minutes, at least 5 units of liquidity, more than 20%
    /// up over 24 hours.
    pub fn standard() -> (r: EligibilityRules)
        ensures
            r.max_age_secs == 900,
            r.min_liquidity_milli == 5000,
            r.min_price_change_bps == 2000,
    {
        EligibilityRules { max_age_secs: 900, min_liquidity_milli: 5000, min_price_change_bps: 2000 }
    }
}

/// Age of a token at `now`, zero for a creation time in the future.
pub open spec fn age(c: TokenCandidate, now: u64) -> int {
    if now >= c.created_timestamp {
        now - c.created_timestamp
    } else {
        0
    }
}

/// Whether a token passes every rule at time `now`.
pub open spec fn eligible(rules: EligibilityRules, c: TokenCandidate, now: u64) -> bool {
    &&& age(c, now) < rules.max_age_secs
    &&& c.mint_authority_revoked
    &&& c.liquidity_milli >= rules.min_liquidity_milli
    &&& (c.lp_status == LpStatus::Initialized || c.lp_status == LpStatus::Pending)
    &&& c.price_change_24h_bps > rules.min_price_change_bps
}

/// Whether a token passes every rule at time `now`.
pub fn is_eligible(rules: &EligibilityRules, c: &TokenCandidate, now: u64) -> (r: bool)
    ensures
        r == eligible(*rules, *c, now),
{
    let age = now.saturating_sub(c.created_timestamp);
    let live = match c.lp_status {
        LpStatus::Initialized | LpStatus::Pending => true,
        LpStatus::Other => false,
    };
    age < rules.max_age_secs && c.mint_authority_revoked && c.liquidity_milli
        >= rules.min_liquidity_milli && live && c.price_change_24h_bps > rules.min_price_change_bps
}

/// Positions, in increasing order, of the tokens of `cands` that pass every
/// rule at time `now`.
pub fn eligible_indices(rules: &EligibilityRules, cands: &Vec<TokenCandidate>, now: u64) -> (r: Vec<usize>)
    ensures
        forall|k: int| 0 <= k < r@.len() ==> r@[k] < cands@.len() && eligible(*rules, cands@[r@[k] as int], now),
        forall|k: int, l: int| 0 <= k < l < r@.len() ==> r@[k] < r@[l],
        forall|i: int| 0 <= i < cands@.len() && eligible(*rules, cands@[i], now) ==> r@.contains(i as usize),
{
    let mut r: Vec<usize> = Vec::new();
    let mut i: usize = 0;
    while i < cands.len()
        invariant
            0 <= i <= cands@.len(),
            forall|k: int| 0 <= k < r@.len() ==> r@[k] < i && eligible(*rules, cands@[r@[k] as int], now),
            forall|k: int, l: int| 0 <= k < l < r@.len() ==> r@[k] < r@[l],
            forall|j: int| 0 <= j < i && eligible(*rules, cands@[j], now) ==> r@.contains(j as usize),
        decreases cands@.len() - i,
    {
        let ghost prev = r@;
        if is_eligible(rules, &cands[i], now) {
            r.push(i);
        }
        proof {
            assert forall|j: int| 0 <= j < i + 1 && eligible(*rules, cands@[j], now) implies r@.contains(j as usize) by {
                if j == i {
                    assert(r@[r@.len() - 1] == i);
                } else {
                    let k = choose|k: int| 0 <= k < prev.len() && prev[k] == j as usize;
                    assert(r@[k] == j as usize);
                }
            }
        }
        i = i + 1;
    }
    r
}

} // verus!
