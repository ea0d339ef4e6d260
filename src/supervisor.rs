use vstd::prelude::*;

use crate::config::RiskConfig;
use crate::monitor::RiskMonitor;
use crate::position::{valid_open_params, OpenError, Position};

verus! {

/// Whether two token identifiers are the same.
pub fn same_token(a: &Vec<u8>, b: &Vec<u8>) -> (r: bool)
    ensures
        r == (a@ == b@),
{
    if a.len() != b.len() {
        return false;
    }
    let mut i: usize = 0;
    while i < a.len()
        invariant
            a@.len() == b@.len(),
            0 <= i <= a@.len(),
            forall|j: int| 0 <= j < i ==> a@[j] == b@[j],
        decreases a@.len() - i,
    {
        if a[i] != b[i] {
            return false;
        }
        i = i + 1;
    }
    proof {
        assert(a@ =~= b@);
    }
    true
}

/// The set of tokens with an active monitor, at most one monitor per token.
pub struct Supervisor {
    active: Vec<Vec<u8>>,
}

impl Supervisor {
    /// The identifiers of the monitored tokens.
    pub closed spec fn tokens(&self) -> Seq<Seq<u8>> {
        self.active@.map_values(|t: Vec<u8>| t@)
    }

    /// Whether `t` has an active monitor.
    pub open spec fn monitors(&self, t: Seq<u8>) -> bool {
        self.tokens().contains(t)
    }

    /// No token is listed twice.
    pub open spec fn wf(&self) -> bool {
        forall|i: int, j: int|
            0 <= i < j < self.tokens().len() ==> self.tokens()[i] != self.tokens()[j]
    }

    /// A supervisor with no monitors.
    pub fn new() -> (s: Supervisor)
        ensures
            s.wf(),
            s.tokens().len() == 0,
    {
        let s = Supervisor { active: Vec::new() };
        proof {
            assert(s.tokens() =~= Seq::<Seq<u8>>::empty());
        }
        s
    }

    /// Number of active monitors.
    pub fn len(&self) -> (n: usize)
        ensures
            n == self.tokens().len(),
    {
        self.active.len()
    }

    /// Position of `t` in the list, if it is there.
    fn find(&self, t: &Vec<u8>) -> (r: Option<usize>)
        ensures
            r matches Some(i) ==> i < self.tokens().len() && self.tokens()[i as int] == t@,
            r is None ==> !self.monitors(t@),
    {
        let mut i: usize = 0;
        while i < self.active.len()
            invariant
                0 <= i <= self.active@.len(),
                self.tokens().len() == self.active@.len(),
                forall|j: int| 0 <= j < i ==> self.tokens()[j] != t@,
            decreases self.active@.len() - i,
        {
            if same_token(&self.active[i], t) {
                return Some(i);
            }
            i = i + 1;
        }
        None
    }

    /// Whether `t` has an active monitor.
    pub fn is_monitored(&self, t: &Vec<u8>) -> (r: bool)
        ensures
            r == self.monitors(t@),
    {
        self.find(t).is_some()
    }

    /// Opens a position for `token_id` at time `now` and returns the monitor
    /// that will watch it. Fails, changing nothing, when the parameters are out
    /// of range or when the token already has a monitor.
    pub fn open(
        &mut self,
        config: RiskConfig,
        token_id: Vec<u8>,
        entry_price: u64,
        entry_reserve: u64,
        stake: u64,
        moon_fraction_bps: u64,
        now: u64,
    ) -> (r: Result<RiskMonitor, OpenError>)
        requires
            old(self).wf(),
            config.wf(),
        ensures
            final(self).wf(),
            !valid_open_params(entry_price, entry_reserve, stake, moon_fraction_bps) ==> r == Err::<
                RiskMonitor,
                OpenError,
            >(OpenError::InvalidParameters),
            valid_open_params(entry_price, entry_reserve, stake, moon_fraction_bps) && old(
                self,
            ).monitors(token_id@) ==> r == Err::<RiskMonitor, OpenError>(
                OpenError::AlreadyMonitored,
            ),
            r is Err ==> final(self).tokens() == old(self).tokens(),
            r is Ok <==> valid_open_params(entry_price, entry_reserve, stake, moon_fraction_bps)
                && !old(self).monitors(token_id@),
            r matches Ok(m) ==> {
                &&& final(self).tokens() == old(self).tokens().push(token_id@)
                &&& final(self).monitors(token_id@)
                &&& m.wf()
                &&& m.config == config
                &&& m.consecutive_failures == 0
                &&& m.stopped.is_none()
                &&& Position::opened_spec(
                    token_id@,
                    entry_price,
                    entry_reserve,
                    stake,
                    moon_fraction_bps,
                    now,
                    m.position,
                )
            },
    {
        if self.find(&token_id).is_some() {
            if entry_price == 0 || entry_reserve == 0 || stake == 0 || moon_fraction_bps
                > crate::config::BPS {
                return Err(OpenError::InvalidParameters);
            }
            return Err(OpenError::AlreadyMonitored);
        }
        let key = token_id.clone();
        match Position::open(token_id, entry_price, entry_reserve, stake, moon_fraction_bps, now) {
            Err(e) => Err(e),
            Ok(p) => {
                proof {
                    assert(key@ == p.token_id@);
                }
                self.active.push(key);
                proof {
                    assert(self.tokens() =~= old(self).tokens().push(p.token_id@));
                    assert(self.tokens()[self.tokens().len() - 1] == p.token_id@);
                }
                Ok(RiskMonitor::new(p, config))
            },
        }
    }

    /// Forgets the monitor of `t`; nothing changes if there is none.
    pub fn on_closed(&mut self, t: &Vec<u8>)
        requires
            old(self).wf(),
        ensures
            final(self).wf(),
            forall|k: Seq<u8>| final(self).monitors(k) <==> (old(self).monitors(k) && k != t@),
            !old(self).monitors(t@) ==> final(self).tokens() == old(self).tokens(),
            old(self).monitors(t@) ==> final(self).tokens().len() == old(self).tokens().len() - 1,
    {
        match self.find(t) {
            None => {},
            Some(i) => {
                let ghost before = self.tokens();
                self.active.remove(i);
                proof {
                    assert(self.tokens() =~= before.remove(i as int));
                    assert forall|k: Seq<u8>| self.monitors(k) <==> (before.contains(k) && k != t@) by {
                        if self.monitors(k) {
                            let j = choose|j: int| 0 <= j < self.tokens().len() && self.tokens()[j] == k;
                            if j < i {
                                assert(before[j] == k);
                            } else {
                                assert(before[j + 1] == k);
                            }
                        }
                        if before.contains(k) && k != t@ {
                            let j = choose|j: int| 0 <= j < before.len() && before[j] == k;
                            assert(j != i);
                            if j < i {
                                assert(self.tokens()[j] == k);
                            } else {
                                assert(self.tokens()[j - 1] == k);
                            }
                        }
                    }
                }
            },
        }
    }

    /// Removes every monitor and returns the tokens whose monitors must be
    /// cancelled, in the order they were opened.
    pub fn shutdown(&mut self) -> (r: Vec<Vec<u8>>)
        requires
            old(self).wf(),
        ensures
            final(self).wf(),
            final(self).tokens().len() == 0,
            r@.map_values(|t: Vec<u8>| t@) == old(self).tokens(),
    {
        let mut r: Vec<Vec<u8>> = Vec::new();
        std::mem::swap(&mut r, &mut self.active);
        proof {
            assert(self.tokens() =~= Seq::<Seq<u8>>::empty());
        }
        r
    }
}

} // verus!
