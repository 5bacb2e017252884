//! Query caches of the contract (per-user portfolio stats and the top-traders
//! ranking) with a configurable time-to-live, and the hit/miss statistics
//! that every cached query updates.
use vstd::prelude::*;
use crate::arith::clamp_u64;
use crate::types::Address;

verus! {

/// Cache time-to-live used until an admin sets another one.
pub const DEFAULT_CACHE_TTL_SECONDS: u64 = 60;

/// Fewest candidates ranked when the top-traders cache is refreshed.
pub const MIN_TOP_TRADER_CANDIDATES: u32 = 100;

/// The hit ratio in basis points: `hits * 10_000 / (hits + misses)`, and 0
/// when nothing was recorded.
pub open spec fn ratio_bps_spec(hits: u64, misses: u64) -> int {
    if hits + misses == 0 { 0 } else { (hits * 10_000) / (hits + misses) }
}

/// Cache hit ratio in basis points (`hits * 10_000 / (hits + misses)`,
/// computed in `u128` so that it never overflows).
pub fn cache_ratio_bps(hits: u64, misses: u64) -> (r: u32)
    ensures
        r == ratio_bps_spec(hits, misses),
        r <= 10_000,
{
    let total: u128 = hits as u128 + misses as u128;
    if total == 0 {
        return 0;
    }
    let scaled: u128 = hits as u128 * 10_000;
    proof {
        assert(hits * 10_000 <= (hits + misses) * 10_000) by (nonlinear_arith);
        assert(scaled / total <= 10_000) by (nonlinear_arith)
            requires
                scaled <= total * 10_000,
                total > 0,
        ;
    }
    (scaled / total) as u32
}

/// The ratio is 10 000 exactly when every access was a hit, and 0 exactly
/// when fewer than one access in 10 000 was.
pub proof fn law_ratio_exact(hits: u64, misses: u64)
    requires
        hits + misses > 0,
    ensures
        ratio_bps_spec(hits, misses) == hits * 10_000 / (hits + misses),
        ratio_bps_spec(hits, misses) == 10_000 <==> misses == 0,
        ratio_bps_spec(hits, misses) == 0 <==> hits * 10_000 < hits + misses,
{
    let t = hits + misses;
    if misses == 0 {
        assert(hits * 10_000 / (hits as int) == 10_000) by (nonlinear_arith)
            requires
                hits > 0,
        ;
    } else {
        assert(hits * 10_000 / t < 10_000) by (nonlinear_arith)
            requires
                t == hits + misses,
                misses > 0,
                hits >= 0,
        ;
    }
    if hits * 10_000 < t {
        assert(hits * 10_000 / t == 0) by (nonlinear_arith)
            requires
                0 <= hits * 10_000 < t,
        ;
    } else {
        assert(hits * 10_000 / t >= 1) by (nonlinear_arith)
            requires
                hits * 10_000 >= t > 0,
        ;
    }
}

/// Whether an entry cached at `cached_at` is still fresh at `now` under `ttl`.
pub open spec fn is_fresh(cached_at: u64, now: u64, ttl: u64) -> bool {
    clamp_u64(now - cached_at) <= ttl
}

/// The fewest-`limit` prefix of a ranking: its first `min(len, limit)` entries.
pub open spec fn limited(traders: Seq<(Address, i128)>, limit: u32) -> Seq<(Address, i128)> {
    if traders.len() < limit {
        traders
    } else {
        traders.take(limit as int)
    }
}

/// The first `min(traders.len(), limit)` entries of a ranking.
pub fn apply_trader_limit(traders: &Vec<(Address, i128)>, limit: u32) -> (r: Vec<(Address, i128)>)
    ensures
        r@ == limited(traders@, limit),
{
    let len = traders.len();
    let cap: usize = if len < limit as usize {
        len
    } else {
        limit as usize
    };
    let mut result: Vec<(Address, i128)> = Vec::new();
    let mut i: usize = 0;
    while i < cap
        invariant
            cap <= traders@.len(),
            cap == (if traders@.len() < limit { traders@.len() } else { limit as nat }),
            i <= cap,
            result@ == traders@.take(i as int),
        decreases cap - i,
    {
        let entry = (traders[i].0.clone(), traders[i].1);
        result.push(entry);
        i = i + 1;
        assert(result@ =~= traders@.take(i as int));
    }
    assert(traders@.take(traders@.len() as int) =~= traders@);
    result
}

/// How many candidates are ranked when the top-traders cache is refreshed
/// for a request of `limit`: `limit`, but at least 100.
pub fn candidate_limit(limit: u32) -> (r: u32)
    ensures
        r == (if limit > MIN_TOP_TRADER_CANDIDATES { limit } else { MIN_TOP_TRADER_CANDIDATES }),
{
    if limit > MIN_TOP_TRADER_CANDIDATES {
        limit
    } else {
        MIN_TOP_TRADER_CANDIDATES
    }
}

/// The statistics published after each cached query.
#[derive(Clone, Copy, Debug, PartialEq, Eq, Structural)]
pub struct CacheHitMetrics {
    /// Total hits so far.
    pub hits: u64,
    /// Total misses so far.
    pub misses: u64,
    /// Hit ratio in basis points.
    pub ratio_bps: u32,
}

/// A cached `(trade count, pnl)` of one user.
#[derive(Clone, Copy, Debug, PartialEq, Eq, Structural)]
pub struct CachedPortfolio {
    /// Number of trades.
    pub trades: u32,
    /// Profit and loss.
    pub pnl: i128,
    /// Time at which the entry was computed.
    pub cached_at: u64,
}

/// The cached top-traders ranking.
#[derive(Debug, PartialEq, Eq)]
pub struct CachedTopTraders {
    /// Traders with their pnl, best first.
    pub traders: Vec<(Address, i128)>,
    /// Time at which the ranking was computed.
    pub cached_at: u64,
}

/// The contract's query caches and their statistics.
pub struct QueryCache {
    ttl: u64,
    hits: u64,
    misses: u64,
    portfolios: Vec<(Address, CachedPortfolio)>,
    top_traders: Option<CachedTopTraders>,
}

impl QueryCache {
    /// The time-to-live in seconds.
    pub closed spec fn spec_ttl(&self) -> u64 {
        self.ttl
    }

    /// Hits recorded.
    pub closed spec fn spec_hits(&self) -> u64 {
        self.hits
    }

    /// Misses recorded.
    pub closed spec fn spec_misses(&self) -> u64 {
        self.misses
    }

    /// The cached portfolio entries, keyed by user.
    pub closed spec fn spec_entries(&self) -> Seq<(Address, CachedPortfolio)> {
        self.portfolios@
    }

    /// The cached top-traders ranking, if any: `(traders, cached_at)`.
    pub closed spec fn spec_top(&self) -> Option<(Seq<(Address, i128)>, u64)> {
        match self.top_traders {
            Some(c) => Some((c.traders@, c.cached_at)),
            None => None,
        }
    }

    /// The cached portfolio entry of the user `u`, if any.
    pub open spec fn spec_lookup(&self, u: Seq<char>) -> Option<CachedPortfolio> {
        if exists|i: int| 0 <= i < self.spec_entries().len() && (#[trigger] self.spec_entries()[i]).0@ == u {
            let i = choose|i: int| 0 <= i < self.spec_entries().len() && (#[trigger] self.spec_entries()[i]).0@ == u;
            Some(self.spec_entries()[i].1)
        } else {
            None
        }
    }

    /// Whether a portfolio query for user `u` at `now` is answered from the cache.
    pub open spec fn portfolio_hit(&self, u: Seq<char>, now: u64) -> bool {
        self.spec_lookup(u) matches Some(e) && is_fresh(e.cached_at, now, self.spec_ttl())
    }

    /// Whether a top-traders query at `now` is answered from the cache.
    pub open spec fn top_traders_hit(&self, now: u64) -> bool {
        self.spec_top() matches Some(c) && is_fresh(c.1, now, self.spec_ttl())
    }

    /// Each user has at most one cached portfolio entry.
    pub open spec fn wf(&self) -> bool {
        forall|i: int, j: int|
            0 <= i < j < self.spec_entries().len() ==> (#[trigger] self.spec_entries()[i]).0@
                != (#[trigger] self.spec_entries()[j]).0@
    }

    /// Nothing cached, nothing recorded, default time-to-live.
    pub fn new() -> (c: QueryCache)
        ensures
            c.wf(),
            c.spec_ttl() == DEFAULT_CACHE_TTL_SECONDS,
            c.spec_hits() == 0,
            c.spec_misses() == 0,
            c.spec_entries().len() == 0,
            c.spec_top() is None,
    {
        QueryCache { ttl: DEFAULT_CACHE_TTL_SECONDS, hits: 0, misses: 0, portfolios: Vec::new(), top_traders: None }
    }

    /// The cache time-to-live in seconds.
    pub fn get_cache_ttl(&self) -> (r: u64)
        ensures
            r == self.spec_ttl(),
    {
        self.ttl
    }

    /// Sets the cache time-to-live; nothing else changes.
    pub fn set_cache_ttl(&mut self, ttl_seconds: u64)
        requires
            old(self).wf(),
        ensures
            final(self).wf(),
            final(self).spec_ttl() == ttl_seconds,
            final(self).spec_hits() == old(self).spec_hits(),
            final(self).spec_misses() == old(self).spec_misses(),
            final(self).spec_entries() == old(self).spec_entries(),
            final(self).spec_top() == old(self).spec_top(),
    {
        self.ttl = ttl_seconds;
        assert(self.spec_entries() == old(self).spec_entries());
    }

    /// Counts one cache access (a hit or a miss, saturating) and returns the
    /// statistics to publish.
    pub fn record_cache_access(&mut self, hit: bool) -> (r: CacheHitMetrics)
        requires
            old(self).wf(),
        ensures
            final(self).wf(),
            final(self).spec_hits() == (if hit { clamp_u64(old(self).spec_hits() + 1) } else { old(self).spec_hits() as int }),
            final(self).spec_misses() == (if hit { old(self).spec_misses() as int } else { clamp_u64(old(self).spec_misses() + 1) }),
            final(self).spec_ttl() == old(self).spec_ttl(),
            final(self).spec_entries() == old(self).spec_entries(),
            final(self).spec_top() == old(self).spec_top(),
            r == (CacheHitMetrics {
                hits: final(self).spec_hits(),
                misses: final(self).spec_misses(),
                ratio_bps: ratio_bps_spec(final(self).spec_hits(), final(self).spec_misses()) as u32,
            }),
    {
        if hit {
            self.hits = self.hits.saturating_add(1);
        } else {
            self.misses = self.misses.saturating_add(1);
        }
        assert(self.spec_entries() == old(self).spec_entries());
        CacheHitMetrics { hits: self.hits, misses: self.misses, ratio_bps: cache_ratio_bps(self.hits, self.misses) }
    }

    /// `(hits, misses, hit_ratio_bps)`.
    pub fn get_cache_stats(&self) -> (r: (u64, u64, u32))
        ensures
            r == (self.spec_hits(), self.spec_misses(), ratio_bps_spec(self.spec_hits(), self.spec_misses()) as u32),
    {
        (self.hits, self.misses, cache_ratio_bps(self.hits, self.misses))
    }

    /// Drops both query caches; statistics and time-to-live stay.
    pub fn invalidate_query_cache(&mut self)
        requires
            old(self).wf(),
        ensures
            final(self).wf(),
            final(self).spec_entries().len() == 0,
            final(self).spec_top() is None,
            final(self).spec_ttl() == old(self).spec_ttl(),
            final(self).spec_hits() == old(self).spec_hits(),
            final(self).spec_misses() == old(self).spec_misses(),
    {
        self.portfolios = Vec::new();
        self.top_traders = None;
    }

    fn find_portfolio(&self, user: &Address) -> (r: Option<usize>)
        requires
            self.wf(),
        ensures
            r matches Some(i) ==> i < self.spec_entries().len() && self.spec_entries()[i as int].0@ == user@
                && self.spec_lookup(user@) == Some(self.spec_entries()[i as int].1),
            r is None ==> self.spec_lookup(user@) is None,
    {
        let mut i: usize = 0;
        while i < self.portfolios.len()
            invariant
                self.wf(),
                i <= self.spec_entries().len(),
                self.spec_entries() == self.portfolios@,
                forall|k: int| 0 <= k < i ==> (#[trigger] self.spec_entries()[k]).0@ != user@,
            decreases self.spec_entries().len() - i,
        {
            if self.portfolios[i].0.same_as(user) {
                proof {
                    let j = choose|j: int| 0 <= j < self.spec_entries().len() && (#[trigger] self.spec_entries()[j]).0@ == user@;
                    if j != i {
                        if j < i {
                            assert(self.spec_entries()[j].0@ != self.spec_entries()[i as int].0@);
                        } else {
                            assert(self.spec_entries()[i as int].0@ != self.spec_entries()[j].0@);
                        }
                    }
                }
                return Some(i);
            }
            i = i + 1;
        }
        None
    }

    /// What a portfolio query for `user` at `now` does, `fresh` being the
    /// value the portfolio gives when the cache cannot answer.
    pub open spec fn portfolio_outcome(
        pre: QueryCache,
        post: QueryCache,
        user: Address,
        now: u64,
        fresh: (u32, i128),
        r: (u32, i128),
    ) -> bool {
        &&& post.spec_ttl() == pre.spec_ttl()
        &&& post.spec_top() == pre.spec_top()
        &&& if pre.portfolio_hit(user@, now) {
            let e = pre.spec_lookup(user@).unwrap();
            &&& r == (e.trades, e.pnl)
            &&& post.spec_hits() == clamp_u64(pre.spec_hits() + 1)
            &&& post.spec_misses() == pre.spec_misses()
            &&& post.spec_entries() == pre.spec_entries()
        } else {
            &&& r == fresh
            &&& post.spec_hits() == pre.spec_hits()
            &&& post.spec_misses() == clamp_u64(pre.spec_misses() + 1)
            &&& post.spec_lookup(user@) == Some(CachedPortfolio { trades: fresh.0, pnl: fresh.1, cached_at: now })
            &&& forall|u: Seq<char>| u != user@ ==> #[trigger] post.spec_lookup(u) == pre.spec_lookup(u)
        }
    }

    /// Portfolio stats `(trade count, pnl)` of `user` at time `now`: the cached
    /// entry while it is fresh (a hit), otherwise `fresh` — the value the
    /// portfolio gives — which is cached with time `now` (a miss).
    pub fn get_portfolio(&mut self, user: &Address, now: u64, fresh: (u32, i128)) -> (r: (u32, i128))
        requires
            old(self).wf(),
        ensures
            final(self).wf(),
            Self::portfolio_outcome(*old(self), *final(self), *user, now, fresh, r),
    {
        let found = self.find_portfolio(user);
        if let Some(i) = found {
            let entry = self.portfolios[i].1;
            if now.saturating_sub(entry.cached_at) <= self.ttl {
                self.record_cache_access(true);
                return (entry.trades, entry.pnl);
            }
        }
        self.record_cache_access(false);
        let value = CachedPortfolio { trades: fresh.0, pnl: fresh.1, cached_at: now };
        let ghost pre_entries = self.spec_entries();
        match found {
            Some(i) => {
                let key = self.portfolios[i].0.clone();
                self.portfolios.set(i, (key, value));
                proof {
                    assert forall|u: Seq<char>| u != user@ implies #[trigger] self.spec_lookup(u) == old(self).spec_lookup(u) by {
                        if exists|k: int| 0 <= k < pre_entries.len() && (#[trigger] pre_entries[k]).0@ == u {
                            let k = choose|k: int| 0 <= k < pre_entries.len() && (#[trigger] pre_entries[k]).0@ == u;
                            assert(self.spec_entries()[k].0@ == u);
                        }
                        if exists|k: int| 0 <= k < self.spec_entries().len() && (#[trigger] self.spec_entries()[k]).0@ == u {
                            let k = choose|k: int| 0 <= k < self.spec_entries().len() && (#[trigger] self.spec_entries()[k]).0@ == u;
                            assert(pre_entries[k].0@ == u);
                        }
                    }
                    assert(self.spec_entries()[i as int].0@ == user@);
                }
            },
            None => {
                self.portfolios.push((user.clone(), value));
                proof {
                    let n = pre_entries.len() as int;
                    assert(self.spec_entries()[n].0@ == user@);
                    assert forall|u: Seq<char>| u != user@ implies #[trigger] self.spec_lookup(u) == old(self).spec_lookup(u) by {
                        if exists|k: int| 0 <= k < pre_entries.len() && (#[trigger] pre_entries[k]).0@ == u {
                            let k = choose|k: int| 0 <= k < pre_entries.len() && (#[trigger] pre_entries[k]).0@ == u;
                            assert(self.spec_entries()[k].0@ == u);
                        }
                        if exists|k: int| 0 <= k < self.spec_entries().len() && (#[trigger] self.spec_entries()[k]).0@ == u {
                            let k = choose|k: int| 0 <= k < self.spec_entries().len() && (#[trigger] self.spec_entries()[k]).0@ == u;
                            assert(k < n);
                            assert(pre_entries[k].0@ == u);
                        }
                    }
                    assert forall|a: int, b: int| 0 <= a < b < self.spec_entries().len() implies (#[trigger] self.spec_entries()[a]).0@
                        != (#[trigger] self.spec_entries()[b]).0@ by {
                        if b == n {
                            assert(pre_entries[a].0@ != user@);
                        }
                    }
                }
            },
        }
        fresh
    }

    /// What a top-traders query for `limit` at `now` does, `fresh` being the
    /// ranking the portfolio gives for `candidate_limit(limit)` traders.
    pub open spec fn top_traders_outcome(
        pre: QueryCache,
        post: QueryCache,
        limit: u32,
        now: u64,
        fresh: Seq<(Address, i128)>,
        r: Seq<(Address, i128)>,
    ) -> bool {
        &&& post.spec_ttl() == pre.spec_ttl()
        &&& post.spec_entries() == pre.spec_entries()
        &&& if pre.top_traders_hit(now) {
            &&& r == limited(pre.spec_top().unwrap().0, limit)
            &&& post.spec_hits() == clamp_u64(pre.spec_hits() + 1)
            &&& post.spec_misses() == pre.spec_misses()
            &&& post.spec_top() == pre.spec_top()
        } else {
            &&& r == limited(fresh, limit)
            &&& post.spec_hits() == pre.spec_hits()
            &&& post.spec_misses() == clamp_u64(pre.spec_misses() + 1)
            &&& post.spec_top() == Some((fresh, now))
        }
    }

    /// The best `limit` traders with their pnl at time `now`: from the cached
    /// ranking while it is fresh (a hit), otherwise from `fresh` — the ranking
    /// the portfolio gives for `candidate_limit(limit)` traders — which is
    /// cached with time `now` (a miss).
    pub fn get_top_traders(&mut self, limit: u32, now: u64, fresh: Vec<(Address, i128)>) -> (r: Vec<(Address, i128)>)
        requires
            old(self).wf(),
        ensures
            final(self).wf(),
            Self::top_traders_outcome(*old(self), *final(self), limit, now, fresh@, r@),
    {
        let hit = match &self.top_traders {
            Some(c) => now.saturating_sub(c.cached_at) <= self.ttl,
            None => false,
        };
        if hit {
            self.record_cache_access(true);
            match &self.top_traders {
                Some(c) => apply_trader_limit(&c.traders, limit),
                None => Vec::new(),
            }
        } else {
            self.record_cache_access(false);
            let r = apply_trader_limit(&fresh, limit);
            self.top_traders = Some(CachedTopTraders { traders: fresh, cached_at: now });
            r
        }
    }
}

/// Read after write within the time-to-live: once a portfolio query for a user
/// has missed and refreshed the cache at `t1`, a later query for that user at
/// `t2` with `t1 <= t2 <= t1 + ttl` answers the refreshed value, whatever the
/// portfolio would give then, and counts as a hit.
pub proof fn law_portfolio_cache_read_after_write(
    c0: QueryCache,
    c1: QueryCache,
    c2: QueryCache,
    user: Address,
    t1: u64,
    t2: u64,
    fresh1: (u32, i128),
    fresh2: (u32, i128),
    r1: (u32, i128),
    r2: (u32, i128),
)
    requires
        QueryCache::portfolio_outcome(c0, c1, user, t1, fresh1, r1),
        !c0.portfolio_hit(user@, t1),
        QueryCache::portfolio_outcome(c1, c2, user, t2, fresh2, r2),
        t1 <= t2 <= t1 + c0.spec_ttl(),
    ensures
        r2 == r1,
        r1 == fresh1,
        c2.spec_hits() == clamp_u64(c1.spec_hits() + 1),
{
}

/// A fresh top-traders ranking is served from the cache: a second query at
/// `t2` within the time-to-live of a refresh at `t1` answers a prefix of the
/// ranking cached at `t1`, whatever the portfolio would give then.
pub proof fn law_top_traders_cache_read_after_write(
    c0: QueryCache,
    c1: QueryCache,
    c2: QueryCache,
    limit1: u32,
    limit2: u32,
    t1: u64,
    t2: u64,
    fresh1: Seq<(Address, i128)>,
    fresh2: Seq<(Address, i128)>,
    r1: Seq<(Address, i128)>,
    r2: Seq<(Address, i128)>,
)
    requires
        QueryCache::top_traders_outcome(c0, c1, limit1, t1, fresh1, r1),
        !c0.top_traders_hit(t1),
        QueryCache::top_traders_outcome(c1, c2, limit2, t2, fresh2, r2),
        t1 <= t2 <= t1 + c0.spec_ttl(),
    ensures
        r2 == limited(fresh1, limit2),
{
}

} // verus!
