use peerx::cache::{apply_trader_limit, cache_ratio_bps, candidate_limit, CacheHitMetrics, QueryCache, DEFAULT_CACHE_TTL_SECONDS};
use peerx::types::Address;

fn user(tag: &str) -> Address {
    Address::new(format!("G{}", tag))
}

#[test]
fn ratio_is_zero_without_accesses() {
    assert_eq!(cache_ratio_bps(0, 0), 0);
}

#[test]
fn ratio_in_basis_points() {
    assert_eq!(cache_ratio_bps(3, 1), 7_500);
    assert_eq!(cache_ratio_bps(1, 2), 3_333);
    assert_eq!(cache_ratio_bps(5, 0), 10_000);
    assert_eq!(cache_ratio_bps(0, 9), 0);
}

#[test]
fn ratio_stays_exact_for_huge_counters() {
    assert_eq!(cache_ratio_bps(u64::MAX, 0), 10_000);
    assert_eq!(cache_ratio_bps(u64::MAX / 2, u64::MAX / 2), 5_000);
    assert_eq!(cache_ratio_bps(u64::MAX, u64::MAX), 5_000);
    assert_eq!(cache_ratio_bps(u64::MAX, 3 * (u64::MAX / 5) + 3), 6_249);
    assert_eq!(cache_ratio_bps(1, u64::MAX), 0);
}

#[test]
fn trader_limit_takes_a_prefix() {
    let traders = vec![(user("A"), 30), (user("B"), 20), (user("C"), 10)];
    assert_eq!(apply_trader_limit(&traders, 2), vec![(user("A"), 30), (user("B"), 20)]);
    assert_eq!(apply_trader_limit(&traders, 5), traders);
    assert_eq!(apply_trader_limit(&traders, 0), vec![]);
}

#[test]
fn candidate_limit_is_at_least_one_hundred() {
    assert_eq!(candidate_limit(5), 100);
    assert_eq!(candidate_limit(100), 100);
    assert_eq!(candidate_limit(250), 250);
}

#[test]
fn portfolio_cache_hits_within_ttl_and_refreshes_after() {
    let mut c = QueryCache::new();
    assert_eq!(c.get_cache_ttl(), DEFAULT_CACHE_TTL_SECONDS);
    let u = user("U");

    assert_eq!(c.get_portfolio(&u, 1_000, (3, 50)), (3, 50));
    assert_eq!(c.get_cache_stats(), (0, 1, 0));

    // Within the 60 s TTL the cached value answers, whatever the portfolio says now.
    assert_eq!(c.get_portfolio(&u, 1_060, (9, 9)), (3, 50));
    assert_eq!(c.get_cache_stats(), (1, 1, 5_000));

    // Past the TTL the fresh value is served and cached.
    assert_eq!(c.get_portfolio(&u, 1_061, (9, 9)), (9, 9));
    assert_eq!(c.get_cache_stats(), (1, 2, 3_333));
    assert_eq!(c.get_portfolio(&u, 1_062, (1, 1)), (9, 9));
}

#[test]
fn portfolio_cache_is_per_user_and_cleared_by_invalidation() {
    let mut c = QueryCache::new();
    let a = user("A");
    let b = user("B");
    assert_eq!(c.get_portfolio(&a, 10, (1, 100)), (1, 100));
    assert_eq!(c.get_portfolio(&b, 10, (2, 200)), (2, 200));
    assert_eq!(c.get_portfolio(&a, 20, (7, 7)), (1, 100));
    assert_eq!(c.get_portfolio(&b, 20, (7, 7)), (2, 200));
    c.invalidate_query_cache();
    assert_eq!(c.get_portfolio(&a, 20, (7, 7)), (7, 7));
    assert_eq!(c.get_cache_stats(), (2, 3, 4_000));
}

#[test]
fn cached_entry_from_the_future_counts_as_fresh() {
    let mut c = QueryCache::new();
    let a = user("A");
    c.get_portfolio(&a, 500, (1, 1));
    assert_eq!(c.get_portfolio(&a, 100, (2, 2)), (1, 1));
}

#[test]
fn ttl_can_be_changed() {
    let mut c = QueryCache::new();
    c.set_cache_ttl(0);
    let a = user("A");
    c.get_portfolio(&a, 5, (1, 1));
    assert_eq!(c.get_portfolio(&a, 5, (2, 2)), (1, 1));
    assert_eq!(c.get_portfolio(&a, 6, (2, 2)), (2, 2));
}

#[test]
fn top_traders_cache_serves_prefixes_of_the_cached_ranking() {
    let mut c = QueryCache::new();
    let ranking = vec![(user("A"), 30), (user("B"), 20), (user("C"), 10)];
    assert_eq!(c.get_top_traders(2, 100, ranking.clone()), vec![(user("A"), 30), (user("B"), 20)]);
    assert_eq!(c.get_top_traders(3, 150, vec![]), ranking);
    assert_eq!(c.get_cache_stats(), (1, 1, 5_000));
    assert_eq!(c.get_top_traders(3, 161, vec![(user("D"), 1)]), vec![(user("D"), 1)]);
}

#[test]
fn record_cache_access_reports_the_new_totals() {
    let mut c = QueryCache::new();
    assert_eq!(c.record_cache_access(true), CacheHitMetrics { hits: 1, misses: 0, ratio_bps: 10_000 });
    assert_eq!(c.record_cache_access(false), CacheHitMetrics { hits: 1, misses: 1, ratio_bps: 5_000 });
}
