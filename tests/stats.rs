use multi_tier_cache::{CacheManagerStats, RequestCounters, RequestOutcome, TierStats};

#[test]
fn counters_add_up() {
    let mut c = RequestCounters::new();
    c.record(RequestOutcome::TopHit);
    c.record(RequestOutcome::LowerHit);
    c.record_promotion();
    c.record(RequestOutcome::TopHit);
    c.record(RequestOutcome::Miss);
    let s = c.snapshot(3);
    assert_eq!(
        s,
        CacheManagerStats {
            total_requests: 4,
            l1_hits: 2,
            l2_hits: 1,
            total_hits: 3,
            misses: 1,
            promotions: 1,
            in_flight_requests: 3,
        }
    );
    assert_eq!(s.total_requests, s.l1_hits + s.l2_hits + s.misses);
}

#[test]
fn full_request_counter_stops() {
    let mut c = RequestCounters { total_requests: u64::MAX, l1_hits: u64::MAX, l2_hits: 0, misses: 0, promotions: u64::MAX };
    c.record(RequestOutcome::Miss);
    c.record_promotion();
    assert_eq!(c.misses, 0);
    assert_eq!(c.total_requests, u64::MAX);
    assert_eq!(c.promotions, u64::MAX);
}

#[test]
fn tier_stats_count_hits() {
    let mut t = TierStats::new(2, "Redis".to_string());
    assert_eq!(t.hit_count(), 0);
    t.record_hit();
    t.record_hit();
    assert_eq!(t.hit_count(), 2);
    assert_eq!(t.tier_level, 2);
}

#[test]
fn backend_counters_and_config() {
    let mut s = multi_tier_cache::CacheStats::default();
    s.record_read(true);
    s.record_read(false);
    s.record_read(false);
    s.record_set();
    assert_eq!((s.hits, s.misses, s.sets, s.size), (1, 2, 1, 0));
    let c = multi_tier_cache::MokaCacheConfig::default();
    assert_eq!(c.max_capacity, 2000);
    assert_eq!(c.time_to_live, multi_tier_cache::Ttl::from_secs(3600));
    assert_eq!(c.time_to_idle, multi_tier_cache::Ttl::from_secs(120));
}
