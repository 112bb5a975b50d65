use multi_tier_cache::{scale_ttl, CacheError, CacheStrategy, Ttl, DEFAULT_TTL_MILLIS};

#[test]
fn strategy_base_ttls() {
    assert_eq!(CacheStrategy::RealTime.to_duration(), Ttl::from_secs(10));
    assert_eq!(CacheStrategy::ShortTerm.to_duration(), Ttl::from_secs(300));
    assert_eq!(CacheStrategy::Default.to_duration(), Ttl::from_secs(300));
    assert_eq!(CacheStrategy::MediumTerm.to_duration(), Ttl::from_secs(3600));
    assert_eq!(CacheStrategy::LongTerm.to_duration(), Ttl::from_secs(10800));
    assert_eq!(CacheStrategy::Custom(Ttl::from_secs(60)).to_duration(), Ttl::from_secs(60));
    assert_eq!(CacheStrategy::Custom(Ttl::from_millis(100)).to_duration().as_millis(), 100);
    assert_eq!(DEFAULT_TTL_MILLIS, 300_000);
}

#[test]
fn ttl_conversions() {
    assert_eq!(Ttl::from_secs(2).as_millis(), 2000);
    assert_eq!(Ttl::from_millis(2999).as_secs(), 2);
    assert_eq!(Ttl::from_secs(u64::MAX).as_millis(), u64::MAX);
}

#[test]
fn ttl_scaling_exact() {
    assert_eq!(scale_ttl(Ttl::from_secs(300), 1000), Ttl::from_secs(300));
    assert_eq!(scale_ttl(Ttl::from_secs(300), 2000), Ttl::from_secs(600));
    assert_eq!(scale_ttl(Ttl::from_secs(300), 8000), Ttl::from_secs(2400));
    assert_eq!(scale_ttl(Ttl::from_millis(999), 500), Ttl::from_millis(499));
    assert_eq!(scale_ttl(Ttl::from_millis(u64::MAX), 2000), Ttl::from_millis(u64::MAX));
}

#[test]
fn scaled_ttl_stays_in_bounds() {
    // stored TTL lies in (0, T * s] whenever T * s reaches a millisecond
    for (base, scale) in [(10u64, 100u64), (1, 1000), (7, 333), (100_000, 1500)] {
        let r = scale_ttl(Ttl::from_millis(base), scale).as_millis();
        assert!(r > 0);
        assert!(r as u128 * 1000 <= base as u128 * scale as u128);
    }
}

#[test]
fn error_messages() {
    assert_eq!(CacheError::StreamingNotConfigured.message(), "streaming backend not configured");
    assert!(!CacheError::TierOrder { found: 1, after: 2 }.message().is_empty());
}
