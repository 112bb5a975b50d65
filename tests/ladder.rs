use multi_tier_cache::{write_outcome, CacheError, CacheTier, TierConfig, TierLadder, Ttl, WalkStep};

fn tier(name: &str, config: TierConfig) -> CacheTier<String> {
    CacheTier::from_config(name.to_string(), name.to_string(), config)
}

fn four_tiers() -> TierLadder<String> {
    let tiers = vec![
        tier("l1", TierConfig::as_l1()),
        tier("l2", TierConfig::as_l2()),
        tier("l3", TierConfig::as_l3()),
        tier("l4", TierConfig::as_l4()),
    ];
    match TierLadder::new(tiers) {
        Ok(l) => l,
        Err(e) => panic!("{:?}", e),
    }
}

#[test]
fn tier_presets() {
    assert_eq!(TierConfig::as_l1(), TierConfig { tier_level: 1, promotion_enabled: false, ttl_scale: 1000 });
    assert_eq!(TierConfig::as_l2(), TierConfig { tier_level: 2, promotion_enabled: true, ttl_scale: 1000 });
    assert_eq!(TierConfig::as_l3(), TierConfig { tier_level: 3, promotion_enabled: true, ttl_scale: 2000 });
    assert_eq!(TierConfig::as_l4(), TierConfig { tier_level: 4, promotion_enabled: true, ttl_scale: 8000 });
    let c = TierConfig::new(7).with_promotion(false).with_ttl_scale(1500).with_level(9);
    assert_eq!(c, TierConfig { tier_level: 9, promotion_enabled: false, ttl_scale: 1500 });
}

#[test]
fn ladder_accepts_ascending_levels() {
    let l = four_tiers();
    assert_eq!(l.len(), 4);
    let levels: Vec<usize> = l.configs().iter().map(|c| c.tier_level).collect();
    assert_eq!(levels, vec![1, 2, 3, 4]);
    assert_eq!(l.tier(2).backend, "l3");
}

#[test]
fn ladder_rejects_empty() {
    assert!(matches!(TierLadder::<String>::new(vec![]), Err(CacheError::EmptyLadder)));
}

#[test]
fn ladder_rejects_out_of_order_and_duplicates() {
    let r = TierLadder::new(vec![tier("a", TierConfig::new(1)), tier("b", TierConfig::new(3)), tier("c", TierConfig::new(2))]);
    assert!(matches!(r, Err(CacheError::TierOrder { found: 2, after: 3 })));
    let r = TierLadder::new(vec![tier("a", TierConfig::new(2)), tier("b", TierConfig::new(2))]);
    assert!(matches!(r, Err(CacheError::TierOrder { found: 2, after: 2 })));
}

#[test]
fn write_ttls_follow_scales() {
    let l = four_tiers();
    let ttls = l.write_ttls(Ttl::from_secs(10));
    assert_eq!(ttls, vec![Ttl::from_secs(10), Ttl::from_secs(10), Ttl::from_secs(20), Ttl::from_secs(80)]);
    assert_eq!(l.tier(3).write_ttl(Ttl::from_secs(300)), Ttl::from_secs(2400));
}

#[test]
fn hit_at_second_tier_promotes_to_top() {
    let mut l = four_tiers();
    let plan = l.on_hit(1, Some(Ttl::from_secs(42)));
    assert_eq!(plan.targets, vec![0]);
    assert_eq!(plan.ttl, Ttl::from_secs(42));
    assert_eq!(l.tier(1).stats.hit_count(), 1);
    assert_eq!(l.tier(0).stats.hit_count(), 0);
}

#[test]
fn hit_at_fourth_tier_promotes_nearest_first() {
    let mut l = four_tiers();
    let plan = l.on_hit(3, None);
    assert_eq!(plan.targets, vec![2, 1, 0]);
    assert_eq!(plan.ttl, Ttl::from_secs(300));
}

#[test]
fn top_hit_and_disabled_promotion_plan_nothing() {
    let mut l = four_tiers();
    assert!(l.on_hit(0, None).targets.is_empty());
    let mut l = TierLadder::new(vec![
        tier("a", TierConfig::as_l1()),
        tier("b", TierConfig::as_l2().with_promotion(false)),
    ])
    .ok()
    .unwrap();
    assert!(l.on_hit(1, None).targets.is_empty());
    let stats = l.tier_stats();
    assert_eq!(stats[1].hits, 1);
    assert_eq!(stats[1].tier_level, 2);
    assert_eq!(stats[1].backend_name, "b");
}

#[test]
fn write_succeeds_on_any_tier() {
    assert_eq!(write_outcome(&vec![true, false, true]), Ok(2));
    assert_eq!(write_outcome(&vec![false, false, true]), Ok(1));
    assert_eq!(write_outcome(&vec![false, false, false]), Err(2));
    assert_eq!(write_outcome(&vec![false]), Err(0));
}

#[test]
fn tier_stats_clone_keeps_fields() {
    let mut l = four_tiers();
    l.on_hit(2, None);
    let s = l.tier(2).stats.clone();
    assert_eq!((s.tier_level, s.hits, s.backend_name.as_str()), (3, 1, "l3"));
}

#[test]
fn walk_stops_at_first_hit() {
    let mut l = four_tiers();
    assert!(matches!(l.walk_from(1), WalkStep::Probe(1)));
    assert!(matches!(l.after_probe(1, None), WalkStep::Probe(2)));
    match l.after_probe(2, Some(Some(Ttl::from_secs(30)))) {
        WalkStep::Hit(i, plan) => {
            assert_eq!(i, 2);
            assert_eq!(plan.targets, vec![1, 0]);
            assert_eq!(plan.ttl, Ttl::from_secs(30));
        }
        _ => panic!("expected a hit at the third tier"),
    }
    assert_eq!(l.tier(2).stats.hits, 1);
    assert_eq!(l.tier(1).stats.hits, 0);
}

#[test]
fn walk_ends_after_last_tier() {
    let mut l = four_tiers();
    assert!(matches!(l.after_probe(3, None), WalkStep::Exhausted));
    assert!(matches!(l.walk_from(4), WalkStep::Exhausted));
    match l.after_probe(0, Some(None)) {
        WalkStep::Hit(0, plan) => assert!(plan.targets.is_empty()),
        _ => panic!("expected a hit at the top tier"),
    }
}
