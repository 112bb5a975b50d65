use vstd::prelude::*;

use crate::strategy::Ttl;

verus! {

/// A scale of 1.0, in the thousandths that tiers count TTL scales in.
pub const SCALE_ONE: u64 = 1000;

/// `base * scale / 1000`, rounded down and capped at the largest `u64`: the TTL
/// that a tier with that scale stores for a write with base TTL `base`.
pub open spec fn scaled_millis(base: nat, scale: nat) -> nat {
    if base * scale / 1000 <= u64::MAX {
        base * scale / 1000
    } else {
        u64::MAX as nat
    }
}

/// Scales `base` by `scale` thousandths.
///
/// The stored TTL never exceeds `base * scale` (in thousandths), and it is
/// positive whenever `base * scale` reaches one millisecond.
pub fn scale_ttl(base: Ttl, scale: u64) -> (r: Ttl)
    ensures
        r.millis == scaled_millis(base.millis as nat, scale as nat),
        r.millis * 1000 <= base.millis * scale,
        base.millis * scale >= 1000 ==> r.millis > 0,
{
    let b = base.millis as u128;
    let s = scale as u128;
    assert(b * s <= u64::MAX as u128 * u64::MAX as u128) by (nonlinear_arith)
        requires
            b <= u64::MAX,
            s <= u64::MAX,
    ;
    let q = b * s / 1000;
    proof {
        let p = base.millis * scale;
        assert(q * 1000 <= p) by (nonlinear_arith)
            requires
                q == p / 1000,
                p >= 0,
        ;
        assert(p >= 1000 ==> q > 0) by (nonlinear_arith)
            requires
                q == p / 1000,
        ;
    }
    if q <= u64::MAX as u128 {
        Ttl { millis: q as u64 }
    } else {
        proof {
            assert((u64::MAX as int) * 1000 <= q * 1000) by (nonlinear_arith)
                requires
                    q > u64::MAX as int,
            ;
        }
        Ttl { millis: u64::MAX }
    }
}

/// Configuration of one tier of the ladder.
#[derive(Clone, Copy, Debug, PartialEq, Eq, Structural)]
pub struct TierConfig {
    /// Tier level: 1 is the hottest, higher levels are colder.
    pub tier_level: usize,
    /// Whether a hit at this tier is copied into the tiers above it.
    pub promotion_enabled: bool,
    /// TTL scale factor, in thousandths (1000 keeps the base TTL).
    pub ttl_scale: u64,
}

impl TierConfig {
    /// A tier at `tier_level` with promotion on and the base TTL.
    pub fn new(tier_level: usize) -> (r: TierConfig)
        ensures
            r == (TierConfig { tier_level, promotion_enabled: true, ttl_scale: SCALE_ONE }),
    {
        TierConfig { tier_level, promotion_enabled: true, ttl_scale: SCALE_ONE }
    }

    /// The hot tier: level 1, no promotion (nothing sits above it), base TTL.
    pub fn as_l1() -> (r: TierConfig)
        ensures
            r == (TierConfig { tier_level: 1, promotion_enabled: false, ttl_scale: 1000 }),
    {
        TierConfig { tier_level: 1, promotion_enabled: false, ttl_scale: SCALE_ONE }
    }

    /// The warm tier: level 2, promotion on, base TTL.
    pub fn as_l2() -> (r: TierConfig)
        ensures
            r == (TierConfig { tier_level: 2, promotion_enabled: true, ttl_scale: 1000 }),
    {
        TierConfig { tier_level: 2, promotion_enabled: true, ttl_scale: SCALE_ONE }
    }

    /// The cold tier: level 3, promotion on, twice the base TTL.
    pub fn as_l3() -> (r: TierConfig)
        ensures
            r == (TierConfig { tier_level: 3, promotion_enabled: true, ttl_scale: 2000 }),
    {
        TierConfig { tier_level: 3, promotion_enabled: true, ttl_scale: 2 * SCALE_ONE }
    }

    /// The archive tier: level 4, promotion on, eight times the base TTL.
    pub fn as_l4() -> (r: TierConfig)
        ensures
            r == (TierConfig { tier_level: 4, promotion_enabled: true, ttl_scale: 8000 }),
    {
        TierConfig { tier_level: 4, promotion_enabled: true, ttl_scale: 8 * SCALE_ONE }
    }

    pub fn with_promotion(self, enabled: bool) -> (r: TierConfig)
        ensures
            r == (TierConfig { promotion_enabled: enabled, ..self }),
    {
        TierConfig { promotion_enabled: enabled, ..self }
    }

    /// Sets the TTL scale, in thousandths; it must be positive.
    pub fn with_ttl_scale(self, scale: u64) -> (r: TierConfig)
        requires
            scale > 0,
        ensures
            r == (TierConfig { ttl_scale: scale, ..self }),
    {
        TierConfig { ttl_scale: scale, ..self }
    }

    pub fn with_level(self, level: usize) -> (r: TierConfig)
        ensures
            r == (TierConfig { tier_level: level, ..self }),
    {
        TierConfig { tier_level: level, ..self }
    }
}

/// `n + 1`, or `n` where that would not fit a `u64`.
pub open spec fn bump(n: u64) -> u64 {
    if n < u64::MAX {
        (n + 1) as u64
    } else {
        n
    }
}

/// Adds one to a counter, stopping at the largest `u64`.
pub fn bump_counter(n: &mut u64)
    ensures
        *final(n) == bump(*old(n)),
{
    if *n < u64::MAX {
        *n = *n + 1;
    }
}

/// Statistics of one tier.
#[derive(Debug)]
pub struct TierStats {
    /// Tier level (1 = L1, 2 = L2, ...).
    pub tier_level: usize,
    /// Number of hits at this tier.
    pub hits: u64,
    /// Name of the tier's backend.
    pub backend_name: String,
}

impl Clone for TierStats {
    fn clone(&self) -> (r: Self)
        ensures
            r == *self,
    {
        TierStats { tier_level: self.tier_level, hits: self.hits, backend_name: self.backend_name.clone() }
    }
}

impl TierStats {
    pub fn new(tier_level: usize, backend_name: String) -> (r: TierStats)
        ensures
            r.tier_level == tier_level,
            r.hits == 0,
            r.backend_name == backend_name,
    {
        TierStats { tier_level, hits: 0, backend_name }
    }

    /// The current hit count.
    pub fn hit_count(&self) -> (r: u64)
        ensures
            r == self.hits,
    {
        self.hits
    }

    pub fn record_hit(&mut self)
        ensures
            final(self).hits == bump(old(self).hits),
            final(self).tier_level == old(self).tier_level,
            final(self).backend_name == old(self).backend_name,
    {
        bump_counter(&mut self.hits);
    }
}

/// One tier of the ladder: a backend with its level, promotion flag, TTL scale and hit count.
pub struct CacheTier<B> {
    pub backend: B,
    pub config: TierConfig,
    pub stats: TierStats,
}

impl<B> CacheTier<B> {
    /// A tier over `backend`, named `backend_name`, with the given settings.
    pub fn new(
        backend: B,
        backend_name: String,
        tier_level: usize,
        promotion_enabled: bool,
        ttl_scale: u64,
    ) -> (r: CacheTier<B>)
        requires
            ttl_scale > 0,
        ensures
            r.backend == backend,
            r.config == (TierConfig { tier_level, promotion_enabled, ttl_scale }),
            r.stats.tier_level == tier_level,
            r.stats.hits == 0,
            r.stats.backend_name == backend_name,
    {
        CacheTier {
            backend,
            config: TierConfig { tier_level, promotion_enabled, ttl_scale },
            stats: TierStats::new(tier_level, backend_name),
        }
    }

    /// A tier over `backend` with the settings of `config`.
    pub fn from_config(backend: B, backend_name: String, config: TierConfig) -> (r: CacheTier<B>)
        requires
            config.ttl_scale > 0,
        ensures
            r.backend == backend,
            r.config == config,
            r.stats.tier_level == config.tier_level,
            r.stats.hits == 0,
            r.stats.backend_name == backend_name,
    {
        CacheTier { backend, config, stats: TierStats::new(config.tier_level, backend_name) }
    }

    /// The TTL that this tier stores for a write with base TTL `base`.
    pub fn write_ttl(&self, base: Ttl) -> (r: Ttl)
        ensures
            r.millis == scaled_millis(base.millis as nat, self.config.ttl_scale as nat),
    {
        scale_ttl(base, self.config.ttl_scale)
    }

    pub fn record_hit(&mut self)
        ensures
            final(self).stats.hits == bump(old(self).stats.hits),
            final(self).stats.tier_level == old(self).stats.tier_level,
            final(self).stats.backend_name == old(self).stats.backend_name,
            final(self).config == old(self).config,
            final(self).backend == old(self).backend,
    {
        self.stats.record_hit();
    }
}

} // verus!
