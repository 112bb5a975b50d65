use vstd::prelude::*;

verus! {

/// A time-to-live, held in whole milliseconds.
#[derive(Clone, Copy, Debug, PartialEq, Eq, Structural)]
pub struct Ttl {
    pub millis: u64,
}

/// `n * 1000`, capped at the largest `u64`.
pub open spec fn secs_to_millis(n: nat) -> nat {
    if n * 1000 <= u64::MAX {
        n * 1000
    } else {
        u64::MAX as nat
    }
}

impl Ttl {
    /// A TTL of `secs` seconds; one too long for a `u64` of milliseconds is capped.
    pub fn from_secs(secs: u64) -> (r: Ttl)
        ensures
            r.millis == secs_to_millis(secs as nat),
    {
        if secs <= u64::MAX / 1000 {
            Ttl { millis: secs * 1000 }
        } else {
            Ttl { millis: u64::MAX }
        }
    }

    /// A TTL of `millis` milliseconds.
    pub fn from_millis(millis: u64) -> (r: Ttl)
        ensures
            r.millis == millis,
    {
        Ttl { millis }
    }

    /// The whole seconds of this TTL, rounded down.
    pub fn as_secs(&self) -> (r: u64)
        ensures
            r == self.millis / 1000,
    {
        self.millis / 1000
    }

    pub fn as_millis(&self) -> (r: u64)
        ensures
            r == self.millis,
    {
        self.millis
    }
}

/// The named base TTLs that a write can ask for.
#[derive(Clone, Copy, Debug, PartialEq, Eq, Structural)]
pub enum CacheStrategy {
    /// Real-time data: 10 seconds.
    RealTime,
    /// Short-term data: 5 minutes.
    ShortTerm,
    /// Medium-term data: 1 hour.
    MediumTerm,
    /// Long-term data: 3 hours.
    LongTerm,
    /// A TTL chosen by the caller.
    Custom(Ttl),
    /// The default: 5 minutes.
    Default,
}

/// Milliseconds in the default TTL, used where no other is known.
pub const DEFAULT_TTL_MILLIS: u64 = 300_000;

impl CacheStrategy {
    /// The base TTL, in milliseconds, that this strategy stands for.
    pub open spec fn ttl_millis(self) -> nat {
        match self {
            CacheStrategy::RealTime => 10_000,
            CacheStrategy::ShortTerm => 300_000,
            CacheStrategy::Default => 300_000,
            CacheStrategy::MediumTerm => 3_600_000,
            CacheStrategy::LongTerm => 10_800_000,
            CacheStrategy::Custom(t) => t.millis as nat,
        }
    }

    /// The base TTL of this strategy.
    pub fn to_duration(&self) -> (r: Ttl)
        ensures
            r.millis == self.ttl_millis(),
    {
        match self {
            CacheStrategy::RealTime => Ttl::from_secs(10),
            CacheStrategy::ShortTerm | CacheStrategy::Default => Ttl::from_secs(300),
            CacheStrategy::MediumTerm => Ttl::from_secs(3600),
            CacheStrategy::LongTerm => Ttl::from_secs(10800),
            CacheStrategy::Custom(t) => *t,
        }
    }
}

} // verus!
