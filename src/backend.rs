use vstd::prelude::*;

use crate::strategy::Ttl;
use crate::tier::{bump, bump_counter};

verus! {

/// Limits of the bounded in-memory backend.
#[derive(Clone, Copy, Debug, PartialEq, Eq, Structural)]
pub struct MokaCacheConfig {
    /// Most entries held at once.
    pub max_capacity: u64,
    /// Longest any entry lives, whatever TTL it was written with.
    pub time_to_live: Ttl,
    /// Longest an entry lives without being read.
    pub time_to_idle: Ttl,
}

impl Default for MokaCacheConfig {
    fn default() -> (r: Self)
        ensures
            r.max_capacity == 2000,
            r.time_to_live.millis == 3_600_000,
            r.time_to_idle.millis == 120_000,
    {
        MokaCacheConfig {
            max_capacity: 2000,
            time_to_live: Ttl::from_secs(3600),
            time_to_idle: Ttl::from_secs(120),
        }
    }
}

/// Counters of one backend's own traffic.
#[derive(Clone, Copy, Debug, PartialEq, Eq, Structural)]
pub struct CacheStats {
    pub hits: u64,
    pub misses: u64,
    pub sets: u64,
    pub coalesced_requests: u64,
    pub size: u64,
}

impl Default for CacheStats {
    fn default() -> (r: Self)
        ensures
            r == (CacheStats { hits: 0, misses: 0, sets: 0, coalesced_requests: 0, size: 0 }),
    {
        CacheStats { hits: 0, misses: 0, sets: 0, coalesced_requests: 0, size: 0 }
    }
}

impl CacheStats {
    /// Counts one read: a hit when it found a live entry, else a miss.
    pub fn record_read(&mut self, found: bool)
        ensures
            *final(self) == (if found {
                CacheStats { hits: bump(old(self).hits), ..*old(self) }
            } else {
                CacheStats { misses: bump(old(self).misses), ..*old(self) }
            }),
    {
        if found {
            bump_counter(&mut self.hits);
        } else {
            bump_counter(&mut self.misses);
        }
    }

    /// Counts one write.
    pub fn record_set(&mut self)
        ensures
            *final(self) == (CacheStats { sets: bump(old(self).sets), ..*old(self) }),
    {
        bump_counter(&mut self.sets);
    }
}

} // verus!
