//! Core of a multi-tier cache: the tier ladder with its promotion and TTL rules,
//! per-key coalescing of miss paths, request and bus statistics, and the
//! invalidation bus's messages and subscriber decisions.

use vstd::prelude::*;

pub mod backend;
pub mod coalescer;
pub mod error;
pub mod glob;
pub mod invalidation;
pub mod ladder;
pub mod stats;
pub mod strategy;
pub mod tier;

pub use backend::{CacheStats, MokaCacheConfig};
pub use coalescer::{miss_step, InFlightTable, MissStep};
pub use error::CacheError;
pub use glob::{glob_match, select_matching};
pub use invalidation::{
    audit_fields, decimal_string, AtomicInvalidationStats, InvalidationConfig, InvalidationMessage,
    InvalidationStats, SubscriberAction, SubscriberEvent, SubscriberState, TierAction,
};
pub use ladder::{write_outcome, PromotionPlan, TierLadder, WalkStep};
pub use stats::{CacheManagerStats, RequestCounters, RequestOutcome};
pub use strategy::{CacheStrategy, Ttl, DEFAULT_TTL_MILLIS};
pub use tier::{scale_ttl, CacheTier, TierConfig, TierStats, SCALE_ONE};

verus! {

} // verus!
