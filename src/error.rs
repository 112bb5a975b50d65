use vstd::prelude::*;

verus! {

/// The ways a cache operation can fail.
#[derive(Clone, Copy, Debug, PartialEq, Eq, Structural)]
pub enum CacheError {
    /// A backend call failed or the backend is unreachable.
    BackendUnavailable,
    /// A value could not be encoded.
    Serialization,
    /// Stored bytes could not be decoded into the requested type.
    Deserialization,
    /// A stream operation was asked for and no streaming backend is configured.
    StreamingNotConfigured,
    /// Pattern invalidation was asked for and no backend can scan keys.
    PatternScanNotConfigured,
    /// A ladder needs at least one tier.
    EmptyLadder,
    /// Tier levels must ascend strictly: `found` came after `after`.
    TierOrder { found: usize, after: usize },
}

impl CacheError {
    pub open spec fn message_spec(self) -> Seq<char> {
        match self {
            CacheError::BackendUnavailable => "cache backend unavailable"@,
            CacheError::Serialization => "failed to serialize cache value"@,
            CacheError::Deserialization => "failed to deserialize cache value"@,
            CacheError::StreamingNotConfigured => "streaming backend not configured"@,
            CacheError::PatternScanNotConfigured => "pattern invalidation requires a key-scanning backend"@,
            CacheError::EmptyLadder => "at least one cache tier is required"@,
            CacheError::TierOrder { .. } => "tiers must be sorted by tier level ascending"@,
        }
    }

    /// A short description of the error.
    pub fn message(&self) -> (r: &'static str)
        ensures
            r@ == self.message_spec(),
    {
        let r = match self {
            CacheError::BackendUnavailable => "cache backend unavailable",
            CacheError::Serialization => "failed to serialize cache value",
            CacheError::Deserialization => "failed to deserialize cache value",
            CacheError::StreamingNotConfigured => "streaming backend not configured",
            CacheError::PatternScanNotConfigured => "pattern invalidation requires a key-scanning backend",
            CacheError::EmptyLadder => "at least one cache tier is required",
            CacheError::TierOrder { .. } => "tiers must be sorted by tier level ascending",
        };
        proof {
            reveal_strlit("cache backend unavailable");
            reveal_strlit("failed to serialize cache value");
            reveal_strlit("failed to deserialize cache value");
            reveal_strlit("streaming backend not configured");
            reveal_strlit("pattern invalidation requires a key-scanning backend");
            reveal_strlit("at least one cache tier is required");
            reveal_strlit("tiers must be sorted by tier level ascending");
        }
        r
    }
}

} // verus!
