use vstd::prelude::*;

use crate::tier::{bump, bump_counter};

verus! {

/// How one read request ended.
#[derive(Clone, Copy, Debug, PartialEq, Eq, Structural)]
pub enum RequestOutcome {
    /// Found in the top tier.
    TopHit,
    /// Found in a tier below the top one.
    LowerHit,
    /// Found in no tier.
    Miss,
}

/// A snapshot of the manager's counters.
#[derive(Clone, Copy, Debug, PartialEq, Eq, Structural)]
pub struct CacheManagerStats {
    pub total_requests: u64,
    pub l1_hits: u64,
    pub l2_hits: u64,
    pub total_hits: u64,
    pub misses: u64,
    pub promotions: u64,
    pub in_flight_requests: usize,
}

/// The manager's running counters of read requests and promotions.
#[derive(Clone, Copy, Debug, PartialEq, Eq, Structural)]
pub struct RequestCounters {
    pub total_requests: u64,
    /// Hits in the top tier.
    pub l1_hits: u64,
    /// Hits in any lower tier.
    pub l2_hits: u64,
    pub misses: u64,
    pub promotions: u64,
}

/// The counters after one request that ended with `o`; a full request counter stops counting.
pub open spec fn count_outcome(c: RequestCounters, o: RequestOutcome) -> RequestCounters {
    if c.total_requests == u64::MAX {
        c
    } else {
        match o {
            RequestOutcome::TopHit => RequestCounters {
                total_requests: (c.total_requests + 1) as u64,
                l1_hits: (c.l1_hits + 1) as u64,
                ..c
            },
            RequestOutcome::LowerHit => RequestCounters {
                total_requests: (c.total_requests + 1) as u64,
                l2_hits: (c.l2_hits + 1) as u64,
                ..c
            },
            RequestOutcome::Miss => RequestCounters {
                total_requests: (c.total_requests + 1) as u64,
                misses: (c.misses + 1) as u64,
                ..c
            },
        }
    }
}

/// The counters after the requests `os`, in order.
pub open spec fn count_outcomes(c: RequestCounters, os: Seq<RequestOutcome>) -> RequestCounters
    decreases os.len(),
{
    if os.len() == 0 {
        c
    } else {
        count_outcomes(count_outcome(c, os[0]), os.drop_first())
    }
}

impl RequestCounters {
    /// Every request is counted exactly once: as a top hit, a lower hit or a miss.
    pub open spec fn wf(self) -> bool {
        self.total_requests as int == self.l1_hits as int + self.l2_hits as int + self.misses as int
    }

    pub fn new() -> (r: RequestCounters)
        ensures
            r.wf(),
            r == (RequestCounters { total_requests: 0, l1_hits: 0, l2_hits: 0, misses: 0, promotions: 0 }),
    {
        RequestCounters { total_requests: 0, l1_hits: 0, l2_hits: 0, misses: 0, promotions: 0 }
    }

    /// Counts one request that ended with `outcome`.
    pub fn record(&mut self, outcome: RequestOutcome)
        requires
            old(self).wf(),
        ensures
            *final(self) == count_outcome(*old(self), outcome),
            final(self).wf(),
    {
        if self.total_requests == u64::MAX {
            return;
        }
        self.total_requests = self.total_requests + 1;
        match outcome {
            RequestOutcome::TopHit => {
                self.l1_hits = self.l1_hits + 1;
            },
            RequestOutcome::LowerHit => {
                self.l2_hits = self.l2_hits + 1;
            },
            RequestOutcome::Miss => {
                self.misses = self.misses + 1;
            },
        }
    }

    /// Counts one successful promotion write.
    pub fn record_promotion(&mut self)
        ensures
            *final(self) == (RequestCounters { promotions: bump(old(self).promotions), ..*old(self) }),
    {
        bump_counter(&mut self.promotions);
    }

    /// The counters as a snapshot, with the number of keys now in flight.
    pub fn snapshot(&self, in_flight_requests: usize) -> (r: CacheManagerStats)
        requires
            self.wf(),
        ensures
            r.total_requests == self.total_requests,
            r.l1_hits == self.l1_hits,
            r.l2_hits == self.l2_hits,
            r.total_hits == self.l1_hits + self.l2_hits,
            r.misses == self.misses,
            r.promotions == self.promotions,
            r.in_flight_requests == in_flight_requests,
    {
        CacheManagerStats {
            total_requests: self.total_requests,
            l1_hits: self.l1_hits,
            l2_hits: self.l2_hits,
            total_hits: self.l1_hits + self.l2_hits,
            misses: self.misses,
            promotions: self.promotions,
            in_flight_requests,
        }
    }
}

/// Whatever requests are counted, in whatever order, starting from fresh counters,
/// the total number of requests equals top hits plus lower hits plus misses.
pub proof fn lemma_requests_add_up(os: Seq<RequestOutcome>)
    ensures
        count_outcomes(
            RequestCounters { total_requests: 0, l1_hits: 0, l2_hits: 0, misses: 0, promotions: 0 },
            os,
        ).wf(),
{
    lemma_counting_keeps_totals(
        RequestCounters { total_requests: 0, l1_hits: 0, l2_hits: 0, misses: 0, promotions: 0 },
        os,
    );
}

/// Counting requests keeps the totals adding up.
pub proof fn lemma_counting_keeps_totals(c: RequestCounters, os: Seq<RequestOutcome>)
    requires
        c.wf(),
    ensures
        count_outcomes(c, os).wf(),
    decreases os.len(),
{
    if os.len() > 0 {
        lemma_counting_keeps_totals(count_outcome(c, os[0]), os.drop_first());
    }
}

} // verus!
