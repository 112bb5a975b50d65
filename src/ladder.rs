use vstd::prelude::*;

use crate::error::CacheError;
use crate::strategy::{Ttl, DEFAULT_TTL_MILLIS};
use crate::tier::{bump, scaled_millis, CacheTier, TierConfig, TierStats};

verus! {

/// Levels that ascend strictly from each position to every later one.
pub open spec fn levels_ascending(levels: Seq<usize>) -> bool {
    forall|i: int, j: int| 0 <= i < j < levels.len() ==> levels[i] < levels[j]
}

/// The levels of a sequence of tiers, in order.
pub open spec fn levels_of<B>(tiers: Seq<CacheTier<B>>) -> Seq<usize> {
    Seq::new(tiers.len(), |i: int| tiers[i].config.tier_level)
}

/// The indices `i - 1, i - 2, ..., 0`: the tiers above index `i`, nearest first.
pub open spec fn indices_above(i: nat) -> Seq<usize> {
    Seq::new(i, |j: int| (i - 1 - j) as usize)
}

/// The TTL that a promotion writes with: the one the hit tier reported, else the default.
pub open spec fn promotion_ttl_of(reported: Option<Ttl>) -> nat {
    match reported {
        Some(t) => t.millis as nat,
        None => DEFAULT_TTL_MILLIS as nat,
    }
}

/// What to do after a hit: write the value into `targets`, in that order, with base TTL `ttl`.
pub struct PromotionPlan {
    pub targets: Vec<usize>,
    pub ttl: Ttl,
}

/// `after` is `before` with one more hit counted at tier `index`, and nothing else changed.
pub open spec fn hit_recorded<B>(before: Seq<CacheTier<B>>, after: Seq<CacheTier<B>>, index: int) -> bool {
    &&& after.len() == before.len()
    &&& forall|j: int| 0 <= j < before.len() && j != index ==> after[j] == before[j]
    &&& after[index].config == before[index].config
    &&& after[index].backend == before[index].backend
    &&& after[index].stats.hits == bump(before[index].stats.hits)
    &&& after[index].stats.tier_level == before[index].stats.tier_level
    &&& after[index].stats.backend_name == before[index].stats.backend_name
}

/// `plan` is the promotion that a hit at tier `index` calls for: the reported TTL
/// (else the default), and every tier above, nearest first, when the hit is below
/// the top and its tier promotes; nothing otherwise.
pub open spec fn plan_for<B>(tiers: Seq<CacheTier<B>>, index: int, reported: Option<Ttl>, plan: PromotionPlan) -> bool {
    &&& plan.ttl.millis == promotion_ttl_of(reported)
    &&& plan.targets@ == (if index > 0 && tiers[index].config.promotion_enabled {
        indices_above(index as nat)
    } else {
        Seq::<usize>::empty()
    })
}

/// The next move of a walk down the ladder.
pub enum WalkStep {
    /// Look the key up in this tier.
    Probe(usize),
    /// The key was found in this tier; promote as planned and serve it.
    Hit(usize, PromotionPlan),
    /// No tier from the start of the walk down holds the key.
    Exhausted,
}

/// A non-empty sequence of tiers whose levels ascend strictly.
pub struct TierLadder<B> {
    tiers: Vec<CacheTier<B>>,
}

impl<B> TierLadder<B> {
    pub closed spec fn tiers(&self) -> Seq<CacheTier<B>> {
        self.tiers@
    }

    pub open spec fn levels(&self) -> Seq<usize> {
        levels_of(self.tiers())
    }

    pub open spec fn wf(&self) -> bool {
        self.tiers().len() > 0 && levels_ascending(self.levels())
    }

    /// Builds a ladder from tiers given in order, refusing an empty list and
    /// levels that do not ascend strictly.
    pub fn new(tiers: Vec<CacheTier<B>>) -> (r: Result<TierLadder<B>, CacheError>)
        ensures
            r is Ok <==> tiers@.len() > 0 && levels_ascending(levels_of(tiers@)),
            r matches Ok(l) ==> l.wf() && l.tiers() == tiers@,
            r == Err::<TierLadder<B>, CacheError>(CacheError::EmptyLadder) <==> tiers@.len() == 0,
            r matches Err(CacheError::TierOrder { found, after }) ==> exists|i: int|
                0 < i < tiers@.len() && #[trigger] levels_of(tiers@)[i] == found
                    && levels_of(tiers@)[i - 1] == after && found <= after,
            r matches Err(e) ==> e is EmptyLadder || e is TierOrder,
    {
        if tiers.len() == 0 {
            return Err(CacheError::EmptyLadder);
        }
        let ghost lv = levels_of(tiers@);
        let mut i: usize = 1;
        while i < tiers.len()
            invariant
                1 <= i <= tiers.len(),
                lv == levels_of(tiers@),
                forall|a: int, b: int| 0 <= a < b < i ==> lv[a] < lv[b],
            decreases tiers.len() - i,
        {
            let found = tiers[i].config.tier_level;
            let after = tiers[i - 1].config.tier_level;
            if found <= after {
                proof {
                    assert(lv[i as int] == found && lv[i - 1] == after);
                }
                return Err(CacheError::TierOrder { found, after });
            }
            proof {
                assert(lv[i as int] == found && lv[i - 1] == after);
                assert forall|a: int, b: int| 0 <= a < b < i + 1 implies lv[a] < lv[b] by {
                    if b == i as int && a < i - 1 {
                        assert(lv[a] < lv[i - 1]);
                    }
                }
            }
            i = i + 1;
        }
        Ok(TierLadder { tiers })
    }

    /// Number of tiers.
    pub fn len(&self) -> (r: usize)
        ensures
            r == self.tiers().len(),
    {
        self.tiers.len()
    }

    /// The tier at `index` (0 is the hottest).
    pub fn tier(&self, index: usize) -> (r: &CacheTier<B>)
        requires
            index < self.tiers().len(),
        ensures
            *r == self.tiers()[index as int],
    {
        &self.tiers[index]
    }

    /// The base TTLs turned into the TTL that each tier stores, tier by tier.
    pub fn write_ttls(&self, base: Ttl) -> (r: Vec<Ttl>)
        ensures
            r@.len() == self.tiers().len(),
            forall|i: int|
                0 <= i < r@.len() ==> r@[i].millis == scaled_millis(
                    base.millis as nat,
                    self.tiers()[i].config.ttl_scale as nat,
                ),
    {
        let mut out: Vec<Ttl> = Vec::new();
        let mut i: usize = 0;
        while i < self.tiers.len()
            invariant
                i <= self.tiers@.len(),
                out@.len() == i,
                forall|j: int|
                    0 <= j < i ==> out@[j].millis == scaled_millis(
                        base.millis as nat,
                        self.tiers@[j].config.ttl_scale as nat,
                    ),
            decreases self.tiers@.len() - i,
        {
            out.push(self.tiers[i].write_ttl(base));
            i = i + 1;
        }
        out
    }

    /// Records a hit at tier `index` and says which tiers to promote the value into.
    ///
    /// Promotion happens only for a hit below the top tier whose tier has
    /// promotion on; it then targets every tier above, nearest first.
    pub fn on_hit(&mut self, index: usize, reported: Option<Ttl>) -> (r: PromotionPlan)
        requires
            old(self).wf(),
            index < old(self).tiers().len(),
        ensures
            final(self).wf(),
            hit_recorded(old(self).tiers(), final(self).tiers(), index as int),
            plan_for(old(self).tiers(), index as int, reported, r),
    {
        let mut tier = self.tiers.remove(index);
        tier.record_hit();
        let promote = index > 0 && tier.config.promotion_enabled;
        self.tiers.insert(index, tier);
        proof {
            assert(levels_of(self.tiers@) =~= levels_of(old(self).tiers@));
        }
        let ttl = match reported {
            Some(t) => t,
            None => Ttl::from_millis(DEFAULT_TTL_MILLIS),
        };
        let mut targets: Vec<usize> = Vec::new();
        if promote {
            let mut j: usize = index;
            while j > 0
                invariant
                    j <= index,
                    targets@ =~= indices_above(index as nat).take((index - j) as int),
                decreases j,
            {
                j = j - 1;
                targets.push(j);
                proof {
                    assert(targets@ =~= indices_above(index as nat).take((index - j) as int));
                }
            }
            proof {
                assert(targets@ =~= indices_above(index as nat));
            }
        }
        PromotionPlan { targets, ttl }
    }

    /// The first move of a walk that starts at tier `from`.
    pub fn walk_from(&self, from: usize) -> (r: WalkStep)
        ensures
            from < self.tiers().len() ==> r == WalkStep::Probe(from),
            from >= self.tiers().len() ==> r is Exhausted,
    {
        if from < self.tiers.len() {
            WalkStep::Probe(from)
        } else {
            WalkStep::Exhausted
        }
    }

    /// The move after probing tier `index`. `found` is `None` on a miss there,
    /// else the remaining TTL the tier reported (`Some(None)`: none). A hit ends
    /// the walk, is counted at that tier and comes with its promotion plan; a
    /// miss moves on to the next tier, or ends the walk after the last one.
    pub fn after_probe(&mut self, index: usize, found: Option<Option<Ttl>>) -> (r: WalkStep)
        requires
            old(self).wf(),
            index < old(self).tiers().len(),
        ensures
            final(self).wf(),
            match found {
                Some(reported) => r matches WalkStep::Hit(i, plan) && i == index
                    && hit_recorded(old(self).tiers(), final(self).tiers(), index as int)
                    && plan_for(old(self).tiers(), index as int, reported, plan),
                None => final(self).tiers() == old(self).tiers() && (if index + 1 < old(self).tiers().len() {
                    r == WalkStep::Probe((index + 1) as usize)
                } else {
                    r is Exhausted
                }),
            },
    {
        match found {
            Some(reported) => {
                let plan = self.on_hit(index, reported);
                WalkStep::Hit(index, plan)
            },
            None => {
                if index < self.tiers.len() - 1 {
                    WalkStep::Probe(index + 1)
                } else {
                    WalkStep::Exhausted
                }
            },
        }
    }

    /// A copy of every tier's statistics, top tier first.
    pub fn tier_stats(&self) -> (r: Vec<TierStats>)
        ensures
            r@.len() == self.tiers().len(),
            forall|i: int| 0 <= i < r@.len() ==> r@[i] == self.tiers()[i].stats,
    {
        let mut out: Vec<TierStats> = Vec::new();
        let mut i: usize = 0;
        while i < self.tiers.len()
            invariant
                i <= self.tiers@.len(),
                out@.len() == i,
                forall|j: int| 0 <= j < i ==> out@[j] == self.tiers@[j].stats,
            decreases self.tiers@.len() - i,
        {
            out.push(self.tiers[i].stats.clone());
            i = i + 1;
        }
        out
    }

    /// The configuration of every tier, top tier first.
    pub fn configs(&self) -> (r: Vec<TierConfig>)
        ensures
            r@.len() == self.tiers().len(),
            forall|i: int| 0 <= i < r@.len() ==> r@[i] == self.tiers()[i].config,
    {
        let mut out: Vec<TierConfig> = Vec::new();
        let mut i: usize = 0;
        while i < self.tiers.len()
            invariant
                i <= self.tiers@.len(),
                out@.len() == i,
                forall|j: int| 0 <= j < i ==> out@[j] == self.tiers@[j].config,
            decreases self.tiers@.len() - i,
        {
            out.push(self.tiers[i].config);
            i = i + 1;
        }
        out
    }
}

/// Whether a write to the tiers succeeds when at least one tier took it.
/// `Ok` carries how many did; `Err` names the tier whose error is reported,
/// the last one, when every tier failed.
pub fn write_outcome(succeeded: &Vec<bool>) -> (r: Result<usize, usize>)
    requires
        succeeded@.len() > 0,
    ensures
        r is Ok <==> exists|i: int| 0 <= i < succeeded@.len() && succeeded@[i],
        r matches Ok(n) ==> n == succeeded@.filter(|b: bool| b).len(),
        r matches Err(i) ==> i == succeeded@.len() - 1,
{
    let mut n: usize = 0;
    let mut i: usize = 0;
    while i < succeeded.len()
        invariant
            i <= succeeded@.len(),
            n == succeeded@.take(i as int).filter(|b: bool| b).len(),
            n <= i,
            n == 0 <==> forall|j: int| 0 <= j < i ==> !succeeded@[j],
        decreases succeeded@.len() - i,
    {
        proof {
            let t = succeeded@.take(i as int + 1);
            assert(t.drop_last() =~= succeeded@.take(i as int));
            reveal(Seq::filter);
        }
        if succeeded[i] {
            n = n + 1;
        }
        i = i + 1;
    }
    proof {
        assert(succeeded@.take(i as int) =~= succeeded@);
    }
    if n > 0 {
        Ok(n)
    } else {
        Err(succeeded.len() - 1)
    }
}

// A tier's contents are modelled as a map from key to its bytes and its TTL in
// milliseconds; an entry is visible while less time than its TTL has elapsed.

/// Whether `k` is in `st` and still alive `elapsed` milliseconds after it was written.
pub open spec fn visible(st: Map<Seq<char>, (Seq<u8>, nat)>, k: Seq<char>, elapsed: nat) -> bool {
    st.contains_key(k) && elapsed < st[k].1
}

/// What a lookup of `k`, `elapsed` milliseconds after the writes, finds from tier `from` down.
pub open spec fn first_visible(
    stores: Seq<Map<Seq<char>, (Seq<u8>, nat)>>,
    k: Seq<char>,
    elapsed: nat,
    from: int,
) -> Option<Seq<u8>>
    decreases stores.len() - from,
{
    if from < 0 || from >= stores.len() {
        None
    } else if visible(stores[from], k, elapsed) {
        Some(stores[from][k].0)
    } else {
        first_visible(stores, k, elapsed, from + 1)
    }
}

/// The TTL scale of each tier.
pub open spec fn scales_of<B>(tiers: Seq<CacheTier<B>>) -> Seq<u64> {
    Seq::new(tiers.len(), |i: int| tiers[i].config.ttl_scale)
}

/// The tiers after `k = v` is written to each of them with base TTL `base`, scaled per tier.
pub open spec fn written_to_all(
    stores: Seq<Map<Seq<char>, (Seq<u8>, nat)>>,
    scales: Seq<u64>,
    k: Seq<char>,
    v: Seq<u8>,
    base: nat,
) -> Seq<Map<Seq<char>, (Seq<u8>, nat)>> {
    Seq::new(stores.len(), |i: int| stores[i].insert(k, (v, scaled_millis(base, scales[i] as nat))))
}

/// The tiers after `k = v` is promoted into each tier of `targets` with base TTL `ttl`.
pub open spec fn promoted(
    stores: Seq<Map<Seq<char>, (Seq<u8>, nat)>>,
    scales: Seq<u64>,
    targets: Seq<usize>,
    k: Seq<char>,
    v: Seq<u8>,
    ttl: nat,
) -> Seq<Map<Seq<char>, (Seq<u8>, nat)>> {
    Seq::new(
        stores.len(),
        |i: int|
            if targets.contains(i as usize) {
                stores[i].insert(k, (v, scaled_millis(ttl, scales[i] as nat)))
            } else {
                stores[i]
            },
    )
}

proof fn lemma_first_visible_finds(
    stores: Seq<Map<Seq<char>, (Seq<u8>, nat)>>,
    k: Seq<char>,
    elapsed: nat,
    from: int,
    i: int,
    v: Seq<u8>,
)
    requires
        0 <= from <= i < stores.len(),
        visible(stores[i], k, elapsed),
        forall|t: int| from <= t <= i && #[trigger] stores[t].contains_key(k) ==> stores[t][k].0 == v,
    ensures
        first_visible(stores, k, elapsed, from) == Some(v),
    decreases i - from,
{
    if !visible(stores[from], k, elapsed) {
        lemma_first_visible_finds(stores, k, elapsed, from + 1, i, v);
    }
}

proof fn lemma_scale_keeps_base(base: nat, scale: nat)
    requires
        scale >= 1000,
        base <= u64::MAX,
    ensures
        scaled_millis(base, scale) >= base,
{
    assert(base * scale >= base * 1000) by (nonlinear_arith)
        requires
            scale >= 1000,
    ;
    assert(base * scale / 1000 >= base) by (nonlinear_arith)
        requires
            base * scale >= base * 1000,
    ;
}

/// A value written to every tier with base TTL `base` is what a lookup finds at
/// any time before `base` has elapsed, provided some tier keeps at least the base
/// TTL (a scale of at least 1.0); where every tier shortens the TTL, the value may
/// be gone from all of them before `base` ends.
pub proof fn lemma_round_trip<B>(
    ladder: TierLadder<B>,
    stores: Seq<Map<Seq<char>, (Seq<u8>, nat)>>,
    k: Seq<char>,
    v: Seq<u8>,
    base: Ttl,
    elapsed: nat,
)
    requires
        ladder.wf(),
        stores.len() == ladder.tiers().len(),
        elapsed < base.millis,
        exists|i: int| 0 <= i < ladder.tiers().len() && ladder.tiers()[i].config.ttl_scale >= 1000,
    ensures
        first_visible(written_to_all(stores, scales_of(ladder.tiers()), k, v, base.millis as nat), k, elapsed, 0)
            == Some(v),
{
    let i = choose|i: int| 0 <= i < ladder.tiers().len() && ladder.tiers()[i].config.ttl_scale >= 1000;
    let w = written_to_all(stores, scales_of(ladder.tiers()), k, v, base.millis as nat);
    lemma_scale_keeps_base(base.millis as nat, ladder.tiers()[i].config.ttl_scale as nat);
    assert(w[i].contains_key(k) && w[i][k].1 >= base.millis);
    lemma_first_visible_finds(w, k, elapsed, 0, i, v);
}

/// After a hit at tier `hit` whose tier promotes, every tier `j` above it holds
/// the value with the promotion TTL scaled for `j`, and a lookup finds the value
/// for as long as that TTL of any such tier `j` lasts.
pub proof fn lemma_promotion_reaches_upper_tiers<B>(
    ladder: TierLadder<B>,
    stores: Seq<Map<Seq<char>, (Seq<u8>, nat)>>,
    hit: int,
    k: Seq<char>,
    v: Seq<u8>,
    reported: Option<Ttl>,
    j: int,
    elapsed: nat,
)
    requires
        ladder.wf(),
        stores.len() == ladder.tiers().len(),
        0 <= j < hit < ladder.tiers().len(),
        ladder.tiers()[hit].config.promotion_enabled,
        elapsed < scaled_millis(promotion_ttl_of(reported), ladder.tiers()[j].config.ttl_scale as nat),
    ensures
        ({
            let after = promoted(
                stores,
                scales_of(ladder.tiers()),
                indices_above(hit as nat),
                k,
                v,
                promotion_ttl_of(reported),
            );
            &&& after[j][k] == (v, scaled_millis(promotion_ttl_of(reported), ladder.tiers()[j].config.ttl_scale as nat))
            &&& first_visible(after, k, elapsed, 0) == Some(v)
        }),
{
    let targets = indices_above(hit as nat);
    let after = promoted(stores, scales_of(ladder.tiers()), targets, k, v, promotion_ttl_of(reported));
    assert forall|t: int| 0 <= t < hit implies #[trigger] targets.contains(t as usize) by {
        assert(targets[hit - 1 - t] == t as usize);
    }
    assert(targets.contains(j as usize));
    assert forall|t: int| 0 <= t <= j && #[trigger] after[t].contains_key(k) implies after[t][k].0 == v by {
        assert(targets.contains(t as usize));
    }
    lemma_first_visible_finds(after, k, elapsed, 0, j, v);
}

} // verus!
