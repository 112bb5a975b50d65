use vstd::prelude::*;

use dashmap::DashMap;

use crate::stats::RequestOutcome;

verus! {

/// One key that has callers on its miss path, with how many.
struct InFlightEntry {
    key: String,
    holders: usize,
}

/// The map after one more caller of `k` enters the miss path.
pub open spec fn acquired(m: Map<Seq<char>, nat>, k: Seq<char>) -> Map<Seq<char>, nat> {
    if m.contains_key(k) {
        m.insert(k, m[k] + 1)
    } else {
        m.insert(k, 1)
    }
}

/// The map after one caller of `k` leaves; the last one takes the entry with it.
pub open spec fn released(m: Map<Seq<char>, nat>, k: Seq<char>) -> Map<Seq<char>, nat> {
    if !m.contains_key(k) {
        m
    } else if m[k] <= 1 {
        m.remove(k)
    } else {
        m.insert(k, (m[k] - 1) as nat)
    }
}

/// The map after the callers of `k` enter (`true`) and leave (`false`) in the order of `ops`.
pub open spec fn run_holders(m: Map<Seq<char>, nat>, k: Seq<char>, ops: Seq<bool>) -> Map<Seq<char>, nat>
    decreases ops.len(),
{
    if ops.len() == 0 {
        m
    } else {
        let next = if ops[0] { acquired(m, k) } else { released(m, k) };
        run_holders(next, k, ops.drop_first())
    }
}

/// Entries minus exits over `ops`.
pub open spec fn balance(ops: Seq<bool>) -> int
    decreases ops.len(),
{
    if ops.len() == 0 {
        0
    } else {
        (if ops[0] { 1int } else { -1int }) + balance(ops.drop_first())
    }
}

/// Starting from `c` holders, no caller leaves who did not enter.
pub open spec fn never_below_zero(c: int, ops: Seq<bool>) -> bool
    decreases ops.len(),
{
    if ops.len() == 0 {
        true
    } else {
        let c2 = if ops[0] { c + 1 } else { c - 1 };
        c2 >= 0 && never_below_zero(c2, ops.drop_first())
    }
}

/// `m` with `c` holders of `k`: no entry for `k` when `c` is zero.
pub open spec fn with_holders(m: Map<Seq<char>, nat>, k: Seq<char>, c: nat) -> Map<Seq<char>, nat> {
    if c == 0 {
        m.remove(k)
    } else {
        m.insert(k, c)
    }
}

proof fn lemma_run_counts(m: Map<Seq<char>, nat>, k: Seq<char>, c: nat, ops: Seq<bool>)
    requires
        never_below_zero(c as int, ops),
    ensures
        c + balance(ops) >= 0,
        run_holders(with_holders(m, k, c), k, ops) == with_holders(m, k, (c + balance(ops)) as nat),
    decreases ops.len(),
{
    if ops.len() > 0 {
        let c2: nat = if ops[0] { c + 1 } else { (c - 1) as nat };
        let start = with_holders(m, k, c);
        let next = if ops[0] { acquired(start, k) } else { released(start, k) };
        assert(next =~= with_holders(m, k, c2));
        lemma_run_counts(m, k, c2, ops.drop_first());
    }
}

/// When every caller that entered the miss path for `k` has left, in any order
/// in which no caller leaves before entering, the table holds no entry for `k`
/// and every other key's entry is as it was.
pub proof fn lemma_cleanup_after_all_leave(m: Map<Seq<char>, nat>, k: Seq<char>, ops: Seq<bool>)
    requires
        !m.contains_key(k),
        never_below_zero(0, ops),
        balance(ops) == 0,
    ensures
        !run_holders(m, k, ops).contains_key(k),
        run_holders(m, k, ops) == m,
{
    assert(with_holders(m, k, 0) =~= m);
    lemma_run_counts(m, k, 0, ops);
}

#[verifier::external_type_specification]
#[verifier::external_body]
#[verifier::reject_recursive_types(K)]
#[verifier::reject_recursive_types(V)]
#[verifier::reject_recursive_types(S)]
pub struct ExDashMap<K, V, S>(DashMap<K, V, S>);

/// A map from key to how many callers hold it.
pub type HolderCounts = DashMap<String, usize>;

/// What a map of holder counts holds: each key's count.
pub uninterp spec fn dashmap_counts(m: HolderCounts) -> Map<Seq<char>, usize>;

/// Relies on `dashmap::DashMap::new`: a new map holds nothing.
#[verifier::external_body]
fn counts_new() -> (r: HolderCounts)
    ensures
        dashmap_counts(r).dom() == Set::<Seq<char>>::empty(),
{
    DashMap::new()
}

/// Relies on `dashmap::DashMap::get`: the value stored under `key`, if any.
#[verifier::external_body]
fn counts_get(m: &HolderCounts, key: &String) -> (r: Option<usize>)
    ensures
        r == (if dashmap_counts(*m).contains_key(key@) {
            Some(dashmap_counts(*m)[key@])
        } else {
            None::<usize>
        }),
{
    m.get(key).map(|e| *e.value())
}

/// Relies on `dashmap::DashMap::insert`: `key` now maps to `value`, other keys as before.
#[verifier::external_body]
fn counts_insert(m: &mut HolderCounts, key: String, value: usize)
    ensures
        dashmap_counts(*final(m)) == dashmap_counts(*old(m)).insert(key@, value),
{
    m.insert(key, value);
}

/// Relies on `dashmap::DashMap::remove`: `key` is gone, other keys as before.
#[verifier::external_body]
fn counts_remove(m: &mut HolderCounts, key: &String)
    ensures
        dashmap_counts(*final(m)) == dashmap_counts(*old(m)).remove(key@),
{
    m.remove(key);
}

/// Relies on `dashmap::DashMap::len`: the number of keys held.
#[verifier::external_body]
fn counts_len(m: &HolderCounts) -> (r: usize)
    ensures
        r as nat == dashmap_counts(*m).dom().len(),
{
    m.len()
}

/// Per-key count of the callers that are on a key's miss path.
///
/// An entry exists exactly while at least one caller holds it: the first
/// caller creates it and the last one to leave removes it.
pub struct InFlightTable {
    counts: HolderCounts,
}

impl InFlightTable {
    pub closed spec fn view(&self) -> Map<Seq<char>, nat> {
        dashmap_counts(self.counts).map_values(|v: usize| v as nat)
    }

    pub closed spec fn wf(&self) -> bool {
        &&& dashmap_counts(self.counts).dom().finite()
        &&& forall|k: Seq<char>| #[trigger] dashmap_counts(self.counts).contains_key(k) ==> dashmap_counts(self.counts)[k] > 0
    }

    pub fn new() -> (r: InFlightTable)
        ensures
            r.wf(),
            r.view() == Map::<Seq<char>, nat>::empty(),
    {
        let r = InFlightTable { counts: counts_new() };
        proof {
            assert(r.view() =~= Map::<Seq<char>, nat>::empty());
        }
        r
    }

    /// How many callers hold `key`.
    pub fn holders(&self, key: &String) -> (r: usize)
        requires
            self.wf(),
        ensures
            r == (if self.view().contains_key(key@) { self.view()[key@] } else { 0 }),
    {
        match counts_get(&self.counts, key) {
            Some(n) => n,
            None => 0,
        }
    }

    /// Whether any caller holds `key`.
    pub fn contains(&self, key: &String) -> (r: bool)
        requires
            self.wf(),
        ensures
            r == self.view().contains_key(key@),
    {
        counts_get(&self.counts, key).is_some()
    }

    /// Number of keys in flight.
    pub fn len(&self) -> (r: usize)
        requires
            self.wf(),
        ensures
            r as nat == self.view().dom().len(),
            r == 0 <==> self.view() == Map::<Seq<char>, nat>::empty(),
    {
        let r = counts_len(&self.counts);
        proof {
            let c = dashmap_counts(self.counts);
            assert(self.view().dom() =~= c.dom());
            if r == 0 {
                c.dom().lemma_len0_is_empty();
                assert(self.view() =~= Map::<Seq<char>, nat>::empty());
            } else {
                assert(self.view().dom() != Set::<Seq<char>>::empty());
            }
        }
        r
    }

    /// One more caller of `key` enters the miss path; returns how many now hold it.
    pub fn acquire(&mut self, key: &String) -> (r: usize)
        requires
            old(self).wf(),
            old(self).view().contains_key(key@) ==> old(self).view()[key@] < usize::MAX,
        ensures
            final(self).wf(),
            final(self).view() == acquired(old(self).view(), key@),
            r == final(self).view()[key@],
    {
        let n = match counts_get(&self.counts, key) {
            Some(h) => h + 1,
            None => 1,
        };
        counts_insert(&mut self.counts, key.clone(), n);
        proof {
            assert(self.view() =~= acquired(old(self).view(), key@));
        }
        n
    }

    /// One caller of `key` leaves the miss path; returns whether it was the last,
    /// in which case the entry is gone.
    pub fn release(&mut self, key: &String) -> (last: bool)
        requires
            old(self).wf(),
        ensures
            final(self).wf(),
            final(self).view() == released(old(self).view(), key@),
            last == (old(self).view().contains_key(key@) && old(self).view()[key@] <= 1),
    {
        match counts_get(&self.counts, key) {
            Some(h) => {
                if h <= 1 {
                    counts_remove(&mut self.counts, key);
                    proof {
                        assert(self.view() =~= released(old(self).view(), key@));
                    }
                    true
                } else {
                    counts_insert(&mut self.counts, key.clone(), h - 1);
                    proof {
                        assert(self.view() =~= released(old(self).view(), key@));
                    }
                    false
                }
            },
            None => {
                proof {
                    assert(self.view() =~= released(old(self).view(), key@));
                }
                false
            },
        }
    }
}

/// What a caller on a key's miss path does once it holds the key's lock.
#[derive(Clone, Copy, Debug, PartialEq, Eq, Structural)]
pub enum MissStep {
    /// Another caller filled the top tier meanwhile: serve that.
    ServeTop,
    /// A lower tier held the value: serve it (it has been promoted).
    ServeFound,
    /// No tier holds the value: compute it, write it to every tier, serve it.
    Compute,
    /// No tier holds the value and there is nothing to compute it with.
    ReportMiss,
}

pub open spec fn miss_step_spec(top_hit: bool, found_below: bool, can_compute: bool) -> MissStep {
    if top_hit {
        MissStep::ServeTop
    } else if found_below {
        MissStep::ServeFound
    } else if can_compute {
        MissStep::Compute
    } else {
        MissStep::ReportMiss
    }
}

impl MissStep {
    /// How a request that took this step is counted: serving the top tier is a
    /// top hit, serving a lower tier a lower hit, and computing or missing a miss.
    pub fn outcome(self) -> (r: RequestOutcome)
        ensures
            r == (match self {
                MissStep::ServeTop => RequestOutcome::TopHit,
                MissStep::ServeFound => RequestOutcome::LowerHit,
                _ => RequestOutcome::Miss,
            }),
    {
        match self {
            MissStep::ServeTop => RequestOutcome::TopHit,
            MissStep::ServeFound => RequestOutcome::LowerHit,
            _ => RequestOutcome::Miss,
        }
    }
}

/// Decides the miss path from the second look at the top tier (`top_hit`),
/// the look down the ladder (`found_below`, not taken when the top tier hit)
/// and whether the caller can compute the value.
pub fn miss_step(top_hit: bool, found_below: bool, can_compute: bool) -> (r: MissStep)
    ensures
        r == miss_step_spec(top_hit, found_below, can_compute),
{
    if top_hit {
        MissStep::ServeTop
    } else if found_below {
        MissStep::ServeFound
    } else if can_compute {
        MissStep::Compute
    } else {
        MissStep::ReportMiss
    }
}

/// How many of `n` callers, served one at a time under the key's lock, compute
/// the value, when the value is in no lower tier, `present` says whether the top
/// tier holds it, and a computed value is written to the top tier before the
/// lock passes on.
pub open spec fn computes_in_window(present: bool, n: nat) -> nat
    decreases n,
{
    if n == 0 {
        0
    } else if miss_step_spec(present, false, true) == MissStep::Compute {
        1 + computes_in_window(true, (n - 1) as nat)
    } else {
        computes_in_window(present, (n - 1) as nat)
    }
}

proof fn lemma_no_compute_once_present(n: nat)
    ensures
        computes_in_window(true, n) == 0,
    decreases n,
{
    if n > 0 {
        lemma_no_compute_once_present((n - 1) as nat);
    }
}

/// Of any number of callers that missed the same key in one window, and are
/// served one at a time under the key's lock, exactly one computes the value:
/// the rest find it in the top tier, where the first one wrote it.
pub proof fn lemma_one_compute_per_miss_window(n: nat)
    requires
        n >= 1,
    ensures
        computes_in_window(false, n) == 1,
{
    lemma_no_compute_once_present((n - 1) as nat);
}

} // verus!
