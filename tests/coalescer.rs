use multi_tier_cache::{miss_step, InFlightTable, MissStep, RequestOutcome};

#[test]
fn last_holder_removes_entry() {
    let mut t = InFlightTable::new();
    let k = "stampede".to_string();
    for n in 1..=100usize {
        assert_eq!(t.acquire(&k), n);
    }
    assert_eq!(t.holders(&k), 100);
    assert_eq!(t.len(), 1);
    for _ in 0..99 {
        assert!(!t.release(&k));
    }
    assert!(t.contains(&k));
    assert!(t.release(&k));
    assert!(!t.contains(&k));
    assert_eq!(t.len(), 0);
    assert!(!t.release(&k));
}

#[test]
fn keys_are_counted_apart() {
    let mut t = InFlightTable::new();
    let a = "a".to_string();
    let b = "b".to_string();
    t.acquire(&a);
    t.acquire(&b);
    t.acquire(&a);
    assert_eq!(t.holders(&a), 2);
    assert_eq!(t.holders(&b), 1);
    assert!(t.release(&b));
    assert_eq!(t.len(), 1);
    assert_eq!(t.holders(&b), 0);
    assert!(!t.release(&a));
    assert!(t.release(&a));
    assert_eq!(t.len(), 0);
}

#[test]
fn miss_path_steps() {
    assert_eq!(miss_step(true, false, true), MissStep::ServeTop);
    assert_eq!(miss_step(false, true, true), MissStep::ServeFound);
    assert_eq!(miss_step(false, false, true), MissStep::Compute);
    assert_eq!(miss_step(false, false, false), MissStep::ReportMiss);
}

#[test]
fn serialized_callers_compute_once() {
    // callers served one at a time under the key's lock
    let mut present = false;
    let mut computes = 0;
    for _ in 0..100 {
        if miss_step(present, false, true) == MissStep::Compute {
            computes += 1;
            present = true;
        }
    }
    assert_eq!(computes, 1);
}

#[test]
fn miss_steps_count_as_outcomes() {
    assert_eq!(MissStep::ServeTop.outcome(), RequestOutcome::TopHit);
    assert_eq!(MissStep::ServeFound.outcome(), RequestOutcome::LowerHit);
    assert_eq!(MissStep::Compute.outcome(), RequestOutcome::Miss);
    assert_eq!(MissStep::ReportMiss.outcome(), RequestOutcome::Miss);
}
