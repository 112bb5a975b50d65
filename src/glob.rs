use vstd::prelude::*;

use crate::invalidation::{apply_ops, key_set, lemma_removals_remove_keys, removals};

verus! {

/// The characters of `s`, in order.
pub fn chars_of(s: &str) -> (r: Vec<char>)
    ensures
        r@ == s@,
{
    broadcast use vstd::string::axiom_spec_iter;
    let mut v: Vec<char> = Vec::new();
    for c in it: s.chars()
        invariant
            it.seq() == s@,
            v@ == s@.take(it.index() as int),
    {
        v.push(c);
        proof {
            assert(v@ =~= s@.take(it.index() as int + 1));
        }
    }
    proof {
        assert(v@ =~= s@);
    }
    v
}

/// The first index at or after `j` that holds `]`, or -1 where none does.
pub open spec fn find_close(p: Seq<char>, j: int) -> int
    decreases p.len() - j,
{
    if j < 0 || j >= p.len() {
        -1
    } else if p[j] == ']' {
        j
    } else {
        find_close(p, j + 1)
    }
}

/// Whether `c` lies between `a` and `z`, in either order.
pub open spec fn in_range(a: char, z: char, c: char) -> bool {
    if a <= z {
        a <= c && c <= z
    } else {
        z <= c && c <= a
    }
}

/// Whether the items of a bracket class (single characters and `a-z` ranges) take `c`.
pub open spec fn class_items(b: Seq<char>, c: char) -> bool
    decreases b.len(),
{
    if b.len() == 0 {
        false
    } else if b.len() >= 3 && b[1] == '-' {
        in_range(b[0], b[2], c) || class_items(b.subrange(3, b.len() as int), c)
    } else {
        b[0] == c || class_items(b.drop_first(), c)
    }
}

/// Whether the body of a bracket class takes `c`; a leading `^` negates it.
pub open spec fn class_has(body: Seq<char>, c: char) -> bool {
    if body.len() > 0 && body[0] == '^' {
        !class_items(body.drop_first(), c)
    } else {
        class_items(body, c)
    }
}

/// Glob matching: `*` takes any run of characters, `?` any one character,
/// `[...]` one character of a class, `\x` the character `x`; any other
/// character takes itself. A `[` with no `]` after it is an ordinary character.
pub open spec fn glob_matches(p: Seq<char>, k: Seq<char>) -> bool
    decreases p.len() + k.len(),
{
    if p.len() == 0 {
        k.len() == 0
    } else if p[0] == '*' {
        glob_matches(p.drop_first(), k) || (k.len() > 0 && glob_matches(p, k.drop_first()))
    } else if k.len() == 0 {
        false
    } else if p[0] == '?' {
        glob_matches(p.drop_first(), k.drop_first())
    } else if p[0] == '\\' && p.len() >= 2 {
        k[0] == p[1] && glob_matches(p.subrange(2, p.len() as int), k.drop_first())
    } else if p[0] == '[' && 0 < find_close(p, 1) < p.len() {
        class_has(p.subrange(1, find_close(p, 1)), k[0]) && glob_matches(
            p.subrange(find_close(p, 1) + 1, p.len() as int),
            k.drop_first(),
        )
    } else {
        p[0] == k[0] && glob_matches(p.drop_first(), k.drop_first())
    }
}

/// The index of the `]` that closes a class opened at `open`, as `find_close` finds it.
fn close_of(p: &Vec<char>, open: usize) -> (r: usize)
    requires
        open < p@.len(),
    ensures
        find_close(p@.subrange(open as int, p@.len() as int), 1) == -1 ==> r == 0,
        find_close(p@.subrange(open as int, p@.len() as int), 1) != -1 ==> r as int == find_close(
            p@.subrange(open as int, p@.len() as int),
            1,
        ) && 0 < r < p@.len() - open,
{
    let ghost s = p@.subrange(open as int, p@.len() as int);
    let n = p.len();
    let mut j: usize = open + 1;
    while j < p.len()
        invariant
            open < j <= p@.len(),
            s == p@.subrange(open as int, p@.len() as int),
            find_close(s, 1) == find_close(s, j - open),
        decreases p@.len() - j,
    {
        if p[j] == ']' {
            return j - open;
        }
        j = j + 1;
    }
    0
}

fn class_items_in(p: &Vec<char>, lo: usize, hi: usize, c: char) -> (r: bool)
    requires
        lo <= hi <= p@.len(),
    ensures
        r == class_items(p@.subrange(lo as int, hi as int), c),
{
    let ghost b = p@.subrange(lo as int, hi as int);
    let mut t: usize = lo;
    while t < hi
        invariant
            lo <= t <= hi,
            hi <= p@.len(),
            b == p@.subrange(lo as int, hi as int),
            class_items(b, c) == class_items(p@.subrange(t as int, hi as int), c),
        decreases hi - t,
    {
        let ghost rest = p@.subrange(t as int, hi as int);
        if hi - t >= 3 && p[t + 1] == '-' {
            let a = p[t];
            let z = p[t + 2];
            let hit = if a <= z { a <= c && c <= z } else { z <= c && c <= a };
            proof {
                assert(rest.subrange(3, rest.len() as int) =~= p@.subrange(t + 3, hi as int));
            }
            if hit {
                return true;
            }
            t = t + 3;
        } else {
            proof {
                assert(rest.drop_first() =~= p@.subrange(t + 1, hi as int));
            }
            if p[t] == c {
                return true;
            }
            t = t + 1;
        }
    }
    false
}

fn class_has_in(p: &Vec<char>, lo: usize, hi: usize, c: char) -> (r: bool)
    requires
        lo <= hi <= p@.len(),
    ensures
        r == class_has(p@.subrange(lo as int, hi as int), c),
{
    if lo < hi && p[lo] == '^' {
        proof {
            assert(p@.subrange(lo as int, hi as int).drop_first() =~= p@.subrange(lo + 1, hi as int));
        }
        !class_items_in(p, lo + 1, hi, c)
    } else {
        class_items_in(p, lo, hi, c)
    }
}

fn match_from(p: &Vec<char>, pi: usize, k: &Vec<char>, ki: usize) -> (r: bool)
    requires
        pi <= p@.len(),
        ki <= k@.len(),
    ensures
        r == glob_matches(p@.subrange(pi as int, p@.len() as int), k@.subrange(ki as int, k@.len() as int)),
    decreases p@.len() - pi + k@.len() - ki,
{
    let ghost ps = p@.subrange(pi as int, p@.len() as int);
    let ghost ks = k@.subrange(ki as int, k@.len() as int);
    if pi == p.len() {
        return ki == k.len();
    }
    proof {
        assert(ps.drop_first() =~= p@.subrange(pi + 1, p@.len() as int));
        if ki < k@.len() {
            assert(ks.drop_first() =~= k@.subrange(ki + 1, k@.len() as int));
        }
    }
    if p[pi] == '*' {
        if match_from(p, pi + 1, k, ki) {
            return true;
        }
        return ki < k.len() && match_from(p, pi, k, ki + 1);
    }
    if ki == k.len() {
        return false;
    }
    if p[pi] == '?' {
        return match_from(p, pi + 1, k, ki + 1);
    }
    if p[pi] == '\\' && pi + 1 < p.len() {
        proof {
            assert(ps.subrange(2, ps.len() as int) =~= p@.subrange(pi + 2, p@.len() as int));
        }
        return k[ki] == p[pi + 1] && match_from(p, pi + 2, k, ki + 1);
    }
    if p[pi] == '[' {
        let e = close_of(p, pi);
        if e > 0 {
            proof {
                assert(ps.subrange(1, e as int) =~= p@.subrange(pi + 1, pi + e));
                assert(ps.subrange(e + 1, ps.len() as int) =~= p@.subrange(pi + e + 1, p@.len() as int));
            }
            return class_has_in(p, pi + 1, pi + e, k[ki]) && match_from(p, pi + e + 1, k, ki + 1);
        }
    }
    p[pi] == k[ki] && match_from(p, pi + 1, k, ki + 1)
}

/// Whether `key` matches the glob `pattern`.
pub fn glob_match(pattern: &str, key: &str) -> (r: bool)
    ensures
        r == glob_matches(pattern@, key@),
{
    let p = chars_of(pattern);
    let k = chars_of(key);
    proof {
        assert(p@.subrange(0, p@.len() as int) =~= p@);
        assert(k@.subrange(0, k@.len() as int) =~= k@);
    }
    match_from(&p, 0, &k, 0)
}

/// The keys of `keys` that match the glob `pattern`, in order.
pub fn select_matching(keys: &Vec<String>, pattern: &str) -> (r: Vec<String>)
    ensures
        r@ == keys@.filter(|k: String| glob_matches(pattern@, k@)),
{
    let ghost f = |k: String| glob_matches(pattern@, k@);
    let p = chars_of(pattern);
    let mut out: Vec<String> = Vec::new();
    let mut i: usize = 0;
    while i < keys.len()
        invariant
            i <= keys@.len(),
            p@ == pattern@,
            f == (|k: String| glob_matches(pattern@, k@)),
            out@ == keys@.take(i as int).filter(f),
        decreases keys@.len() - i,
    {
        let k = chars_of(keys[i].as_str());
        proof {
            assert(p@.subrange(0, p@.len() as int) =~= p@);
            assert(k@.subrange(0, k@.len() as int) =~= k@);
            assert(keys@.take(i as int + 1).drop_last() =~= keys@.take(i as int));
            reveal(Seq::filter);
        }
        if match_from(&p, 0, &k, 0) {
            out.push(keys[i].clone());
        }
        i = i + 1;
    }
    proof {
        assert(keys@.take(i as int) =~= keys@);
    }
    out
}

/// Invalidating pattern `p` over a scan that listed every key of a store
/// removes exactly the keys that match `p` and leaves every other entry as it was.
pub proof fn lemma_pattern_removes_exactly_matches(
    s: Map<Seq<char>, (Seq<u8>, nat)>,
    scanned: Seq<String>,
    p: Seq<char>,
)
    requires
        forall|k: Seq<char>| s.contains_key(k) <==> #[trigger] key_set(scanned).contains(k),
    ensures
        ({
            let after = apply_ops(s, removals(scanned.filter(|k: String| glob_matches(p, k@))));
            &&& forall|k: Seq<char>| #[trigger] after.contains_key(k) <==> (s.contains_key(k) && !glob_matches(p, k))
            &&& forall|k: Seq<char>| #[trigger] after.contains_key(k) ==> after[k] == s[k]
        }),
{
    let f = |k: String| glob_matches(p, k@);
    let sel = scanned.filter(f);
    lemma_removals_remove_keys(s, sel);
    let after = apply_ops(s, removals(sel));
    assert forall|k: Seq<char>| #[trigger] key_set(sel).contains(k) <==> (s.contains_key(k) && glob_matches(p, k)) by {
        if key_set(sel).contains(k) {
            let i = choose|i: int| 0 <= i < sel.len() && #[trigger] sel[i]@ == k;
            scanned.lemma_filter_pred(f, i);
            assert(scanned.filter(f).contains(sel[i]));
            scanned.lemma_filter_contains_rev(f, sel[i]);
            let j = choose|j: int| 0 <= j < scanned.len() && scanned[j] == sel[i];
            assert(scanned[j]@ == k);
            assert(key_set(scanned).contains(k));
        }
        if s.contains_key(k) && glob_matches(p, k) {
            assert(key_set(scanned).contains(k));
            let j = choose|j: int| 0 <= j < scanned.len() && #[trigger] scanned[j]@ == k;
            scanned.lemma_filter_contains(f, j);
            let i = choose|i: int| 0 <= i < sel.len() && sel[i] == scanned[j];
            assert(sel[i]@ == k);
        }
    }
}

} // verus!
