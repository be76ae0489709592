//! Ordering predicates and counting lemmas over sequences of block and
//! transaction numbers.

use vstd::prelude::*;

verus! {

/// True when `s` is strictly increasing.
pub open spec fn strictly_increasing(s: Seq<u64>) -> bool {
    forall|i: int, j: int| 0 <= i < j < s.len() ==> s[i] < s[j]
}

/// True when `s` never decreases.
pub open spec fn nondecreasing(s: Seq<u64>) -> bool {
    forall|i: int, j: int| 0 <= i < j < s.len() ==> s[i] <= s[j]
}

/// Number of elements of `s` that are at most `b`.
pub open spec fn count_le(s: Seq<u64>, b: u64) -> int
    decreases s.len(),
{
    if s.len() == 0 {
        0
    } else {
        count_le(s.drop_last(), b) + if s.last() <= b {
            1int
        } else {
            0int
        }
    }
}

/// In a nondecreasing sequence, the elements at most `b` form a prefix of
/// length `count_le(s, b)`.
pub proof fn lemma_count_le_prefix(s: Seq<u64>, b: u64)
    requires
        nondecreasing(s),
    ensures
        0 <= count_le(s, b) <= s.len(),
        forall|i: int| 0 <= i < count_le(s, b) ==> s[i] <= b,
        forall|i: int| count_le(s, b) <= i < s.len() ==> s[i] > b,
    decreases s.len(),
{
    if s.len() > 0 {
        let p = s.drop_last();
        assert(nondecreasing(p)) by {
            assert(forall|i: int, j: int| 0 <= i < j < p.len() ==> p[i] == s[i] && p[j] == s[j]);
        }
        lemma_count_le_prefix(p, b);
        assert(forall|i: int| 0 <= i < p.len() ==> p[i] == s[i]);
        if s.last() <= b {
            if count_le(p, b) < p.len() {
                let k = count_le(p, b);
                assert(p[k] > b);
                assert(s[k] <= s[s.len() - 1]);
                assert(false);
            }
            assert(forall|i: int| 0 <= i < s.len() ==> s[i] <= b) by {
                assert(forall|i: int| 0 <= i < s.len() - 1 ==> #[trigger] s[i] <= s[s.len() - 1]);
            }
        } else {
            assert(forall|i: int| 0 <= i < count_le(s, b) ==> s[i] <= b) by {
                assert(forall|i: int| 0 <= i < count_le(p, b) ==> p[i] <= b);
            }
            assert(forall|i: int| count_le(s, b) <= i < s.len() ==> s[i] > b) by {
                assert(forall|i: int| count_le(p, b) <= i < p.len() ==> p[i] > b);
            }
        }
    }
}

/// Removing one element of a strictly increasing sequence keeps it strictly
/// increasing.
pub proof fn lemma_remove_preserves_sorted(s: Seq<u64>, i: int)
    requires
        strictly_increasing(s),
        0 <= i < s.len(),
    ensures
        strictly_increasing(s.remove(i)),
{
    let t = s.remove(i);
    assert forall|a: int, b: int| 0 <= a < b < t.len() implies t[a] < t[b] by {
        if a < i {
            assert(t[a] == s[a]);
        } else {
            assert(t[a] == s[a + 1]);
        }
        if b < i {
            assert(t[b] == s[b]);
        } else {
            assert(t[b] == s[b + 1]);
        }
    }
}

/// In a strictly increasing sequence, removing the element at `i` removes
/// exactly the value `s[i]` from membership.
pub proof fn lemma_remove_contains(s: Seq<u64>, i: int)
    requires
        strictly_increasing(s),
        0 <= i < s.len(),
    ensures
        forall|p: u64| #[trigger] s.remove(i).contains(p) <==> (s.contains(p) && p != s[i]),
{
    let t = s.remove(i);
    assert forall|p: u64| #[trigger] t.contains(p) implies s.contains(p) && p != s[i] by {
        let j = choose|j: int| 0 <= j < t.len() && t[j] == p;
        if j < i {
            assert(s[j] == p);
            assert(s[j] < s[i]);
        } else {
            assert(s[j + 1] == p);
            assert(s[i] < s[j + 1]);
        }
    }
    assert forall|p: u64| s.contains(p) && p != s[i] implies #[trigger] t.contains(p) by {
        let j = choose|j: int| 0 <= j < s.len() && s[j] == p;
        if j < i {
            assert(t[j] == p);
        } else {
            assert(j > i);
            assert(t[j - 1] == p);
        }
    }
}

/// Membership after a push: the pushed value, and everything already there.
pub proof fn lemma_push_contains(s: Seq<u64>, x: u64)
    ensures
        forall|p: u64| #[trigger] s.push(x).contains(p) <==> (s.contains(p) || p == x),
{
    assert forall|p: u64| #[trigger] s.push(x).contains(p) implies (s.contains(p) || p == x) by {
        let k = choose|k: int| 0 <= k < s.push(x).len() && s.push(x)[k] == p;
        if k < s.len() {
            assert(s[k] == p);
        }
    }
    assert forall|p: u64| (s.contains(p) || p == x) implies #[trigger] s.push(x).contains(p) by {
        if s.contains(p) {
            let k = choose|k: int| 0 <= k < s.len() && s[k] == p;
            assert(s.push(x)[k] == p);
        } else {
            assert(s.push(x)[s.len() as int] == p);
        }
    }
}

/// A cut point below which everything is at most `b` and at or above which
/// everything exceeds `b` is exactly `count_le(s, b)`.
pub proof fn lemma_count_le_boundary(s: Seq<u64>, b: u64, k: int)
    requires
        nondecreasing(s),
        0 <= k <= s.len(),
        forall|i: int| 0 <= i < k ==> s[i] <= b,
        forall|i: int| k <= i < s.len() ==> s[i] > b,
    ensures
        k == count_le(s, b),
{
    lemma_count_le_prefix(s, b);
    let c = count_le(s, b);
    if k < c {
        assert(s[k] <= b);
    } else if k > c {
        assert(s[c] <= b);
    }
}

} // verus!
