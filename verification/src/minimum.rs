//! The mathematical model of the minimum of a sequence of `i32`.

use vstd::prelude::*;
use vstd::seq_lib::{to_multiset_contains, to_multiset_len};

verus! {

/// `m` occurs in `s`, and no element of `s` lies below it.
pub open spec fn is_minimum(m: i32, s: Seq<i32>) -> bool {
    &&& s.contains(m)
    &&& forall|i: int| 0 <= i < s.len() ==> m <= #[trigger] s[i]
}

/// The minimum of `s`, or `None` where `s` is empty.
pub open spec fn minimum_of(s: Seq<i32>) -> Option<i32> {
    if s.len() == 0 {
        None
    } else {
        Some(choose|m: i32| is_minimum(m, s))
    }
}

/// The smaller of two numbers.
pub open spec fn smaller(a: i32, b: i32) -> i32 {
    if a <= b {
        a
    } else {
        b
    }
}

/// A sequence has at most one minimum.
pub proof fn lemma_minimum_unique(s: Seq<i32>, a: i32, b: i32)
    requires
        is_minimum(a, s),
        is_minimum(b, s),
    ensures
        a == b,
{
    let i = choose|i: int| 0 <= i < s.len() && s[i] == a;
    let j = choose|j: int| 0 <= j < s.len() && s[j] == b;
    assert(b <= s[i]);
    assert(a <= s[j]);
}

/// A minimum of `s` is what `minimum_of` names.
pub proof fn lemma_minimum_of_is(s: Seq<i32>, m: i32)
    requires
        is_minimum(m, s),
    ensures
        minimum_of(s) == Some(m),
{
    let c = choose|c: i32| is_minimum(c, s);
    lemma_minimum_unique(s, c, m);
}

/// The only element of a sequence of one is its minimum.
pub proof fn lemma_minimum_singleton(x: i32)
    ensures
        is_minimum(x, seq![x]),
        minimum_of(seq![x]) == Some(x),
{
    assert(seq![x][0] == x);
    lemma_minimum_of_is(seq![x], x);
}

/// One more element at the end: the smaller of the old minimum and the new
/// element is the new minimum.
pub proof fn lemma_minimum_push(s: Seq<i32>, m: i32, e: i32)
    requires
        is_minimum(m, s),
    ensures
        is_minimum(smaller(m, e), s.push(e)),
        minimum_of(s.push(e)) == Some(smaller(m, e)),
{
    let t = s.push(e);
    let i = choose|i: int| 0 <= i < s.len() && s[i] == m;
    assert(t[i] == m);
    assert(t[s.len() as int] == e);
    assert forall|k: int| 0 <= k < t.len() implies smaller(m, e) <= #[trigger] t[k] by {
        if k < s.len() {
            assert(t[k] == s[k]);
        }
    }
    lemma_minimum_of_is(t, smaller(m, e));
}

/// `minimum_of` is `None` on the empty sequence and on no other, and on
/// every other sequence it is an element that no element lies below.
pub proof fn lemma_minimum_of(s: Seq<i32>)
    ensures
        minimum_of(s) is None <==> s.len() == 0,
        s.len() > 0 ==> is_minimum(minimum_of(s).unwrap(), s),
    decreases s.len(),
{
    if s.len() > 0 {
        let front = s.drop_last();
        let e = s.last();
        assert(front.push(e) == s);
        if front.len() == 0 {
            assert(s == seq![e]);
            lemma_minimum_singleton(e);
        } else {
            lemma_minimum_of(front);
            lemma_minimum_push(front, minimum_of(front).unwrap(), e);
        }
    }
}

/// The order of the elements does not matter: two sequences that hold the
/// same elements, each as often in the one as in the other, have the same
/// minimum.
pub proof fn lemma_minimum_of_permutation(s: Seq<i32>, t: Seq<i32>)
    requires
        s.to_multiset() == t.to_multiset(),
    ensures
        minimum_of(s) == minimum_of(t),
{
    to_multiset_len(s);
    to_multiset_len(t);
    if s.len() > 0 {
        lemma_minimum_of(s);
        let m = minimum_of(s).unwrap();
        assert(t.contains(m)) by {
            to_multiset_contains(s, m);
            to_multiset_contains(t, m);
        }
        assert forall|k: int| 0 <= k < t.len() implies m <= #[trigger] t[k] by {
            assert(t.contains(t[k]));
            to_multiset_contains(t, t[k]);
            to_multiset_contains(s, t[k]);
        }
        lemma_minimum_of_is(t, m);
    }
}

} // verus!
