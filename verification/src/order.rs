//! Lexicographic order on strings, and sorting of distinct strings.
//!
//! Rust orders `String`s by their UTF-8 bytes, which agrees with ordering
//! their characters by code point; `str_lt` states that order.
use vstd::prelude::*;
use crate::text::views;

verus! {

/// `a` sorts strictly before `b`.
pub open spec fn str_lt(a: Seq<char>, b: Seq<char>) -> bool
    decreases a.len(),
{
    if b.len() == 0 {
        false
    } else if a.len() == 0 {
        true
    } else if a[0] != b[0] {
        a[0] < b[0]
    } else {
        str_lt(a.drop_first(), b.drop_first())
    }
}

pub proof fn lemma_str_lt_irreflexive(a: Seq<char>)
    ensures
        !str_lt(a, a),
    decreases a.len(),
{
    if a.len() > 0 {
        lemma_str_lt_irreflexive(a.drop_first());
    }
}

pub proof fn lemma_str_lt_trichotomy(a: Seq<char>, b: Seq<char>)
    ensures
        a == b || str_lt(a, b) || str_lt(b, a),
    decreases a.len(),
{
    if a.len() > 0 && b.len() > 0 && a[0] == b[0] {
        lemma_str_lt_trichotomy(a.drop_first(), b.drop_first());
        if a.drop_first() == b.drop_first() {
            assert(a =~= seq![a[0]] + a.drop_first());
            assert(b =~= seq![b[0]] + b.drop_first());
        }
    } else if a.len() == 0 && b.len() == 0 {
        assert(a =~= b);
    } else if a.len() > 0 && b.len() > 0 {
    }
}

pub proof fn lemma_str_lt_asymmetric(a: Seq<char>, b: Seq<char>)
    ensures
        str_lt(a, b) ==> !str_lt(b, a),
    decreases a.len(),
{
    if a.len() > 0 && b.len() > 0 && a[0] == b[0] {
        lemma_str_lt_asymmetric(a.drop_first(), b.drop_first());
    }
}

pub proof fn lemma_str_lt_transitive(a: Seq<char>, b: Seq<char>, c: Seq<char>)
    requires
        str_lt(a, b),
        str_lt(b, c),
    ensures
        str_lt(a, c),
    decreases a.len(),
{
    if a.len() > 0 && b.len() > 0 && c.len() > 0 && a[0] == b[0] && b[0] == c[0] {
        lemma_str_lt_transitive(a.drop_first(), b.drop_first(), c.drop_first());
    }
}

/// Executable comparison: `a` sorts strictly before `b`.
pub fn str_less(a: &String, b: &String) -> (r: bool)
    ensures
        r == str_lt(a@, b@),
{
    let av = crate::text::chars_of(a.as_str());
    let bv = crate::text::chars_of(b.as_str());
    let mut i: usize = 0;
    assert(a@.skip(0) =~= a@);
    assert(b@.skip(0) =~= b@);
    while i < av.len() && i < bv.len()
        invariant
            i <= av.len(),
            i <= bv.len(),
            av@ == a@,
            bv@ == b@,
            forall|j: int| 0 <= j < i ==> av@[j] == bv@[j],
            str_lt(a@, b@) == str_lt(a@.skip(i as int), b@.skip(i as int)),
        decreases av.len() - i,
    {
        if av[i] != bv[i] {
            proof {
                assert(a@.skip(i as int)[0] == av@[i as int]);
                assert(b@.skip(i as int)[0] == bv@[i as int]);
            }
            return av[i] < bv[i];
        }
        proof {
            assert(a@.skip(i as int).drop_first() =~= a@.skip(i + 1));
            assert(b@.skip(i as int).drop_first() =~= b@.skip(i + 1));
        }
        i = i + 1;
    }
    proof {
        if i == bv.len() {
            assert(b@.skip(i as int).len() == 0);
        } else {
            assert(a@.skip(i as int).len() == 0);
        }
    }
    i < bv.len()
}

/// Strictly increasing in string order.
pub open spec fn strictly_sorted(s: Seq<Seq<char>>) -> bool {
    forall|i: int, j: int| 0 <= i < j < s.len() ==> str_lt(#[trigger] s[i], #[trigger] s[j])
}

/// The strings of `v`, sorted in increasing order; `v` must hold no repeats.
pub fn sort_distinct(v: &Vec<String>) -> (r: Vec<String>)
    requires
        views(v@).no_duplicates(),
    ensures
        views(r@).to_set() == views(v@).to_set(),
        views(r@).no_duplicates(),
        strictly_sorted(views(r@)),
        r@.len() == v@.len(),
{
    let mut r: Vec<String> = Vec::new();
    let mut i: usize = 0;
    while i < v.len()
        invariant
            i <= v.len(),
            views(v@).no_duplicates(),
            views(r@).to_set() == views(v@).take(i as int).to_set(),
            strictly_sorted(views(r@)),
            r@.len() == i,
        decreases v.len() - i,
    {
        let x = v[i].clone();
        let ghost xv = x@;
        proof {
            assert(views(v@)[i as int] == xv);
            assert(!views(r@).contains(xv)) by {
                if views(r@).contains(xv) {
                    assert(views(r@).to_set().contains(xv));
                    assert(views(v@).take(i as int).to_set().contains(xv));
                    let j = choose|j: int| 0 <= j < i && views(v@).take(i as int)[j] == xv;
                    assert(views(v@)[j] == views(v@)[i as int]);
                }
            }
        }
        let mut p: usize = 0;
        while p < r.len() && str_less(&r[p], &x)
            invariant
                p <= r@.len(),
                forall|j: int| 0 <= j < p ==> str_lt(#[trigger] views(r@)[j], xv),
                x@ == xv,
            decreases r@.len() - p,
        {
            p = p + 1;
        }
        let ghost old_r = views(r@);
        r.insert(p, x);
        proof {
            assert(views(r@) =~= old_r.insert(p as int, xv));
            if p < old_r.len() {
                assert(!str_lt(old_r[p as int], xv));
                lemma_str_lt_trichotomy(old_r[p as int], xv);
                assert(old_r[p as int] != xv) by {
                    assert(old_r.contains(old_r[p as int]));
                }
                assert(str_lt(xv, old_r[p as int]));
            }
            assert forall|a: int, b: int| 0 <= a < b < views(r@).len() implies str_lt(#[trigger] views(r@)[a], #[trigger] views(r@)[b]) by {
                if b < p {
                } else if b == p {
                } else if a < p {
                    // a before x, b after x
                    assert(str_lt(views(r@)[a], xv));
                    assert(views(r@)[b] == old_r[b - 1]);
                    if b - 1 > p {
                        assert(str_lt(old_r[p as int], old_r[b - 1]));
                        lemma_str_lt_transitive(xv, old_r[p as int], old_r[b - 1]);
                    }
                    lemma_str_lt_transitive(views(r@)[a], xv, old_r[b - 1]);
                } else if a == p {
                    assert(views(r@)[b] == old_r[b - 1]);
                    if b - 1 > p {
                        assert(str_lt(old_r[p as int], old_r[b - 1]));
                        lemma_str_lt_transitive(xv, old_r[p as int], old_r[b - 1]);
                    }
                } else {
                    assert(views(r@)[a] == old_r[a - 1]);
                    assert(views(r@)[b] == old_r[b - 1]);
                }
            }
            assert(views(v@).take(i + 1) =~= views(v@).take(i as int).push(xv));
            let vt = views(v@).take(i + 1);
            assert forall|s: Seq<char>| views(r@).contains(s) implies vt.contains(s) by {
                let j = choose|j: int| 0 <= j < views(r@).len() && views(r@)[j] == s;
                if j == p {
                    assert(vt[i as int] == s);
                } else {
                    if j < p {
                        assert(old_r[j] == s);
                    } else {
                        assert(old_r[j - 1] == s);
                    }
                    assert(old_r.to_set().contains(s));
                    assert(views(v@).take(i as int).to_set().contains(s));
                    let q = choose|q: int| 0 <= q < i && views(v@).take(i as int)[q] == s;
                    assert(vt[q] == s);
                }
            }
            assert forall|s: Seq<char>| vt.contains(s) implies views(r@).contains(s) by {
                let j = choose|j: int| 0 <= j < vt.len() && vt[j] == s;
                if j < i {
                    assert(views(v@).take(i as int)[j] == s);
                    assert(views(v@).take(i as int).to_set().contains(s));
                    assert(old_r.to_set().contains(s));
                    let q = choose|q: int| 0 <= q < old_r.len() && old_r[q] == s;
                    if q < p {
                        assert(views(r@)[q] == s);
                    } else {
                        assert(views(r@)[q + 1] == s);
                    }
                } else {
                    assert(views(r@)[p as int] == s);
                }
            }
            assert(views(r@).to_set() =~= vt.to_set());
        }
        i = i + 1;
    }
    proof {
        assert(views(v@).take(v@.len() as int) =~= views(v@));
        assert(views(r@).no_duplicates()) by {
            assert forall|a: int, b: int| 0 <= a < views(r@).len() && 0 <= b < views(r@).len() && a != b implies views(r@)[a] != views(r@)[b] by {
                if a < b {
                    assert(str_lt(views(r@)[a], views(r@)[b]));
                    lemma_str_lt_irreflexive(views(r@)[a]);
                } else {
                    assert(str_lt(views(r@)[b], views(r@)[a]));
                    lemma_str_lt_irreflexive(views(r@)[b]);
                }
            }
        }
    }
    r
}

/// In non-decreasing string order.
pub open spec fn sorted(s: Seq<Seq<char>>) -> bool {
    forall|i: int, j: int| 0 <= i < j < s.len() ==> !str_lt(#[trigger] s[j], #[trigger] s[i])
}

/// "Not less than" is transitive.
proof fn lemma_not_lt_transitive(a: Seq<char>, b: Seq<char>, c: Seq<char>)
    requires
        !str_lt(a, b),
        !str_lt(b, c),
    ensures
        !str_lt(a, c),
{
    lemma_str_lt_trichotomy(a, b);
    lemma_str_lt_trichotomy(b, c);
    if str_lt(a, c) {
        if a != b && b != c {
            lemma_str_lt_transitive(c, b, a);
            lemma_str_lt_asymmetric(a, c);
        } else if a == b {
            lemma_str_lt_asymmetric(b, c);
        } else {
            lemma_str_lt_asymmetric(a, b);
        }
    }
}

/// The strings of `v` in non-decreasing order (a sorted permutation).
pub fn sort_strings(v: &Vec<String>) -> (r: Vec<String>)
    ensures
        views(r@).to_multiset() == views(v@).to_multiset(),
        sorted(views(r@)),
{
    broadcast use vstd::seq_lib::group_to_multiset_ensures;
    let mut r: Vec<String> = Vec::new();
    let mut i: usize = 0;
    assert(views(v@).take(0) =~= Seq::<Seq<char>>::empty());
    assert(views(r@) =~= Seq::<Seq<char>>::empty());
    while i < v.len()
        invariant
            i <= v@.len(),
            views(r@).to_multiset() == views(v@).take(i as int).to_multiset(),
            sorted(views(r@)),
        decreases v.len() - i,
    {
        let x = v[i].clone();
        let mut p: usize = 0;
        while p < r.len() && str_less(&r[p], &x)
            invariant
                p <= r@.len(),
                sorted(views(r@)),
                forall|j: int| 0 <= j < p ==> str_lt(#[trigger] views(r@)[j], x@),
            decreases r.len() - p,
        {
            assert(views(r@)[p as int] == r@[p as int]@);
            p = p + 1;
        }
        let ghost old_r = views(r@);
        proof {
            if p < r@.len() {
                assert(old_r[p as int] == r@[p as int]@);
                assert(!str_lt(old_r[p as int], x@));
            }
        }
        r.insert(p, x);
        proof {
            let nr = views(r@);
            assert(nr =~= old_r.insert(p as int, x@));
            assert forall|a: int, b: int| 0 <= a < b < nr.len() implies !str_lt(#[trigger] nr[b], #[trigger] nr[a]) by {
                if b < p {
                    assert(nr[a] == old_r[a] && nr[b] == old_r[b]);
                } else if b == p {
                    assert(nr[a] == old_r[a]);
                    assert(str_lt(old_r[a], x@));
                    lemma_str_lt_asymmetric(old_r[a], x@);
                } else if a < p {
                    assert(nr[a] == old_r[a] && nr[b] == old_r[b - 1]);
                    assert(str_lt(old_r[a], x@));
                    assert(!str_lt(old_r[b - 1], old_r[p as int])) by {
                        if b - 1 > p {
                        } else {
                            lemma_str_lt_irreflexive(old_r[p as int]);
                        }
                    }
                    lemma_not_lt_transitive(old_r[b - 1], old_r[p as int], x@);
                    lemma_str_lt_trichotomy(old_r[b - 1], x@);
                    if str_lt(old_r[b - 1], old_r[a]) {
                        lemma_str_lt_transitive(old_r[b - 1], old_r[a], x@);
                    }
                } else if a == p {
                    assert(nr[a] == x@ && nr[b] == old_r[b - 1]);
                    assert(!str_lt(old_r[b - 1], old_r[p as int])) by {
                        if b - 1 > p {
                        } else {
                            lemma_str_lt_irreflexive(old_r[p as int]);
                        }
                    }
                    lemma_not_lt_transitive(old_r[b - 1], old_r[p as int], x@);
                } else {
                    assert(nr[a] == old_r[a - 1] && nr[b] == old_r[b - 1]);
                }
            }
            vstd::seq_lib::to_multiset_insert(old_r, p as int, x@);
            assert(views(v@).take(i + 1) =~= views(v@).take(i as int).push(x@));
            vstd::seq_lib::to_multiset_build(views(v@).take(i as int), x@);
        }
        i = i + 1;
    }
    assert(views(v@).take(v@.len() as int) =~= views(v@));
    r
}

/// A list in non-decreasing order is determined by its elements: two sorted
/// lists with the same elements (counted with repetition) are equal.
pub proof fn lemma_sorted_unique(a: Seq<Seq<char>>, b: Seq<Seq<char>>)
    requires
        sorted(a),
        sorted(b),
        a.to_multiset() == b.to_multiset(),
    ensures
        a == b,
    decreases a.len(),
{
    broadcast use vstd::seq_lib::group_to_multiset_ensures;
    vstd::seq_lib::to_multiset_len(a);
    vstd::seq_lib::to_multiset_len(b);
    assert(a.len() == b.len());
    if a.len() == 0 {
        assert(a =~= b);
    } else {
        let x = a[0];
        let y = b[0];
        assert(b.contains(y));
        assert(a.to_multiset().count(y) > 0);
        assert(a.contains(y));
        let j = choose|j: int| 0 <= j < a.len() && a[j] == y;
        assert(a.contains(x));
        assert(b.to_multiset().count(x) > 0);
        assert(b.contains(x));
        let k = choose|k: int| 0 <= k < b.len() && b[k] == x;
        if j > 0 {
            assert(!str_lt(a[j], a[0]));
        }
        if k > 0 {
            assert(!str_lt(b[k], b[0]));
        }
        lemma_str_lt_irreflexive(x);
        lemma_str_lt_trichotomy(x, y);
        assert(x == y);
        let a1 = a.remove(0);
        let b1 = b.remove(0);
        assert(a1.to_multiset() == a.to_multiset().remove(x));
        assert(b1.to_multiset() == b.to_multiset().remove(y));
        assert forall|i: int, l: int| 0 <= i < l < a1.len() implies !str_lt(#[trigger] a1[l], #[trigger] a1[i]) by {
            assert(a1[l] == a[l + 1] && a1[i] == a[i + 1]);
        }
        assert forall|i: int, l: int| 0 <= i < l < b1.len() implies !str_lt(#[trigger] b1[l], #[trigger] b1[i]) by {
            assert(b1[l] == b[l + 1] && b1[i] == b[i + 1]);
        }
        lemma_sorted_unique(a1, b1);
        assert(a =~= seq![x] + a1);
        assert(b =~= seq![y] + b1);
    }
}

} // verus!
