//! Ordered sets of texts: strictly ascending lists in code point order.
use vstd::prelude::*;

use crate::text::{before, comes_before, same, texts};

verus! {

/// No text comes before itself.
pub proof fn lemma_irreflexive(a: Seq<char>)
    ensures
        !before(a, a),
    decreases a.len(),
{
    if a.len() > 0 {
        lemma_irreflexive(a.skip(1));
    }
}

/// Of two different texts one comes before the other.
pub proof fn lemma_total(a: Seq<char>, b: Seq<char>)
    ensures
        a == b || before(a, b) || before(b, a),
    decreases a.len(),
{
    if a.len() > 0 && b.len() > 0 && a[0] == b[0] {
        lemma_total(a.skip(1), b.skip(1));
        if a.skip(1) == b.skip(1) {
            assert(a =~= seq![a[0]] + a.skip(1));
            assert(b =~= seq![b[0]] + b.skip(1));
        }
    } else if a.len() == 0 && b.len() == 0 {
        assert(a =~= b);
    }
}

/// The order is transitive.
pub proof fn lemma_transitive(a: Seq<char>, b: Seq<char>, c: Seq<char>)
    requires
        before(a, b),
        before(b, c),
    ensures
        before(a, c),
    decreases a.len(),
{
    if a.len() > 0 && b.len() > 0 && c.len() > 0 && a[0] == b[0] && b[0] == c[0] {
        lemma_transitive(a.skip(1), b.skip(1), c.skip(1));
    }
}

/// Whether a list is strictly ascending.
pub open spec fn ascending(v: Seq<Seq<char>>) -> bool {
    forall|i: int, j: int| 0 <= i < j < v.len() ==> before(#[trigger] v[i], #[trigger] v[j])
}

/// An ascending list with `x` added in its place, unless it is there.
pub open spec fn insert_sorted(v: Seq<Seq<char>>, x: Seq<char>) -> Seq<Seq<char>>
    decreases v.len(),
{
    if v.len() == 0 {
        seq![x]
    } else if v.last() == x {
        v
    } else if before(v.last(), x) {
        v.push(x)
    } else {
        insert_sorted(v.drop_last(), x).push(v.last())
    }
}

/// The texts of `s`, each once, in ascending order.
pub open spec fn sorted_set(s: Seq<Seq<char>>) -> Seq<Seq<char>>
    decreases s.len(),
{
    if s.len() == 0 {
        Seq::empty()
    } else {
        insert_sorted(sorted_set(s.drop_last()), s.last())
    }
}

/// Inserting adds exactly the one text.
pub proof fn lemma_insert_contains(v: Seq<Seq<char>>, x: Seq<char>, y: Seq<char>)
    ensures
        insert_sorted(v, x).contains(y) <==> v.contains(y) || y == x,
    decreases v.len(),
{
    let r = insert_sorted(v, x);
    if v.len() == 0 {
        assert(r[0] == x);
        assert(r.contains(x));
    } else if v.last() == x {
        assert(v[v.len() - 1] == x);
    } else if before(v.last(), x) {
        assert(r[v.len() as int] == x);
        if v.contains(y) {
            let i = choose|i: int| 0 <= i < v.len() && v[i] == y;
            assert(r[i] == y);
        }
    } else {
        let w = insert_sorted(v.drop_last(), x);
        lemma_insert_contains(v.drop_last(), x, y);
        if v.contains(y) {
            let i = choose|i: int| 0 <= i < v.len() && v[i] == y;
            if i < v.len() - 1 {
                assert(v.drop_last()[i] == y);
                let k = choose|k: int| 0 <= k < w.len() && w[k] == y;
                assert(r[k] == y);
            } else {
                assert(r[w.len() as int] == y);
            }
        }
        if y == x {
            let k = choose|k: int| 0 <= k < w.len() && w[k] == y;
            assert(r[k] == y);
        }
        if r.contains(y) {
            let k = choose|k: int| 0 <= k < r.len() && r[k] == y;
            if k < w.len() {
                assert(w[k] == y);
                if v.drop_last().contains(y) {
                    let i = choose|i: int| 0 <= i < v.len() - 1 && v.drop_last()[i] == y;
                    assert(v[i] == y);
                }
            } else {
                assert(v[v.len() - 1] == y);
            }
        }
    }
}

/// Inserting keeps an ascending list ascending.
pub proof fn lemma_insert_ascending(v: Seq<Seq<char>>, x: Seq<char>)
    requires
        ascending(v),
    ensures
        ascending(insert_sorted(v, x)),
    decreases v.len(),
{
    let r = insert_sorted(v, x);
    if v.len() > 0 && v.last() != x {
        if before(v.last(), x) {
            assert forall|i: int, j: int| 0 <= i < j < r.len() implies before(
                #[trigger] r[i],
                #[trigger] r[j],
            ) by {
                if j == v.len() && i < v.len() - 1 {
                    assert(before(v[i], v[v.len() - 1]));
                    lemma_transitive(v[i], v.last(), x);
                }
            }
        } else {
            let w = insert_sorted(v.drop_last(), x);
            lemma_total(v.last(), x);
            assert(ascending(v.drop_last())) by {
                assert forall|i: int, j: int| 0 <= i < j < v.len() - 1 implies before(
                    #[trigger] v.drop_last()[i],
                    #[trigger] v.drop_last()[j],
                ) by {
                    assert(before(v[i], v[j]));
                }
            }
            lemma_insert_ascending(v.drop_last(), x);
            assert forall|i: int, j: int| 0 <= i < j < r.len() implies before(
                #[trigger] r[i],
                #[trigger] r[j],
            ) by {
                if j == w.len() {
                    assert(w.contains(w[i]));
                    lemma_insert_contains(v.drop_last(), x, w[i]);
                    if w[i] != x {
                        let k = choose|k: int| 0 <= k < v.len() - 1 && v.drop_last()[k] == w[i];
                        assert(before(v[k], v[v.len() - 1]));
                    }
                } else {
                    assert(before(w[i], w[j]));
                }
            }
        }
    }
}

/// Inserting a text that is there changes nothing.
pub proof fn lemma_insert_present(v: Seq<Seq<char>>, x: Seq<char>)
    requires
        ascending(v),
        v.contains(x),
    ensures
        insert_sorted(v, x) == v,
    decreases v.len(),
{
    let i = choose|i: int| 0 <= i < v.len() && v[i] == x;
    if v.last() != x {
        assert(before(v[i], v[v.len() - 1]));
        if before(v.last(), x) {
            lemma_transitive(x, v.last(), x);
            lemma_irreflexive(x);
        }
        assert forall|a: int, b: int| 0 <= a < b < v.len() - 1 implies before(
            #[trigger] v.drop_last()[a],
            #[trigger] v.drop_last()[b],
        ) by {
            assert(before(v[a], v[b]));
        }
        assert(v.drop_last()[i] == x);
        lemma_insert_present(v.drop_last(), x);
        assert(v.drop_last().push(v.last()) =~= v);
    }
}

/// `sorted_set` is ascending and holds exactly the texts it is made from.
pub proof fn law_sorted_set(s: Seq<Seq<char>>)
    ensures
        ascending(sorted_set(s)),
        forall|y: Seq<char>| sorted_set(s).contains(y) <==> s.contains(y),
    decreases s.len(),
{
    if s.len() > 0 {
        let w = sorted_set(s.drop_last());
        law_sorted_set(s.drop_last());
        lemma_insert_ascending(w, s.last());
        assert forall|y: Seq<char>| sorted_set(s).contains(y) <==> s.contains(y) by {
            lemma_insert_contains(w, s.last(), y);
            if s.contains(y) {
                let i = choose|i: int| 0 <= i < s.len() && s[i] == y;
                if i < s.len() - 1 {
                    assert(s.drop_last()[i] == y);
                }
            }
            if s.drop_last().contains(y) {
                let i = choose|i: int| 0 <= i < s.len() - 1 && s.drop_last()[i] == y;
                assert(s[i] == y);
            }
            assert(s[s.len() - 1] == s.last());
        }
    }
}

/// Two ascending lists with the same texts are the same list.
pub proof fn lemma_ascending_unique(a: Seq<Seq<char>>, b: Seq<Seq<char>>)
    requires
        ascending(a),
        ascending(b),
        forall|y: Seq<char>| a.contains(y) <==> b.contains(y),
    ensures
        a == b,
    decreases a.len(),
{
    if a.len() == 0 {
        if b.len() > 0 {
            assert(b.contains(b[0]));
            assert(a.contains(b[0]));
        }
        assert(a =~= b);
    } else {
        assert(a.contains(a.last()));
        assert(b.contains(a.last()));
        let i = choose|i: int| 0 <= i < b.len() && b[i] == a.last();
        assert(b.contains(b.last()));
        assert(a.contains(b.last()));
        let k = choose|k: int| 0 <= k < a.len() && a[k] == b.last();
        if a.last() != b.last() {
            assert(before(b[i], b[b.len() - 1]));
            assert(before(a[k], a[a.len() - 1]));
            lemma_transitive(a.last(), b.last(), a.last());
            lemma_irreflexive(a.last());
        }
        assert forall|y: Seq<char>| a.drop_last().contains(y) <==> b.drop_last().contains(y) by {
            if a.drop_last().contains(y) {
                let p = choose|p: int| 0 <= p < a.len() - 1 && a.drop_last()[p] == y;
                assert(a[p] == y);
                assert(a.contains(y));
                let q = choose|q: int| 0 <= q < b.len() && b[q] == y;
                assert(before(a[p], a[a.len() - 1]));
                if q == b.len() - 1 {
                    lemma_irreflexive(y);
                }
                assert(b.drop_last()[q] == y);
            }
            if b.drop_last().contains(y) {
                let p = choose|p: int| 0 <= p < b.len() - 1 && b.drop_last()[p] == y;
                assert(b[p] == y);
                assert(b.contains(y));
                let q = choose|q: int| 0 <= q < a.len() && a[q] == y;
                assert(before(b[p], b[b.len() - 1]));
                if q == a.len() - 1 {
                    lemma_irreflexive(y);
                }
                assert(a.drop_last()[q] == y);
            }
        }
        assert forall|x: int, y: int| 0 <= x < y < a.len() - 1 implies before(
            #[trigger] a.drop_last()[x],
            #[trigger] a.drop_last()[y],
        ) by {
            assert(before(a[x], a[y]));
        }
        assert forall|x: int, y: int| 0 <= x < y < b.len() - 1 implies before(
            #[trigger] b.drop_last()[x],
            #[trigger] b.drop_last()[y],
        ) by {
            assert(before(b[x], b[y]));
        }
        lemma_ascending_unique(a.drop_last(), b.drop_last());
        assert(a =~= a.drop_last().push(a.last()));
        assert(b =~= b.drop_last().push(b.last()));
    }
}

/// The sorted set depends only on which texts there are, not on their order
/// or on how often they occur.
pub proof fn law_sorted_set_order_free(a: Seq<Seq<char>>, b: Seq<Seq<char>>)
    requires
        forall|y: Seq<char>| a.contains(y) <==> b.contains(y),
    ensures
        sorted_set(a) == sorted_set(b),
{
    law_sorted_set(a);
    law_sorted_set(b);
    assert forall|y: Seq<char>| sorted_set(a).contains(y) <==> sorted_set(b).contains(y) by {
        assert(a.contains(y) <==> b.contains(y));
    }
    lemma_ascending_unique(sorted_set(a), sorted_set(b));
}

/// Where inserting puts `x`: everything from `i` on moves up by one.
pub proof fn lemma_insert_at(v: Seq<Seq<char>>, x: Seq<char>, i: int)
    requires
        0 <= i <= v.len(),
        i > 0 ==> v[i - 1] != x && before(v[i - 1], x),
        forall|j: int| i <= j < v.len() ==> #[trigger] v[j] != x && !before(v[j], x),
    ensures
        insert_sorted(v, x) == v.insert(i, x),
    decreases v.len(),
{
    if v.len() == 0 {
        assert(insert_sorted(v, x) =~= v.insert(i, x));
    } else if i == v.len() {
        assert(v[i - 1] == v.last());
        assert(v.push(x) =~= v.insert(i, x));
    } else {
        assert(v[v.len() - 1] != x);
        assert forall|j: int| i <= j < v.len() - 1 implies #[trigger] v.drop_last()[j] != x
            && !before(v.drop_last()[j], x) by {
            assert(v[j] != x);
        }
        lemma_insert_at(v.drop_last(), x, i);
        assert(v.drop_last().insert(i, x).push(v.last()) =~= v.insert(i, x));
    }
}

/// Where `x` belongs in an ascending list, and whether it is there.
pub fn place(v: &Vec<String>, x: &str) -> (r: (usize, bool))
    requires
        ascending(texts(v@)),
    ensures
        r.0 <= v.len(),
        r.1 ==> r.0 < v.len() && texts(v@)[r.0 as int] == x@,
        r.1 == texts(v@).contains(x@),
        !r.1 ==> insert_sorted(texts(v@), x@) == texts(v@).insert(r.0 as int, x@),
{
    let mut i: usize = v.len();
    while i > 0
        invariant
            i <= v.len(),
            ascending(texts(v@)),
            forall|j: int|
                i <= j < v.len() ==> #[trigger] texts(v@)[j] != x@ && !before(texts(v@)[j], x@),
        decreases i,
    {
        let s = v[i - 1].as_str();
        assert(texts(v@)[i - 1] == s@);
        if same(s, x) {
            assert(texts(v@).contains(x@));
            return (i - 1, true);
        }
        if comes_before(s, x) {
            proof {
                lemma_insert_at(texts(v@), x@, i as int);
                assert forall|j: int| 0 <= j < v.len() implies texts(v@)[j] != x@ by {
                    if j < i - 1 {
                        assert(before(texts(v@)[j], texts(v@)[i - 1]));
                        lemma_transitive(texts(v@)[j], texts(v@)[i - 1], x@);
                        lemma_irreflexive(x@);
                    } else if j == i - 1 {
                        assert(texts(v@)[j] == s@);
                    }
                }
            }
            return (i, false);
        }
        i = i - 1;
    }
    proof {
        lemma_insert_at(texts(v@), x@, 0);
    }
    (0, false)
}

/// Adds `x` to an ascending list, unless it is there.
pub fn add_sorted(v: &mut Vec<String>, x: &str)
    requires
        ascending(texts(old(v)@)),
    ensures
        texts(final(v)@) == insert_sorted(texts(old(v)@), x@),
        ascending(texts(final(v)@)),
{
    let (i, found) = place(v, x);
    proof {
        lemma_insert_ascending(texts(v@), x@);
    }
    if found {
        proof {
            lemma_insert_present(texts(v@), x@);
        }
    } else {
        let ghost was = v@;
        let s = x.to_owned();
        v.insert(i, s);
        proof {
            assert(texts(v@) =~= texts(was).insert(i as int, x@));
        }
    }
}

/// The texts of `s`, each once, in ascending order.
pub fn sorted_unique(s: &Vec<String>) -> (r: Vec<String>)
    ensures
        texts(r@) == sorted_set(texts(s@)),
{
    let mut out: Vec<String> = Vec::new();
    let mut i: usize = 0;
    assert(texts(out@) =~= sorted_set(texts(s@).take(0)));
    while i < s.len()
        invariant
            i <= s.len(),
            texts(out@) == sorted_set(texts(s@).take(i as int)),
            ascending(texts(out@)),
        decreases s.len() - i,
    {
        add_sorted(&mut out, s[i].as_str());
        i = i + 1;
        assert(texts(s@).take(i as int).drop_last() =~= texts(s@).take(i - 1));
    }
    assert(texts(s@).take(i as int) =~= texts(s@));
    out
}

} // verus!
