use vstd::prelude::*;

use crate::text::views;

verus! {

/// The order of `String`s: lexicographic by character (by code point). UTF-8 keeps the order
/// of code points, so this is the byte order that `Ord for String` uses.
pub open spec fn str_lt(a: Seq<char>, b: Seq<char>) -> bool
    decreases a.len(),
{
    if a.len() == 0 {
        b.len() > 0
    } else if b.len() == 0 {
        false
    } else if a[0] != b[0] {
        a[0] < b[0]
    } else {
        str_lt(a.drop_first(), b.drop_first())
    }
}

pub proof fn lemma_str_lt_irreflexive(a: Seq<char>)
    ensures
        !str_lt(a, a),
    decreases a.len(),
{
    if a.len() > 0 {
        lemma_str_lt_irreflexive(a.drop_first());
    }
}

pub proof fn lemma_str_lt_transitive(a: Seq<char>, b: Seq<char>, c: Seq<char>)
    requires
        str_lt(a, b),
        str_lt(b, c),
    ensures
        str_lt(a, c),
    decreases a.len(),
{
    if a.len() > 0 && b.len() > 0 && c.len() > 0 {
        if a[0] == b[0] && b[0] == c[0] {
            lemma_str_lt_transitive(a.drop_first(), b.drop_first(), c.drop_first());
        }
    }
}

pub proof fn lemma_str_lt_total(a: Seq<char>, b: Seq<char>)
    requires
        a != b,
    ensures
        str_lt(a, b) || str_lt(b, a),
    decreases a.len(),
{
    if a.len() > 0 && b.len() > 0 && a[0] == b[0] {
        if a.drop_first() == b.drop_first() {
            assert(a =~= seq![a[0]] + a.drop_first());
            assert(b =~= seq![b[0]] + b.drop_first());
        }
        lemma_str_lt_total(a.drop_first(), b.drop_first());
    } else if a.len() == 0 && b.len() == 0 {
        assert(a =~= b);
    }
}

pub proof fn lemma_str_lt_asymmetric(a: Seq<char>, b: Seq<char>)
    requires
        str_lt(a, b),
    ensures
        !str_lt(b, a),
{
    if str_lt(b, a) {
        lemma_str_lt_transitive(a, b, a);
        lemma_str_lt_irreflexive(a);
    }
}

/// Strictly increasing: sorted, and no element twice.
pub open spec fn strictly_increasing(s: Seq<Seq<char>>) -> bool {
    forall|i: int, j: int| 0 <= i < j < s.len() ==> str_lt(#[trigger] s[i], #[trigger] s[j])
}

/// Two sequences hold the same elements.
pub open spec fn same_elements(a: Seq<Seq<char>>, b: Seq<Seq<char>>) -> bool {
    forall|x: Seq<char>| a.contains(x) <==> b.contains(x)
}

/// Whether `a` comes before `b`.
pub fn chars_lt(a: &Vec<char>, b: &Vec<char>) -> (r: bool)
    ensures
        r == str_lt(a@, b@),
{
    let mut i: usize = 0;
    assert(a@.skip(0) =~= a@);
    assert(b@.skip(0) =~= b@);
    while i < a.len() && i < b.len() && a[i] == b[i]
        invariant
            i <= a.len(),
            i <= b.len(),
            str_lt(a@, b@) == str_lt(a@.skip(i as int), b@.skip(i as int)),
        decreases a.len() - i,
    {
        assert(a@.skip(i as int).drop_first() =~= a@.skip(i + 1));
        assert(b@.skip(i as int).drop_first() =~= b@.skip(i + 1));
        i = i + 1;
    }
    if i == a.len() {
        i < b.len()
    } else if i == b.len() {
        false
    } else {
        assert(a@.skip(i as int)[0] == a@[i as int]);
        assert(b@.skip(i as int)[0] == b@[i as int]);
        a[i] < b[i]
    }
}

/// The elements of `items` in increasing order, each once (`sort` then
/// `dedup`).
pub fn sort_dedup(items: &Vec<Vec<char>>) -> (r: Vec<Vec<char>>)
    ensures
        strictly_increasing(views(r@)),
        same_elements(views(r@), views(items@)),
{
    let ghost all = views(items@);
    let mut r: Vec<Vec<char>> = Vec::new();
    let mut i: usize = 0;
    while i < items.len()
        invariant
            i <= items.len(),
            all == views(items@),
            strictly_increasing(views(r@)),
            forall|y: Seq<char>| #[trigger] all.take(i as int).contains(y) <==> views(r@).contains(y),
        decreases items.len() - i,
    {
        let mut x: Vec<char> = Vec::new();
        crate::text::push_all(&mut x, &items[i]);
        let ghost xv = x@;
        assert(xv == all[i as int]);
        assert(all.take(i + 1) =~= all.take(i as int).push(xv));
        let ghost pre = all.take(i as int);
        let mut p: usize = 0;
        while p < r.len() && chars_lt(&r[p], &x)
            invariant
                p <= r.len(),
                forall|j: int| 0 <= j < p ==> str_lt(#[trigger] views(r@)[j], x@),
            decreases r.len() - p,
        {
            p = p + 1;
        }
        let ghost rv = views(r@);
        if p < r.len() && crate::text::chars_eq(&r[p], &x) {
            assert forall|y: Seq<char>| #[trigger] all.take(i + 1).contains(y) <==> views(r@).contains(y) by {
                if y == xv {
                    assert(rv[p as int] == xv);
                    assert(all.take(i + 1)[i as int] == xv);
                }
                if all.take(i + 1).contains(y) && y != xv {
                    let k = choose|k: int| 0 <= k < i + 1 && #[trigger] all.take(i + 1)[k] == y;
                    assert(pre[k] == y);
                }
                if pre.contains(y) {
                    let k = choose|k: int| 0 <= k < i && #[trigger] pre[k] == y;
                    assert(all.take(i + 1)[k] == y);
                }
            }
        } else {
            proof {
                if p < r.len() {
                    assert(!str_lt(rv[p as int], xv));
                    assert(rv[p as int] != xv);
                    lemma_str_lt_total(rv[p as int], xv);
                }
            }
            assert forall|k: int| p <= k < rv.len() implies str_lt(xv, #[trigger] rv[k]) by {
                if k > p {
                    lemma_str_lt_transitive(xv, rv[p as int], rv[k]);
                }
            }
            r.insert(p, x);
            assert(views(r@) =~= rv.insert(p as int, xv));
            assert forall|a: int, b: int| 0 <= a < b < views(r@).len() implies str_lt(#[trigger] views(r@)[a], #[trigger] views(r@)[b]) by {
                if b < p {
                    assert(views(r@)[a] == rv[a]);
                    assert(views(r@)[b] == rv[b]);
                } else if b == p {
                    assert(views(r@)[a] == rv[a]);
                } else if a == p {
                    assert(str_lt(xv, rv[b - 1]));
                } else if a < p {
                    assert(views(r@)[a] == rv[a]);
                    assert(str_lt(rv[a], xv));
                    lemma_str_lt_transitive(rv[a], xv, rv[b - 1]);
                } else {
                    assert(views(r@)[a] == rv[a - 1]);
                    assert(views(r@)[b] == rv[b - 1]);
                }
            }
            assert forall|y: Seq<char>| #[trigger] all.take(i + 1).contains(y) <==> views(r@).contains(y) by {
                if views(r@).contains(y) {
                    let k = choose|k: int| 0 <= k < views(r@).len() && views(r@)[k] == y;
                    if k < p {
                        assert(rv[k] == y);
                    } else if k > p {
                        assert(rv[k - 1] == y);
                    } else {
                        assert(all.take(i + 1)[i as int] == y);
                    }
                }
                if rv.contains(y) {
                    let k = choose|k: int| 0 <= k < rv.len() && rv[k] == y;
                    if k < p {
                        assert(views(r@)[k] == y);
                    } else {
                        assert(views(r@)[k + 1] == y);
                    }
                }
                if all.take(i + 1).contains(y) && y != xv {
                    let k = choose|k: int| 0 <= k < i + 1 && #[trigger] all.take(i + 1)[k] == y;
                    assert(pre[k] == y);
                }
                if y == xv {
                    assert(views(r@)[p as int] == y);
                }
                if pre.contains(y) {
                    let k = choose|k: int| 0 <= k < i && #[trigger] pre[k] == y;
                    assert(all.take(i + 1)[k] == y);
                }
            }
        }
        i = i + 1;
    }
    assert(all.take(items.len() as int) =~= all);
    r
}

} // verus!
