//! Ordering and grouping of texts: the sorted, duplicate-free point ids a
//! real-time request asks for, and rows grouped by their device, in the
//! order of the ids (as a `BTreeMap` keyed by `String` walks them).

use vstd::prelude::*;
use crate::text::str_equals;

verus! {

/// `a` comes before `b` when, at the first position where they differ, `a`
/// has the smaller code point, or when `a` is a proper prefix of `b`. This is
/// the order of their UTF-8 bytes, the order `String` compares by.
pub open spec fn text_lt(a: Seq<char>, b: Seq<char>) -> bool
    decreases a.len(),
{
    if b.len() == 0 {
        false
    } else if a.len() == 0 {
        true
    } else if a[0] != b[0] {
        (a[0] as int) < (b[0] as int)
    } else {
        text_lt(a.drop_first(), b.drop_first())
    }
}

/// No text comes before itself.
pub proof fn lemma_text_lt_irreflexive(a: Seq<char>)
    ensures
        !text_lt(a, a),
    decreases a.len(),
{
    if a.len() > 0 {
        lemma_text_lt_irreflexive(a.drop_first());
    }
}

/// The order is transitive.
pub proof fn lemma_text_lt_transitive(a: Seq<char>, b: Seq<char>, c: Seq<char>)
    requires
        text_lt(a, b),
        text_lt(b, c),
    ensures
        text_lt(a, c),
    decreases a.len(),
{
    if a.len() > 0 && b.len() > 0 && c.len() > 0 && a[0] == b[0] && b[0] == c[0] {
        lemma_text_lt_transitive(a.drop_first(), b.drop_first(), c.drop_first());
    }
}

/// Of two different texts, one comes before the other.
pub proof fn lemma_text_lt_total(a: Seq<char>, b: Seq<char>)
    requires
        a != b,
    ensures
        text_lt(a, b) || text_lt(b, a),
    decreases a.len(),
{
    if a.len() == 0 && b.len() == 0 {
        assert(a =~= b);
    } else if a.len() > 0 && b.len() > 0 && a[0] == b[0] {
        if a.drop_first() == b.drop_first() {
            assert(a =~= seq![a[0]] + a.drop_first());
            assert(b =~= seq![b[0]] + b.drop_first());
        }
        lemma_text_lt_total(a.drop_first(), b.drop_first());
    } else if a.len() > 0 && b.len() > 0 {
        assert((a[0] as int) != (b[0] as int));
    }
}

/// Whether `a` comes before `b`.
pub fn text_less(a: &str, b: &str) -> (r: bool)
    ensures
        r == text_lt(a@, b@),
{
    let n = a.unicode_len();
    let m = b.unicode_len();
    let mut i: usize = 0;
    proof {
        assert(a@.subrange(0, n as int) =~= a@);
        assert(b@.subrange(0, m as int) =~= b@);
    }
    while i < n && i < m
        invariant
            n == a@.len(),
            m == b@.len(),
            i <= n,
            i <= m,
            text_lt(a@, b@) == text_lt(a@.subrange(i as int, n as int), b@.subrange(i as int, m as int)),
        decreases n - i,
    {
        let x = a.get_char(i);
        let y = b.get_char(i);
        let ghost ra = a@.subrange(i as int, n as int);
        let ghost rb = b@.subrange(i as int, m as int);
        proof {
            assert(ra[0] == x);
            assert(rb[0] == y);
        }
        if x != y {
            return x < y;
        }
        proof {
            assert(ra.drop_first() =~= a@.subrange(i + 1, n as int));
            assert(rb.drop_first() =~= b@.subrange(i + 1, m as int));
        }
        i = i + 1;
    }
    i < m
}

/// The texts of a list of strings.
pub open spec fn texts(items: Seq<String>) -> Seq<Seq<char>> {
    items.map_values(|s: String| s@)
}

/// Each text comes before the ones after it: sorted, without repetition.
pub open spec fn strictly_sorted(s: Seq<Seq<char>>) -> bool {
    forall|i: int, j: int| 0 <= i < j < s.len() ==> text_lt(#[trigger] s[i], #[trigger] s[j])
}

/// Two strictly sorted lists with the same texts are the same list: the
/// contract of `sorted_unique` leaves one possible result.
pub proof fn lemma_strictly_sorted_determined(a: Seq<Seq<char>>, b: Seq<Seq<char>>)
    requires
        strictly_sorted(a),
        strictly_sorted(b),
        forall|x: Seq<char>| a.contains(x) <==> b.contains(x),
    ensures
        a == b,
    decreases a.len(),
{
    if a.len() == 0 {
        if b.len() > 0 {
            assert(b.contains(b[0]));
        }
        assert(a =~= b);
    } else {
        assert(a.contains(a[0]));
        let j = choose|j: int| 0 <= j < b.len() && b[j] == a[0];
        assert(b.contains(b[0]));
        let i = choose|i: int| 0 <= i < a.len() && a[i] == b[0];
        if j > 0 {
            assert(text_lt(b[0], b[j]));
            if i > 0 {
                assert(text_lt(a[0], a[i]));
                lemma_text_lt_transitive(b[0], a[0], b[0]);
            }
            lemma_text_lt_irreflexive(b[0]);
        }
        assert(a[0] == b[0]);
        let (ra, rb) = (a.drop_first(), b.drop_first());
        assert forall|x: Seq<char>| ra.contains(x) <==> rb.contains(x) by {
            if ra.contains(x) {
                let k = choose|k: int| 0 <= k < ra.len() && ra[k] == x;
                assert(a[k + 1] == x);
                assert(text_lt(a[0], x));
                lemma_text_lt_irreflexive(x);
                assert(b.contains(x));
                let m = choose|m: int| 0 <= m < b.len() && b[m] == x;
                assert(m != 0);
                assert(rb[m - 1] == x);
            }
            if rb.contains(x) {
                let k = choose|k: int| 0 <= k < rb.len() && rb[k] == x;
                assert(b[k + 1] == x);
                assert(text_lt(b[0], x));
                lemma_text_lt_irreflexive(x);
                assert(a.contains(x));
                let m = choose|m: int| 0 <= m < a.len() && a[m] == x;
                assert(m != 0);
                assert(ra[m - 1] == x);
            }
        }
        assert forall|p: int, q: int| 0 <= p < q < ra.len() implies text_lt(#[trigger] ra[p], #[trigger] ra[q]) by {
            assert(ra[p] == a[p + 1] && ra[q] == a[q + 1]);
        }
        assert forall|p: int, q: int| 0 <= p < q < rb.len() implies text_lt(#[trigger] rb[p], #[trigger] rb[q]) by {
            assert(rb[p] == b[p + 1] && rb[q] == b[q + 1]);
        }
        lemma_strictly_sorted_determined(ra, rb);
        assert(a =~= seq![a[0]] + ra);
        assert(b =~= seq![b[0]] + rb);
    }
}

proof fn lemma_push_contains(s: Seq<Seq<char>>, v: Seq<char>)
    ensures
        forall|x: Seq<char>| #[trigger] s.push(v).contains(x) <==> (s.contains(x) || x == v),
{
    assert forall|x: Seq<char>| #[trigger] s.push(v).contains(x) <==> (s.contains(x) || x == v) by {
        if s.push(v).contains(x) {
            let k = choose|k: int| 0 <= k < s.push(v).len() && s.push(v)[k] == x;
            if k < s.len() {
                assert(s[k] == x);
            }
        }
        if s.contains(x) {
            let k = choose|k: int| 0 <= k < s.len() && s[k] == x;
            assert(s.push(v)[k] == x);
        }
        if x == v {
            assert(s.push(v)[s.len() as int] == x);
        }
    }
}

/// The distinct texts of a list, in order: what sorting it and dropping
/// repeated neighbours leaves.
pub fn sorted_unique(items: &[String]) -> (r: Vec<String>)
    ensures
        strictly_sorted(texts(r@)),
        forall|x: Seq<char>| texts(r@).contains(x) <==> texts(items@).contains(x),
{
    let mut out: Vec<String> = Vec::new();
    let mut i: usize = 0;
    while i < items.len()
        invariant
            i <= items@.len(),
            strictly_sorted(texts(out@)),
            forall|x: Seq<char>| texts(out@).contains(x) <==> texts(items@.subrange(0, i as int)).contains(x),
        decreases items@.len() - i,
    {
        let item = &items[i];
        let ghost before = texts(out@);
        let mut p: usize = 0;
        while p < out.len() && text_less(out[p].as_str(), item.as_str())
            invariant
                p <= out@.len(),
                before == texts(out@),
                forall|k: int| 0 <= k < p ==> text_lt(#[trigger] before[k], item@),
            decreases out@.len() - p,
        {
            p = p + 1;
        }
        proof {
            assert(items@.subrange(0, i + 1) =~= items@.subrange(0, i as int).push(*item));
            assert(texts(items@.subrange(0, i + 1)) =~= texts(items@.subrange(0, i as int)).push(item@));
        }
        if p < out.len() && str_equals(out[p].as_str(), item.as_str()) {
            proof {
                assert(before[p as int] == item@);
                lemma_push_contains(texts(items@.subrange(0, i as int)), item@);
                assert(texts(out@)[p as int] == item@);
            }
        } else {
            proof {
                if p < out@.len() {
                    assert(!text_lt(before[p as int], item@));
                    assert(before[p as int] != item@);
                    lemma_text_lt_total(before[p as int], item@);
                }
            }
            out.insert(p, item.clone());
            proof {
                let after = texts(out@);
                assert(after =~= before.insert(p as int, item@));
                assert forall|a: int, b: int| 0 <= a < b < after.len() implies text_lt(#[trigger] after[a], #[trigger] after[b]) by {
                    if b < p {
                    } else if b == p {
                    } else if a < p {
                        lemma_text_lt_transitive(before[a], item@, before[p as int]);
                        if b - 1 > p {
                            lemma_text_lt_transitive(before[a], before[p as int], before[b - 1]);
                        }
                    } else if a == p {
                        if b - 1 > p {
                            lemma_text_lt_transitive(item@, before[p as int], before[b - 1]);
                        }
                    } else {
                    }
                }
                assert forall|x: Seq<char>| after.contains(x) <==> texts(items@.subrange(0, i + 1)).contains(x) by {
                    if after.contains(x) {
                        let k = choose|k: int| 0 <= k < after.len() && after[k] == x;
                        if k < p {
                            assert(before[k] == x);
                        } else if k > p {
                            assert(before[k - 1] == x);
                        }
                    }
                    if before.contains(x) {
                        let k = choose|k: int| 0 <= k < before.len() && before[k] == x;
                        if k < p {
                            assert(after[k] == x);
                        } else {
                            assert(after[k + 1] == x);
                        }
                    }
                    if x == item@ {
                        assert(after[p as int] == x);
                    }
                    lemma_push_contains(texts(items@.subrange(0, i as int)), item@);
                }
            }
        }
        i = i + 1;
    }
    proof {
        assert(items@.subrange(0, items@.len() as int) =~= items@);
    }
    out
}

/// The positions of the items equal to `key`, in order.
pub open spec fn positions_of(items: Seq<Seq<char>>, key: Seq<char>) -> Seq<usize> {
    Seq::new(items.len(), |i: int| i as usize).filter(|i: usize| items[i as int] == key)
}

/// Grouping neither loses nor repeats an item: the position of an item is
/// among the positions of a key exactly when the item has that key, so each
/// item lands in the one group of its own key.
pub proof fn lemma_position_belongs_to_its_key(items: Seq<Seq<char>>, key: Seq<char>, i: int)
    requires
        0 <= i < items.len(),
        items.len() <= usize::MAX,
    ensures
        positions_of(items, key).contains(i as usize) <==> items[i] == key,
{
    let all = Seq::new(items.len(), |j: int| j as usize);
    let keep = |j: usize| items[j as int] == key;
    assert(all[i] == i as usize);
    if items[i] == key {
        all.lemma_filter_contains(keep, i);
    }
    if all.filter(keep).contains(i as usize) {
        let k = choose|k: int| 0 <= k < all.filter(keep).len() && all.filter(keep)[k] == i as usize;
        all.lemma_filter_pred(keep, k);
    }
}

/// The positions of the items equal to `key`.
pub fn positions_with(items: &[String], key: &str) -> (r: Vec<usize>)
    ensures
        r@ == positions_of(texts(items@), key@),
{
    let ghost all = Seq::new(items@.len(), |i: int| i as usize);
    let ghost keep = |i: usize| texts(items@)[i as int] == key@;
    let mut found: Vec<usize> = Vec::new();
    let mut i: usize = 0;
    proof {
        assert(all.take(0) =~= Seq::<usize>::empty());
        assert(Seq::<usize>::empty().filter(keep) =~= Seq::<usize>::empty());
    }
    while i < items.len()
        invariant
            i <= items@.len(),
            all == Seq::new(items@.len(), |i: int| i as usize),
            keep == (|i: usize| texts(items@)[i as int] == key@),
            found@ == all.take(i as int).filter(keep),
        decreases items@.len() - i,
    {
        let same = str_equals(items[i].as_str(), key);
        proof {
            assert(all.take(i + 1).drop_last() =~= all.take(i as int));
            assert(all.take(i + 1).last() == i);
            reveal_with_fuel(Seq::<_>::filter, 1);
            assert(same == keep(i));
        }
        if same {
            found.push(i);
        }
        i = i + 1;
    }
    proof {
        assert(all.take(items@.len() as int) =~= all);
    }
    found
}

/// The keys of a list of groups.
pub open spec fn group_keys(groups: Seq<(String, Vec<usize>)>) -> Seq<Seq<char>> {
    groups.map_values(|g: (String, Vec<usize>)| g.0@)
}

/// Groups items by their key: one group per distinct key, in key order, each
/// with the positions of its items in increasing order.
pub fn group_by_key(keys: &[String]) -> (r: Vec<(String, Vec<usize>)>)
    ensures
        strictly_sorted(group_keys(r@)),
        forall|x: Seq<char>| group_keys(r@).contains(x) <==> texts(keys@).contains(x),
        forall|g: int| 0 <= g < r@.len() ==> (#[trigger] r@[g]).1@ == positions_of(texts(keys@), r@[g].0@),
{
    let unique = sorted_unique(keys);
    let mut groups: Vec<(String, Vec<usize>)> = Vec::new();
    let mut g: usize = 0;
    while g < unique.len()
        invariant
            g <= unique@.len(),
            groups@.len() == g,
            forall|h: int| 0 <= h < g ==> (#[trigger] groups@[h]).0@ == unique@[h]@,
            forall|h: int| 0 <= h < g ==> (#[trigger] groups@[h]).1@ == positions_of(texts(keys@), groups@[h].0@),
        decreases unique@.len() - g,
    {
        let key = unique[g].clone();
        let members = positions_with(keys, key.as_str());
        groups.push((key, members));
        g = g + 1;
    }
    proof {
        assert(group_keys(groups@) =~= texts(unique@));
    }
    groups
}

} // verus!
