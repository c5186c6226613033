//! Invoice lines as association lists: setting the quantity of a key
//! replaces the entry with that key or adds one at the end, as inserting
//! into a map does, and removing a key drops every entry with it.

use vstd::prelude::*;
use crate::models::{Item, ItemId, Quantity};
use crate::text::str_equal;

verus! {

/// The index of the first entry with key `k`, or -1 where there is none.
pub open spec fn first_key_index<K, V>(s: Seq<(K, V)>, k: K) -> int
    decreases s.len(),
{
    if s.len() == 0 {
        -1
    } else {
        let j = first_key_index(s.drop_last(), k);
        if j >= 0 {
            j
        } else if s.last().0 == k {
            s.len() - 1
        } else {
            -1
        }
    }
}

/// The value of the first entry with key `k`.
pub open spec fn lookup<K, V>(s: Seq<(K, V)>, k: K) -> Option<V> {
    let j = first_key_index(s, k);
    if j >= 0 {
        Some(s[j].1)
    } else {
        None
    }
}

/// The list with the value of `k` set to `v`: the first entry with key `k`
/// takes the value, or, where there is none, `(k, v)` is added at the end.
pub open spec fn upserted<K, V>(s: Seq<(K, V)>, k: K, v: V) -> Seq<(K, V)> {
    let j = first_key_index(s, k);
    if j >= 0 {
        s.update(j, (k, v))
    } else {
        s.push((k, v))
    }
}

/// The list that setting each entry of `s` in turn on an empty list gives:
/// what collecting `s` into a map keeps.
pub open spec fn collected<K, V>(s: Seq<(K, V)>) -> Seq<(K, V)>
    decreases s.len(),
{
    if s.len() == 0 {
        Seq::empty()
    } else {
        upserted(collected(s.drop_last()), s.last().0, s.last().1)
    }
}

/// No two entries share a key.
pub open spec fn distinct_keys<K, V>(s: Seq<(K, V)>) -> bool {
    forall|i: int, j: int| 0 <= i < j < s.len() ==> #[trigger] s[i].0 != #[trigger] s[j].0
}

/// The list without the entries with key `k`, the others in order.
pub open spec fn without_key<K, V>(s: Seq<(K, V)>, k: K) -> Seq<(K, V)> {
    s.filter(|e: (K, V)| e.0 != k)
}

proof fn lemma_first_key_index<K, V>(s: Seq<(K, V)>, k: K)
    ensures
        -1 <= first_key_index(s, k) < s.len(),
        first_key_index(s, k) >= 0 ==> s[first_key_index(s, k)].0 == k,
        forall|i: int| 0 <= i < s.len() && (first_key_index(s, k) == -1 || i < first_key_index(s, k)) ==> #[trigger] s[i].0 != k,
    decreases s.len(),
{
    if s.len() > 0 {
        lemma_first_key_index(s.drop_last(), k);
        assert forall|i: int| 0 <= i < s.len() - 1 implies #[trigger] s[i] == s.drop_last()[i] by {}
    }
}

/// An index where the key is found, before which it is not, is the first.
proof fn lemma_first_key_index_at<K, V>(s: Seq<(K, V)>, k: K, j: int)
    requires
        0 <= j < s.len(),
        s[j].0 == k,
        forall|i: int| 0 <= i < j ==> #[trigger] s[i].0 != k,
    ensures
        first_key_index(s, k) == j,
{
    lemma_first_key_index(s, k);
}

/// A key found nowhere has no first index.
proof fn lemma_first_key_index_absent<K, V>(s: Seq<(K, V)>, k: K)
    requires
        forall|i: int| 0 <= i < s.len() ==> #[trigger] s[i].0 != k,
    ensures
        first_key_index(s, k) == -1,
{
    lemma_first_key_index(s, k);
}

/// Setting a value keeps keys distinct; afterwards `k` has value `v` and
/// every other key keeps its value.
pub proof fn law_upsert<K, V>(s: Seq<(K, V)>, k: K, v: V)
    requires
        distinct_keys(s),
    ensures
        distinct_keys(upserted(s, k, v)),
        lookup(upserted(s, k, v), k) == Some(v),
        forall|k2: K| k2 != k ==> #[trigger] lookup(upserted(s, k, v), k2) == lookup(s, k2),
{
    let t = upserted(s, k, v);
    lemma_first_key_index(s, k);
    lemma_first_key_index(t, k);
    let j = first_key_index(s, k);
    if j >= 0 {
        assert(t.len() == s.len());
        assert forall|i: int| 0 <= i < t.len() && i != j implies #[trigger] t[i] == s[i] by {}
        lemma_first_key_index_at(t, k, j);
    } else {
        assert(t.len() == s.len() + 1);
        assert forall|i: int| 0 <= i < s.len() implies #[trigger] t[i] == s[i] by {}
        lemma_first_key_index_at(t, k, s.len() as int);
    }
    assert forall|k2: K| k2 != k implies #[trigger] lookup(t, k2) == lookup(s, k2) by {
        lemma_first_key_index(s, k2);
        lemma_first_key_index(t, k2);
        let j2 = first_key_index(s, k2);
        if j2 >= 0 {
            lemma_first_key_index_at(t, k2, j2);
        } else {
            lemma_first_key_index_absent(t, k2);
        }
    }
}

/// Removing a key leaves no entry with it and keeps every other key's value.
pub proof fn law_without_key<K, V>(s: Seq<(K, V)>, k: K)
    ensures
        forall|i: int| 0 <= i < without_key(s, k).len() ==> #[trigger] without_key(s, k)[i].0 != k,
        lookup(without_key(s, k), k) is None,
        forall|k2: K| k2 != k ==> #[trigger] lookup(without_key(s, k), k2) == lookup(s, k2),
    decreases s.len(),
{
    let t = without_key(s, k);
    reveal_with_fuel(Seq::filter, 1);
    if s.len() == 0 {
        assert(t =~= Seq::<(K, V)>::empty());
        lemma_first_key_index_absent(t, k);
    } else {
        let p = s.drop_last();
        let wp = without_key(p, k);
        law_without_key(p, k);
        assert(s.drop_last() == p);
        if s.last().0 == k {
            assert(t == wp);
        } else {
            assert(t == wp.push(s.last()));
            assert(t.drop_last() =~= wp);
        }
        assert forall|i: int| 0 <= i < t.len() implies #[trigger] t[i].0 != k by {
            if i < wp.len() {
                assert(t[i] == wp[i]);
            }
        }
        lemma_first_key_index_absent(t, k);
        assert forall|k2: K| k2 != k implies #[trigger] lookup(t, k2) == lookup(s, k2) by {
            lemma_first_key_index(p, k2);
            lemma_first_key_index(wp, k2);
            let jp = first_key_index(p, k2);
            let jw = first_key_index(wp, k2);
            assert(lookup(wp, k2) == lookup(p, k2));
            assert(first_key_index(s, k2) == (if jp >= 0 {
                jp
            } else if s.last().0 == k2 {
                s.len() - 1
            } else {
                -1
            }));
            if jp >= 0 {
                assert(s[jp] == p[jp]);
            }
            if s.last().0 != k {
                assert(first_key_index(t, k2) == (if jw >= 0 {
                    jw
                } else if t.last().0 == k2 {
                    t.len() - 1
                } else {
                    -1
                }));
                if jw >= 0 {
                    assert(t[jw] == wp[jw]);
                }
            } else {
                assert(jp < 0 ==> first_key_index(s, k2) == -1);
            }
        }
    }
}

/// Collecting a list keeps keys distinct and gives each key the value of its
/// last entry.
pub proof fn law_collected<K, V>(s: Seq<(K, V)>)
    ensures
        distinct_keys(collected(s)),
        forall|i: int| 0 <= i < s.len() && (forall|j: int| i < j < s.len() ==> #[trigger] s[j].0 != s[i].0) ==> lookup(
            collected(s),
            #[trigger] s[i].0,
        ) == Some(s[i].1),
    decreases s.len(),
{
    if s.len() > 0 {
        let p = s.drop_last();
        law_collected(p);
        law_upsert(collected(p), s.last().0, s.last().1);
        assert forall|i: int|
            0 <= i < s.len() && (forall|j: int| i < j < s.len() ==> #[trigger] s[j].0 != s[i].0) implies lookup(
            collected(s),
            #[trigger] s[i].0,
        ) == Some(s[i].1) by {
            if i < s.len() - 1 {
                assert(s[i] == p[i]);
                assert(s[s.len() - 1].0 != s[i].0);
                assert forall|j: int| i < j < p.len() implies #[trigger] p[j].0 != p[i].0 by {
                    assert(p[j] == s[j]);
                }
            }
        }
    }
}

/// Collecting a list whose keys are distinct keeps it as it is.
pub proof fn law_collected_distinct<K, V>(s: Seq<(K, V)>)
    requires
        distinct_keys(s),
    ensures
        collected(s) == s,
    decreases s.len(),
{
    if s.len() > 0 {
        let p = s.drop_last();
        assert(distinct_keys(p)) by {
            assert forall|i: int, j: int| 0 <= i < j < p.len() implies #[trigger] p[i].0 != #[trigger] p[j].0 by {
                assert(p[i] == s[i]);
                assert(p[j] == s[j]);
            }
        }
        law_collected_distinct(p);
        assert forall|i: int| 0 <= i < p.len() implies #[trigger] p[i].0 != s.last().0 by {
            assert(p[i] == s[i]);
            assert(s[s.len() - 1] == s.last());
        }
        lemma_first_key_index_absent(p, s.last().0);
        assert(p.push(s.last()) =~= s);
    }
}

// ---------------------------------------------------------------------------
// Lines keyed by item id
// ---------------------------------------------------------------------------

pub open spec fn id_lines_v(s: Seq<(ItemId, Quantity)>) -> Seq<(i64, (int, int))> {
    s.map_values(|e: (ItemId, Quantity)| (e.0.0, e.1@))
}

/// Sets the quantity of an item on a list of lines: the line for the item
/// takes the quantity, or a line is added at the end.
pub fn upsert_line(lines: &mut Vec<(ItemId, Quantity)>, id: ItemId, qty: Quantity)
    ensures
        id_lines_v(final(lines)@) == upserted(id_lines_v(old(lines)@), id.0, qty@),
{
    let ghost s = id_lines_v(lines@);
    let mut i: usize = 0;
    while i < lines.len()
        invariant
            i <= lines@.len(),
            s == id_lines_v(lines@),
            s == id_lines_v(old(lines)@),
            forall|t: int| 0 <= t < i ==> #[trigger] s[t].0 != id.0,
        decreases lines@.len() - i,
    {
        if lines[i].0.0 == id.0 {
            proof {
                assert(s[i as int].0 == id.0);
                lemma_first_key_index_at(s, id.0, i as int);
            }
            lines.set(i, (id, qty));
            proof {
                assert(id_lines_v(lines@) =~= s.update(i as int, (id.0, qty@)));
            }
            return;
        }
        i = i + 1;
    }
    proof {
        lemma_first_key_index_absent(s, id.0);
    }
    lines.push((id, qty));
    proof {
        assert(id_lines_v(lines@) =~= s.push((id.0, qty@)));
    }
}

/// Drops the lines of an item, keeping the others in order.
pub fn remove_lines(lines: Vec<(ItemId, Quantity)>, id: ItemId) -> (r: Vec<(ItemId, Quantity)>)
    ensures
        id_lines_v(r@) == without_key(id_lines_v(lines@), id.0),
{
    let ghost s = id_lines_v(lines@);
    let mut out: Vec<(ItemId, Quantity)> = Vec::new();
    proof {
        assert(s.take(0) =~= Seq::<(i64, (int, int))>::empty());
        reveal_with_fuel(Seq::filter, 1);
        assert(id_lines_v(out@) =~= without_key(s.take(0), id.0));
    }
    for k in 0..lines.len()
        invariant
            s == id_lines_v(lines@),
            id_lines_v(out@) == without_key(s.take(k as int), id.0),
    {
        proof {
            reveal_with_fuel(Seq::filter, 1);
            assert(s.take(k + 1).drop_last() =~= s.take(k as int));
            assert(s.take(k + 1).last() == s[k as int]);
        }
        let e = lines[k];
        if e.0.0 != id.0 {
            let ghost prev = out@;
            out.push(e);
            proof {
                assert(id_lines_v(out@) =~= id_lines_v(prev).push((e.0.0, e.1@)));
            }
        }
    }
    proof {
        assert(s.take(lines@.len() as int) =~= s);
    }
    out
}

// ---------------------------------------------------------------------------
// Lines keyed by item
// ---------------------------------------------------------------------------

/// An item as its id, name and rate (mantissa and scale).
pub open spec fn item_v(i: Item) -> (i64, Seq<char>, (int, int)) {
    (i.id.0, i.name@, i.rate@)
}

pub open spec fn item_lines_v<V: View>(s: Seq<(Item, V)>) -> Seq<((i64, Seq<char>, (int, int)), V::V)> {
    s.map_values(|e: (Item, V)| (item_v(e.0), e.1@))
}

fn same_item(a: &Item, b: &Item) -> (r: bool)
    ensures
        r == (item_v(*a) == item_v(*b)),
{
    let ra = a.rate.inner();
    let rb = b.rate.inner();
    a.id.0 == b.id.0 && ra.mantissa() == rb.mantissa() && ra.scale() == rb.scale() && str_equal(
        a.name.as_str(),
        b.name.as_str(),
    )
}

/// Sets the quantity of an item on a list of lines, as inserting into a map
/// keyed by the item does: the line for an equal item takes the quantity, or
/// a line is added at the end.
pub fn upsert_item_line<V: View>(lines: &mut Vec<(Item, V)>, item: Item, qty: V)
    ensures
        item_lines_v(final(lines)@) == upserted(item_lines_v(old(lines)@), item_v(item), qty@),
{
    let ghost s = item_lines_v(lines@);
    let ghost key = item_v(item);
    let mut i: usize = 0;
    while i < lines.len()
        invariant
            i <= lines@.len(),
            s == item_lines_v(lines@),
            s == item_lines_v(old(lines)@),
            key == item_v(item),
            forall|t: int| 0 <= t < i ==> #[trigger] s[t].0 != key,
        decreases lines@.len() - i,
    {
        if same_item(&lines[i].0, &item) {
            proof {
                assert(s[i as int].0 == key);
                lemma_first_key_index_at(s, key, i as int);
            }
            lines.set(i, (item, qty));
            proof {
                assert(item_lines_v(lines@) =~= s.update(i as int, (key, qty@)));
            }
            return;
        }
        i = i + 1;
    }
    proof {
        lemma_first_key_index_absent(s, key);
    }
    lines.push((item, qty));
    proof {
        assert(item_lines_v(lines@) =~= s.push((key, qty@)));
    }
}

} // verus!
