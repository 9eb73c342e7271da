//! Stable sorting by text keys.
//!
//! A list is sorted by computing, from the keys of its items alone, the order
//! in which the items come out. Items of equal keys keep their places
//! relative to one another.

use crate::text::{
    chars_eq, chars_le, lemma_lex_le_antisym, lemma_lex_le_refl, lemma_lex_le_total,
    lemma_lex_le_trans, lex_le,
};
use vstd::prelude::*;

verus! {

/// The key by which an item is sorted: by `primary` first, and among equal
/// primaries by `secondary`.
#[derive(Debug, PartialEq, Eq)]
pub struct SortKey {
    pub primary: Vec<char>,
    pub secondary: Vec<char>,
}

/// What a `SortKey` holds.
pub struct SortKeyView {
    pub primary: Seq<char>,
    pub secondary: Seq<char>,
}

impl View for SortKey {
    type V = SortKeyView;

    open spec fn view(&self) -> SortKeyView {
        SortKeyView { primary: self.primary@, secondary: self.secondary@ }
    }
}

impl DeepView for SortKey {
    type V = SortKeyView;

    open spec fn deep_view(&self) -> SortKeyView {
        self@
    }
}

/// `a` comes no later than `b`.
pub open spec fn key_le(a: SortKeyView, b: SortKeyView) -> bool {
    if a.primary == b.primary {
        lex_le(a.secondary, b.secondary)
    } else {
        lex_le(a.primary, b.primary)
    }
}

/// Where the item `m` goes into `prev`, the order of the items before it:
/// behind the last item that comes no later than it.
pub open spec fn insert_position(keys: Seq<SortKeyView>, prev: Seq<int>, m: int) -> int
    decreases prev.len(),
{
    if prev.len() == 0 {
        0
    } else if key_le(keys[prev.last()], keys[m]) {
        prev.len() as int
    } else {
        insert_position(keys, prev.drop_last(), m)
    }
}

/// The order in which the first `n` items come out when they are sorted by
/// their keys: at each place the index of the item that stands there.
pub open spec fn stable_order_of(keys: Seq<SortKeyView>, n: nat) -> Seq<int>
    decreases n,
{
    if n == 0 {
        Seq::empty()
    } else {
        let prev = stable_order_of(keys, (n - 1) as nat);
        prev.insert(insert_position(keys, prev, n - 1), n - 1)
    }
}

/// `order` lists each of the first `n` indices once, by ascending key, and
/// items of equal keys in the order they had.
pub open spec fn is_stable_order(order: Seq<int>, keys: Seq<SortKeyView>, n: nat) -> bool {
    &&& order.len() == n
    &&& forall|i: int| 0 <= i < n ==> 0 <= (#[trigger] order[i]) < n
    &&& forall|k: int| 0 <= k < n ==> #[trigger] order.contains(k)
    &&& forall|i: int, j: int| 0 <= i < j < n ==> order[i] != order[j]
    &&& forall|i: int, j: int| 0 <= i < j < n ==> key_le(keys[order[i]], keys[order[j]])
    &&& forall|i: int, j: int|
        0 <= i < j < n && keys[order[i]] == keys[order[j]] ==> order[i] < order[j]
}

/// The items in the order that `order` gives.
pub open spec fn permuted<T>(items: Seq<T>, order: Seq<int>) -> Seq<T> {
    Seq::new(order.len(), |i: int| items[order[i]])
}

/// The indices that a list of places holds.
pub open spec fn places(order: Seq<usize>) -> Seq<int> {
    order.map_values(|i: usize| i as int)
}

/// A key comes no later than itself.
pub proof fn lemma_key_le_refl(a: SortKeyView)
    ensures
        key_le(a, a),
{
    lemma_lex_le_refl(a.secondary);
}

/// Of two keys, one comes no later than the other.
pub proof fn lemma_key_le_total(a: SortKeyView, b: SortKeyView)
    ensures
        key_le(a, b) || key_le(b, a),
{
    lemma_lex_le_total(a.primary, b.primary);
    lemma_lex_le_total(a.secondary, b.secondary);
}

/// `key_le` is transitive.
pub proof fn lemma_key_le_trans(a: SortKeyView, b: SortKeyView, c: SortKeyView)
    requires
        key_le(a, b),
        key_le(b, c),
    ensures
        key_le(a, c),
{
    if a.primary == b.primary && b.primary == c.primary {
        lemma_lex_le_trans(a.secondary, b.secondary, c.secondary);
    } else if a.primary != b.primary && b.primary != c.primary {
        lemma_lex_le_trans(a.primary, b.primary, c.primary);
        if a.primary == c.primary {
            lemma_lex_le_antisym(a.primary, b.primary);
        }
    }
}

/// Two keys that each come no later than the other are the same key.
pub proof fn lemma_key_le_antisym(a: SortKeyView, b: SortKeyView)
    requires
        key_le(a, b),
        key_le(b, a),
    ensures
        a == b,
{
    if a.primary == b.primary {
        lemma_lex_le_antisym(a.secondary, b.secondary);
    } else {
        lemma_lex_le_antisym(a.primary, b.primary);
    }
}

/// Where `insert_position` puts an item: everything before it comes no
/// later, given that `prev` is sorted; everything behind it comes later.
pub proof fn lemma_insert_position(keys: Seq<SortKeyView>, prev: Seq<int>, m: int)
    ensures
        0 <= insert_position(keys, prev, m) <= prev.len(),
        insert_position(keys, prev, m) > 0 ==> key_le(
            keys[prev[insert_position(keys, prev, m) - 1]],
            keys[m],
        ),
        forall|j: int|
            insert_position(keys, prev, m) <= j < prev.len() ==> !key_le(
                keys[#[trigger] prev[j]],
                keys[m],
            ),
    decreases prev.len(),
{
    if prev.len() > 0 && !key_le(keys[prev.last()], keys[m]) {
        lemma_insert_position(keys, prev.drop_last(), m);
        let pos = insert_position(keys, prev, m);
        assert forall|j: int| pos <= j < prev.len() implies !key_le(
            keys[#[trigger] prev[j]],
            keys[m],
        ) by {
            if j < prev.len() - 1 {
                assert(prev.drop_last()[j] == prev[j]);
            }
        }
        if pos > 0 {
            assert(prev.drop_last()[pos - 1] == prev[pos - 1]);
        }
    }
}

/// `stable_order_of` sorts: it lists each index once, by ascending key, and
/// leaves items of equal keys in the order they had.
pub proof fn lemma_stable_order_sorts(keys: Seq<SortKeyView>, n: nat)
    requires
        n <= keys.len(),
    ensures
        is_stable_order(stable_order_of(keys, n), keys, n),
    decreases n,
{
    if n > 0 {
        let m = (n - 1) as int;
        let prev = stable_order_of(keys, m as nat);
        lemma_stable_order_sorts(keys, m as nat);
        lemma_insert_position(keys, prev, m);
        let pos = insert_position(keys, prev, m);
        let cur = prev.insert(pos, m);
        assert(cur == stable_order_of(keys, n));
        assert(cur.len() == n);
        assert forall|i: int| 0 <= i < n implies 0 <= (#[trigger] cur[i]) < n by {
            if i < pos {
                assert(cur[i] == prev[i]);
            } else if i > pos {
                assert(cur[i] == prev[i - 1]);
            }
        }
        assert forall|k: int| 0 <= k < n implies #[trigger] cur.contains(k) by {
            if k == m {
                assert(cur[pos] == k);
            } else {
                assert(prev.contains(k));
                let i = choose|i: int| 0 <= i < prev.len() && prev[i] == k;
                if i < pos {
                    assert(cur[i] == k);
                } else {
                    assert(cur[i + 1] == k);
                }
            }
        }
        assert forall|i: int, j: int| 0 <= i < j < n implies cur[i] != cur[j] && key_le(
            keys[cur[i]],
            keys[cur[j]],
        ) && (keys[cur[i]] == keys[cur[j]] ==> cur[i] < cur[j]) by {
            let pi = if i < pos {
                i
            } else {
                i - 1
            };
            let pj = if j < pos {
                j
            } else {
                j - 1
            };
            if i != pos && j != pos {
                assert(cur[i] == prev[pi] && cur[j] == prev[pj]);
                assert(pi < pj);
            } else if j == pos {
                assert(cur[i] == prev[i] && cur[j] == m);
                assert(prev[i] < m);
                if i < pos - 1 {
                    lemma_key_le_trans(keys[prev[i]], keys[prev[pos - 1]], keys[m]);
                }
            } else {
                assert(cur[i] == m && cur[j] == prev[j - 1]);
                assert(prev[j - 1] < m);
                assert(!key_le(keys[prev[j - 1]], keys[m]));
                lemma_key_le_total(keys[prev[j - 1]], keys[m]);
                lemma_key_le_refl(keys[m]);
            }
        }
    }
}

/// Whether `a` comes no later than `b`.
pub fn key_no_later(a: &SortKey, b: &SortKey) -> (r: bool)
    ensures
        r == key_le(a@, b@),
{
    if chars_eq(&a.primary, &b.primary) {
        chars_le(&a.secondary, &b.secondary)
    } else {
        chars_le(&a.primary, &b.primary)
    }
}

/// The order in which the items of these keys come out when sorted: a
/// stable insertion sort on the indices.
pub fn stable_order(keys: &Vec<SortKey>) -> (order: Vec<usize>)
    ensures
        places(order@) == stable_order_of(keys.deep_view(), keys.len() as nat),
        is_stable_order(places(order@), keys.deep_view(), keys.len() as nat),
        order.len() == keys.len(),
        forall|i: int| 0 <= i < order.len() ==> (#[trigger] order[i]) < keys.len(),
{
    let mut order: Vec<usize> = Vec::new();
    let mut m: usize = 0;
    assert(places(order@) =~= Seq::empty());
    while m < keys.len()
        invariant
            m <= keys.len(),
            order.len() == m,
            places(order@) == stable_order_of(keys.deep_view(), m as nat),
            forall|i: int| 0 <= i < m ==> (#[trigger] order@[i]) < m,
        decreases keys.len() - m,
    {
        let mut pos: usize = order.len();
        assert(places(order@).take(pos as int) =~= places(order@));
        while pos > 0 && !key_no_later(&keys[order[pos - 1]], &keys[m])
            invariant
                pos <= order.len(),
                order.len() == m,
                m < keys.len(),
                forall|i: int| 0 <= i < m ==> (#[trigger] order@[i]) < m,
                insert_position(keys.deep_view(), places(order@), m as int) == insert_position(
                    keys.deep_view(),
                    places(order@).take(pos as int),
                    m as int,
                ),
            decreases pos,
        {
            proof {
                assert(places(order@).take(pos as int).last() == order@[pos - 1] as int);
                assert(places(order@).take(pos as int).drop_last() =~= places(order@).take(
                    pos - 1,
                ));
            }
            pos -= 1;
        }
        proof {
            if pos > 0 {
                assert(places(order@).take(pos as int).last() == order@[pos - 1] as int);
            }
        }
        let ghost before = order@;
        order.insert(pos, m);
        proof {
            assert(places(order@) =~= places(before).insert(pos as int, m as int));
            assert forall|i: int| 0 <= i < m + 1 implies (#[trigger] order@[i]) < m + 1 by {
                if i < pos {
                    assert(order@[i] == before[i]);
                } else if i > pos {
                    assert(order@[i] == before[i - 1]);
                }
            }
        }
        m += 1;
    }
    proof {
        lemma_stable_order_sorts(keys.deep_view(), keys.len() as nat);
    }
    order
}

} // verus!
