//! Laws of sorted phases.
use vstd::prelude::*;
use crate::phase::{
    add_item, at_order, clear, distinct_keys, entries, entry_order, float_order, keys_of, len,
    new_phase, recalculate_sort_keys, sort, sort_key, sorted, stably_sorted, with_distances,
    with_item, Entry, PhaseItem, PhaseItems,
};

verus! {

/// One step of `at_order`, from the end of the sequence.
proof fn at_order_unfolds(s: Seq<Entry>, order: int)
    requires
        s.len() > 0,
    ensures
        entry_order(s.last()) == order ==> at_order(s, order) == at_order(
            s.drop_last(),
            order,
        ).push(s.last()),
        entry_order(s.last()) != order ==> at_order(s, order) == at_order(s.drop_last(), order),
{
    reveal(Seq::filter);
}

/// A draw at a place of the order is seen there.
proof fn at_order_holds_last(s: Seq<Entry>, t: Seq<Entry>)
    requires
        s.len() > 0,
        forall|order: int| #[trigger] at_order(s, order) == at_order(t, order),
    ensures
        exists|i: int|
            0 <= i < t.len() && #[trigger] entry_order(t[i]) == entry_order(s.last()),
{
    let order = entry_order(s.last());
    let here = |entry: Entry| entry_order(entry) == order;
    at_order_unfolds(s, order);
    assert(at_order(t, order) == t.filter(here));
    assert(at_order(t, order).contains(s.last())) by {
        assert(at_order(s, order).last() == s.last());
        assert(at_order(s, order) == at_order(t, order));
    }
    t.lemma_filter_contains_rev(here, s.last());
    let i = choose|i: int| 0 <= i < t.len() && t[i] == s.last();
    assert(entry_order(t[i]) == order);
}

/// A stable sort has one result: two sequences that are both in order, with the draws at
/// each place of the order alike, are the same sequence.
pub proof fn stable_sort_is_unique(s: Seq<Entry>, t: Seq<Entry>)
    requires
        sorted(s),
        stably_sorted(s, t),
    ensures
        s == t,
    decreases s.len(),
{
    if s.len() == 0 {
        if t.len() > 0 {
            at_order_holds_last(t, s);
        }
    } else {
        at_order_holds_last(s, t);
        at_order_holds_last(t, s);
        let order = entry_order(s.last());
        assert(order == entry_order(t.last()));
        at_order_unfolds(s, order);
        at_order_unfolds(t, order);
        assert(at_order(s, order).last() == s.last());
        assert(at_order(t, order).last() == t.last());
        assert(at_order(t, order) == at_order(s, order));
        let s1 = s.drop_last();
        let t1 = t.drop_last();
        assert forall|other: int| #[trigger] at_order(t1, other) == at_order(s1, other) by {
            at_order_unfolds(s, other);
            at_order_unfolds(t, other);
            assert(at_order(t, other) == at_order(s, other));
            if other == order {
                assert(at_order(s, order).drop_last() =~= at_order(s1, order));
                assert(at_order(t, order).drop_last() =~= at_order(t1, order));
            }
        }
        assert(sorted(s1));
        assert(sorted(t1));
        stable_sort_is_unique(s1, t1);
        assert(s =~= s1.push(s.last()));
        assert(t =~= t1.push(t.last()));
    }
}

/// Sorting a phase again changes nothing.
pub proof fn sort_is_idempotent(before: Seq<Entry>, once: Seq<Entry>, twice: Seq<Entry>)
    requires
        stably_sorted(before, once),
        stably_sorted(once, twice),
    ensures
        twice == once,
{
    stable_sort_is_unique(once, twice);
}

/// Sorting is determined by the draws alone: two phases with the same draws in the same
/// sequence sort to the same sequence.
pub proof fn sort_is_deterministic(before: Seq<Entry>, one: Seq<Entry>, other: Seq<Entry>)
    requires
        stably_sorted(before, one),
        stably_sorted(before, other),
    ensures
        one == other,
{
    assert forall|order: int| #[trigger] at_order(other, order) == at_order(one, order) by {
        assert(at_order(one, order) == at_order(before, order));
    }
    stable_sort_is_unique(one, other);
}

/// Draws that are all at one distance keep their sequence when they are sorted.
pub proof fn sort_keeps_equal_distances(before: Seq<Entry>, after: Seq<Entry>, distance: u32)
    requires
        forall|i: int| 0 <= i < before.len() ==> (#[trigger] before[i]).1.distance == distance,
        stably_sorted(before, after),
    ensures
        after == before,
{
    stable_sort_is_unique(before, after);
}

/// Sorting neither adds nor loses a draw.
pub proof fn sort_keeps_draws(before: Seq<Entry>, after: Seq<Entry>, entry: Entry)
    requires
        stably_sorted(before, after),
    ensures
        after.contains(entry) <==> before.contains(entry),
{
    let order = entry_order(entry);
    let here = |e: Entry| entry_order(e) == order;
    assert(at_order(after, order) == at_order(before, order));
    if before.contains(entry) {
        let i = choose|i: int| 0 <= i < before.len() && before[i] == entry;
        before.lemma_filter_contains(here, i);
        after.lemma_filter_contains_rev(here, entry);
    }
    if after.contains(entry) {
        let i = choose|i: int| 0 <= i < after.len() && after[i] == entry;
        after.lemma_filter_contains(here, i);
        before.lemma_filter_contains_rev(here, entry);
    }
}

/// New distances change neither which draws a phase holds, nor their sequence, nor
/// anything but the distance of a draw.
pub proof fn distances_keep_draws(s: Seq<Entry>, distances: Seq<u32>)
    requires
        distances.len() == s.len(),
    ensures
        keys_of(with_distances(s, distances)) == keys_of(s),
        forall|i: int|
            0 <= i < s.len() ==> (PhaseItem {
                distance: s[i].1.distance,
                ..(#[trigger] with_distances(s, distances)[i]).1
            }) == s[i].1,
{
    assert(keys_of(with_distances(s, distances)) =~= keys_of(s));
}

/// Filing a draw keeps the keys distinct and leaves the other draws where they are. It
/// changes the keys only where the entities are new, and then adds them last.
pub proof fn with_item_keys(s: Seq<Entry>, item: PhaseItem)
    requires
        distinct_keys(s),
    ensures
        distinct_keys(with_item(s, item)),
        keys_of(with_item(s, item)) == if keys_of(s).contains(item.entity) {
            keys_of(s)
        } else {
            keys_of(s).push(item.entity)
        },
        with_item(s, item).contains((item.entity, item)),
        forall|i: int|
            0 <= i < s.len() && s[i].0 != item.entity ==> #[trigger] with_item(s, item)[i] == s[i],
{
    let after = with_item(s, item);
    if keys_of(s).contains(item.entity) {
        let i = keys_of(s).index_of(item.entity);
        assert(keys_of(s)[i] == item.entity);
        assert(after[i] == (item.entity, item));
        assert(keys_of(after) =~= keys_of(s));
        assert forall|a: int, b: int| 0 <= a < b < after.len() implies after[a].0 != after[b].0 by {
            assert(keys_of(after)[a] == keys_of(s)[a]);
            assert(keys_of(after)[b] == keys_of(s)[b]);
            assert(s[a].0 != s[b].0);
        }
    } else {
        assert(after[s.len() as int] == (item.entity, item));
        assert(keys_of(after) =~= keys_of(s).push(item.entity));
        assert forall|a: int, b: int| 0 <= a < b < after.len() implies after[a].0 != after[b].0 by {
            assert(keys_of(s)[a] == s[a].0);
            assert(keys_of(s).contains(s[a].0));
        }
    }
}

/// NaN comes before every number, the zeros are alike, and a sign turns the order round.
pub proof fn float_order_of_signs(bits: u32)
    requires
        bits < 0x8000_0000,
    ensures
        bits > 0x7f80_0000 ==> float_order(bits) < float_order(0xff80_0000),
        bits <= 0x7f80_0000 ==> {
            &&& float_order(0xff80_0000) <= float_order(bits) <= float_order(0x7f80_0000)
            &&& float_order((bits + 0x8000_0000) as u32) == -float_order(bits)
        },
{
}

/// The bits of an IEEE single that is not a number.
pub open spec fn is_nan(bits: u32) -> bool {
    bits as int % 0x8000_0000 > 0x7f80_0000
}

/// Whether a single comes strictly before another: what is no number comes before every
/// number, and numbers come by their value. Below zero the larger magnitude comes first,
/// above zero the smaller one, and the two zeros are alike.
pub open spec fn precedes(a: u32, b: u32) -> bool {
    if is_nan(a) || is_nan(b) {
        is_nan(a) && !is_nan(b)
    } else if a < 0x8000_0000 {
        b < 0x8000_0000 && a < b
    } else if b >= 0x8000_0000 {
        a > b
    } else {
        a > 0x8000_0000 || b > 0
    }
}

/// The keys of two distances stand to each other as the distances do.
pub proof fn sort_keys_compare_as_distances(a: u32, b: u32, key_a: i64, key_b: i64)
    requires
        call_ensures(sort_key, (a,), key_a),
        call_ensures(sort_key, (b,), key_b),
    ensures
        key_a < key_b <==> precedes(a, b),
        key_a > key_b <==> precedes(b, a),
        call_requires(sort_key, (a,)),
{
    orders_compare_as_distances(a, b);
    orders_compare_as_distances(b, a);
}

/// The keys of two draws stand to each other as their distances do.
pub proof fn draws_compare_as_distances(a: PhaseItem, b: PhaseItem, key_a: i64, key_b: i64)
    requires
        call_ensures(PhaseItem::sort_key, (&a,), key_a),
        call_ensures(PhaseItem::sort_key, (&b,), key_b),
    ensures
        key_a < key_b <==> precedes(a.distance, b.distance),
        key_a > key_b <==> precedes(b.distance, a.distance),
        call_requires(PhaseItem::sort_key, (&a,)),
{
    orders_compare_as_distances(a.distance, b.distance);
    orders_compare_as_distances(b.distance, a.distance);
}

/// A draw says of its mesh what it was queued with.
pub proof fn draws_know_their_indices(item: PhaseItem, indexed: bool)
    requires
        call_ensures(PhaseItem::indexed, (&item,), indexed),
    ensures
        indexed <==> item.indexed,
        call_requires(PhaseItem::indexed, (&item,)),
{
}

/// The order of singles is that of their values.
proof fn orders_compare_as_distances(a: u32, b: u32)
    ensures
        float_order(a) < float_order(b) <==> precedes(a, b),
{
}

/// A new phase and a cleared one have no draws, and the length of a phase is the number of
/// its draws.
pub proof fn phases_start_empty(
    fresh: PhaseItems,
    cleared: &mut PhaseItems,
    counted: PhaseItems,
    count: usize,
)
    requires
        call_ensures(new_phase, (), fresh),
        call_ensures(clear, (cleared,), ()),
        call_ensures(len, (&counted,), count),
    ensures
        entries(fresh).len() == 0,
        entries(*final(cleared)).len() == 0,
        count == entries(counted).len(),
{
}

/// Filing a draw under entities that have one replaces that draw where it is, and changes
/// no other.
pub proof fn filing_again_replaces(items: &mut PhaseItems, item: PhaseItem, place: int)
    requires
        call_ensures(add_item, (items, item), ()),
        0 <= place < entries(*old(items)).len(),
        entries(*old(items))[place].0 == item.entity,
        forall|i: int, j: int|
            0 <= i < j < entries(*old(items)).len() ==> entries(*old(items))[i].0 != entries(
                *old(items),
            )[j].0,
    ensures
        entries(*final(items)).len() == entries(*old(items)).len(),
        entries(*final(items))[place] == (item.entity, item),
        forall|i: int|
            0 <= i < entries(*old(items)).len() && i != place ==> #[trigger] entries(
                *final(items),
            )[i] == entries(*old(items))[i],
{
    let before = entries(*old(items));
    assert(keys_of(before)[place] == item.entity);
    let found = keys_of(before).index_of(item.entity);
    assert(keys_of(before)[found] == item.entity);
    assert(before[found].0 == item.entity);
}

/// Filing a draw under entities that have none puts it last, and changes no other.
pub proof fn filing_anew_comes_last(items: &mut PhaseItems, item: PhaseItem)
    requires
        call_ensures(add_item, (items, item), ()),
        forall|i: int|
            0 <= i < entries(*old(items)).len() ==> (#[trigger] entries(*old(items))[i]).0
                != item.entity,
    ensures
        entries(*final(items)).len() == entries(*old(items)).len() + 1,
        entries(*final(items)).last() == (item.entity, item),
        forall|i: int|
            0 <= i < entries(*old(items)).len() ==> #[trigger] entries(*final(items))[i] == entries(
                *old(items),
            )[i],
{
    let before = entries(*old(items));
    if keys_of(before).contains(item.entity) {
        let i = keys_of(before).index_of(item.entity);
        assert(keys_of(before)[i] == before[i].0);
    }
}

/// Filtering by less after filtering by more is filtering by less.
proof fn filters_nest(s: Seq<Entry>, p: spec_fn(Entry) -> bool, q: spec_fn(Entry) -> bool)
    requires
        forall|e: Entry| #[trigger] p(e) ==> q(e),
    ensures
        s.filter(q).filter(p) == s.filter(p),
    decreases s.len(),
{
    reveal(Seq::filter);
    if s.len() > 0 {
        let rest = s.drop_last();
        filters_nest(rest, p, q);
        let e = s.last();
        if q(e) {
            assert(s.filter(q) == rest.filter(q).push(e));
            assert(rest.filter(q).push(e).drop_last() =~= rest.filter(q));
        } else {
            assert(!p(e));
        }
    }
}

/// Neither of two distances comes before the other.
pub open spec fn alike(a: u32, b: u32) -> bool {
    !precedes(a, b) && !precedes(b, a)
}

/// Sorting a phase puts no draw after one that it precedes, loses and adds none, and leaves
/// the draws at each distance in their sequence.
pub proof fn sorting_puts_draws_in_order(items: &mut PhaseItems, i: int, j: int, distance: u32)
    requires
        call_ensures(sort, (items,), ()),
    ensures
        0 <= i < j < entries(*final(items)).len() ==> !precedes(
            entries(*final(items))[j].1.distance,
            entries(*final(items))[i].1.distance,
        ),
        entries(*final(items)).len() == entries(*old(items)).len(),
        entries(*final(items)).to_multiset() == entries(*old(items)).to_multiset(),
        entries(*final(items)).filter(|e: Entry| alike(e.1.distance, distance)) == entries(
            *old(items),
        ).filter(|e: Entry| alike(e.1.distance, distance)),
{
    let before = entries(*old(items));
    let after = entries(*final(items));
    if 0 <= i < j < after.len() {
        assert(entry_order(after[i]) <= entry_order(after[j]));
        orders_compare_as_distances(after[j].1.distance, after[i].1.distance);
    }
    let order = float_order(distance);
    let here = |e: Entry| entry_order(e) == order;
    let exactly = |e: Entry| alike(e.1.distance, distance);
    assert forall|e: Entry| #[trigger] exactly(e) implies here(e) by {
        orders_compare_as_distances(e.1.distance, distance);
        orders_compare_as_distances(distance, e.1.distance);
    }
    assert(at_order(after, order) == at_order(before, order));
    assert(at_order(after, order) == after.filter(here));
    assert(at_order(before, order) == before.filter(here));
    filters_nest(after, exactly, here);
    filters_nest(before, exactly, here);
}

/// Recalculation gives each draw its own distance, to the last bit and with its sign, and
/// changes nothing else of it.
pub proof fn draws_get_their_distances(items: &mut PhaseItems, distances: Vec<u32>, i: int)
    requires
        call_ensures(recalculate_sort_keys, (items, &distances), ()),
        distances@.len() == entries(*old(items)).len(),
        0 <= i < distances@.len(),
    ensures
        entries(*final(items)).len() == distances@.len(),
        entries(*final(items))[i].1.distance == distances@[i],
        entries(*final(items))[i].0 == entries(*old(items))[i].0,
        entries(*final(items))[i].1.sorting_info == entries(*old(items))[i].1.sorting_info,
        entries(*final(items))[i].1.entity == entries(*old(items))[i].1.entity,
        entries(*final(items))[i].1.pipeline == entries(*old(items))[i].1.pipeline,
        entries(*final(items))[i].1.draw_function == entries(*old(items))[i].1.draw_function,
        entries(*final(items))[i].1.batch_range == entries(*old(items))[i].1.batch_range,
        entries(*final(items))[i].1.extra_index == entries(*old(items))[i].1.extra_index,
        entries(*final(items))[i].1.indexed == entries(*old(items))[i].1.indexed,
{
}

/// Recalculated and then sorted, a draw with a smaller distance comes before a draw with a
/// larger one: the more negative one first.
pub proof fn recalculated_draws_are_sorted_by_distance(
    items: &mut PhaseItems,
    distances: Vec<u32>,
    again: &mut PhaseItems,
    i: int,
    j: int,
    p: int,
    q: int,
)
    requires
        call_ensures(recalculate_sort_keys, (items, &distances), ()),
        call_ensures(sort, (again,), ()),
        *old(again) == *final(items),
        distances@.len() == entries(*old(items)).len(),
        forall|a: int, b: int|
            0 <= a < b < entries(*old(items)).len() ==> entries(*old(items))[a].0 != entries(
                *old(items),
            )[b].0,
        0 <= i < distances@.len(),
        0 <= j < distances@.len(),
        precedes(distances@[i], distances@[j]),
        0 <= p < entries(*final(again)).len(),
        0 <= q < entries(*final(again)).len(),
        entries(*final(again))[p].0 == entries(*old(items))[i].0,
        entries(*final(again))[q].0 == entries(*old(items))[j].0,
    ensures
        entries(*final(again))[p].1.distance == distances@[i],
        entries(*final(again))[q].1.distance == distances@[j],
        p < q,
{
    let given = entries(*final(items));
    let after = entries(*final(again));
    sort_keeps_draws(given, after, after[p]);
    sort_keeps_draws(given, after, after[q]);
    assert(after.contains(after[p]) && after.contains(after[q]));
    let a = choose|a: int| 0 <= a < given.len() && given[a] == after[p];
    let b = choose|b: int| 0 <= b < given.len() && given[b] == after[q];
    assert(entries(*old(items))[a].0 == entries(*old(items))[i].0);
    assert(entries(*old(items))[b].0 == entries(*old(items))[j].0);
    assert(a == i && b == j);
    if q < p {
        assert(entry_order(after[q]) <= entry_order(after[p]));
    }
    if q <= p {
        orders_compare_as_distances(distances@[i], distances@[j]);
    }
}

} // verus!
