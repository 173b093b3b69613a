//! Sorted render phases: the draws queued for one view, in draw order.
//!
//! A phase is an [`indexmap::IndexMap`] from the entities of a draw to the draw. Its
//! contents are named by [`entries`]; every contract about a phase speaks of them.
use vstd::prelude::*;

verus! {

/// The entities, as bits, under which a draw is filed: the entity of the render world
/// and the entity of the main world.
pub type ItemKey = (u64, u64);

/// What a mesh is sorted by: its centre and an extra bias, as bits of IEEE singles.
#[derive(Clone, Copy, Debug, PartialEq, Eq)]
pub struct SortingInfo {
    pub mesh_center: (u32, u32, u32),
    pub depth_bias: u32,
}

/// What a draw needs beside its batch range.
#[derive(Clone, Copy, Debug, PartialEq, Eq)]
pub enum ExtraIndex {
    /// Nothing.
    Absent,
    /// The dynamic offset of its uniforms.
    DynamicOffset(u32),
    /// The range of its indirect parameters, and its batch set if it is in one.
    IndirectParameters { range: (u32, u32), batch_set: Option<u32> },
}

/// One draw of a depth peeling phase.
#[derive(Clone, Copy, Debug, PartialEq, Eq)]
pub struct PhaseItem {
    /// What the distance is computed from. The draws of the depth phase have none: they
    /// keep the distance that they were queued with.
    pub sorting_info: Option<SortingInfo>,
    /// Distance to the view, as the bits of an IEEE single.
    pub distance: u32,
    pub entity: ItemKey,
    /// Id of the cached render pipeline.
    pub pipeline: u64,
    /// Id of the draw function.
    pub draw_function: u32,
    /// First instance of the batch, and one past its last.
    pub batch_range: (u32, u32),
    pub extra_index: ExtraIndex,
    /// Whether the mesh has an index buffer.
    pub indexed: bool,
}

/// The draws of one phase of one view.
pub type PhaseItems = indexmap::IndexMap<ItemKey, PhaseItem>;

pub type Entry = (ItemKey, PhaseItem);

/// `indexmap::IndexMap`, opaque; see [`entries`].
#[verifier::external_type_specification]
#[verifier::external_body]
#[verifier::reject_recursive_types(K)]
#[verifier::reject_recursive_types(V)]
#[verifier::reject_recursive_types(S)]
pub struct ExIndexMap<K, V, S>(indexmap::IndexMap<K, V, S>);

/// The key-value pairs of a phase, in the order of the map.
pub uninterp spec fn entries(items: PhaseItems) -> Seq<Entry>;

/// Where the bits of an IEEE single stand in the order that draws are sorted by: NaN, of
/// either sign, before everything else, then from minus to plus infinity, the two zeros
/// alike.
pub open spec fn float_order(bits: u32) -> int {
    let magnitude = bits as int % 0x8000_0000;
    if magnitude > 0x7f80_0000 {
        -0x8000_0000
    } else if bits >= 0x8000_0000 {
        -magnitude
    } else {
        magnitude
    }
}

/// Place of an entry in the order that draws are sorted by.
pub open spec fn entry_order(entry: Entry) -> int {
    float_order(entry.1.distance)
}

/// No draw is farther along the order than one after it.
pub open spec fn sorted(s: Seq<Entry>) -> bool {
    forall|i: int, j: int| 0 <= i <= j < s.len() ==> entry_order(s[i]) <= entry_order(s[j])
}

/// The draws at one place of the order, in their sequence.
pub open spec fn at_order(s: Seq<Entry>, order: int) -> Seq<Entry> {
    s.filter(|entry: Entry| entry_order(entry) == order)
}

/// `after` is `before` sorted stably: in order, with the draws at each place of the order
/// the same and in the same sequence.
pub open spec fn stably_sorted(before: Seq<Entry>, after: Seq<Entry>) -> bool {
    &&& sorted(after)
    &&& forall|order: int| #[trigger] at_order(after, order) == at_order(before, order)
}

pub open spec fn keys_of(s: Seq<Entry>) -> Seq<ItemKey> {
    s.map_values(|entry: Entry| entry.0)
}

/// Each key is there once.
pub open spec fn distinct_keys(s: Seq<Entry>) -> bool {
    forall|i: int, j: int| 0 <= i < j < s.len() ==> s[i].0 != s[j].0
}

/// `s` with `item` filed under its entities: in the place of the draw that had them, or
/// else last.
pub open spec fn with_item(s: Seq<Entry>, item: PhaseItem) -> Seq<Entry> {
    if keys_of(s).contains(item.entity) {
        s.update(keys_of(s).index_of(item.entity), (item.entity, item))
    } else {
        s.push((item.entity, item))
    }
}

/// `indexmap::IndexMap::new`: a map without entries.
#[verifier::external_body]
fn index_map_new() -> (items: PhaseItems)
    ensures
        entries(items) == Seq::<Entry>::empty(),
{
    PhaseItems::new()
}

/// `indexmap::IndexMap::clear`: removes all key-value pairs.
#[verifier::external_body]
fn index_map_clear(items: &mut PhaseItems)
    ensures
        entries(*final(items)) == Seq::<Entry>::empty(),
{
    items.clear();
}

/// `indexmap::IndexMap::len`: the number of key-value pairs.
#[verifier::external_body]
fn index_map_len(items: &PhaseItems) -> (len: usize)
    ensures
        len == entries(*items).len(),
{
    items.len()
}

/// `indexmap::IndexMap::insert`: a key that is there keeps its place and gets the new
/// value, another key comes last. The value that was replaced is dropped.
#[verifier::external_body]
fn index_map_insert(items: &mut PhaseItems, key: ItemKey, value: PhaseItem)
    ensures
        forall|i: int|
            0 <= i < entries(*old(items)).len() && (#[trigger] entries(*old(items))[i]).0 == key
                ==> entries(*final(items)) == entries(*old(items)).update(i, (key, value)),
        !keys_of(entries(*old(items))).contains(key) ==> entries(*final(items)) == entries(
            *old(items),
        ).push((key, value)),
        distinct_keys(entries(*final(items))),
{
    items.insert(key, value);
}

/// `indexmap::IndexMap::get_index_mut`: the value at an index. The key at that index and
/// the other pairs stay as they are.
#[verifier::external_body]
fn index_map_value_mut(items: &mut PhaseItems, index: usize) -> (value: &mut PhaseItem)
    requires
        index < entries(*old(items)).len(),
    ensures
        *value == entries(*old(items))[index as int].1,
        entries(*final(items)) == entries(*old(items)).update(
            index as int,
            (entries(*old(items))[index as int].0, *final(value)),
        ),
{
    items.get_index_mut(index).unwrap().1
}

/// `indexmap::IndexMap::sort_by_key` with the sort key of each draw: sorts the pairs, and
/// is stable.
#[verifier::external_body]
fn index_map_sort_by_key(items: &mut PhaseItems)
    ensures
        stably_sorted(entries(*old(items)), entries(*final(items))),
        entries(*final(items)).len() == entries(*old(items)).len(),
        entries(*final(items)).to_multiset() == entries(*old(items)).to_multiset(),
        distinct_keys(entries(*final(items))),
{
    items.sort_by_key(|_, item| item.sort_key());
}

/// What a draw at a distance is sorted by: the draws with the smallest keys come first.
pub fn sort_key(distance: u32) -> (key: i64)
    ensures
        key == float_order(distance),
{
    let magnitude: i64 = (distance % 0x8000_0000) as i64;
    if magnitude > 0x7f80_0000 {
        -0x8000_0000
    } else if distance >= 0x8000_0000 {
        -magnitude
    } else {
        magnitude
    }
}

impl PhaseItem {
    /// What the draw is sorted by.
    pub fn sort_key(&self) -> (key: i64)
        ensures
            key == float_order(self.distance),
    {
        sort_key(self.distance)
    }

    /// Whether the draw is of an indexed mesh.
    pub fn indexed(&self) -> (indexed: bool)
        ensures
            indexed == self.indexed,
    {
        self.indexed
    }
}

/// A phase without draws.
pub fn new_phase() -> (items: PhaseItems)
    ensures
        entries(items) == Seq::<Entry>::empty(),
{
    index_map_new()
}

/// Takes all draws out of a phase.
pub fn clear(items: &mut PhaseItems)
    ensures
        entries(*final(items)) == Seq::<Entry>::empty(),
{
    index_map_clear(items)
}

/// The number of draws in a phase.
pub fn len(items: &PhaseItems) -> (len: usize)
    ensures
        len == entries(*items).len(),
{
    index_map_len(items)
}

/// Files a draw in a phase under its entities.
pub fn add_item(items: &mut PhaseItems, item: PhaseItem)
    ensures
        entries(*final(items)) == with_item(entries(*old(items)), item),
        distinct_keys(entries(*final(items))),
{
    let ghost before = entries(*items);
    index_map_insert(items, item.entity, item);
    proof {
        if keys_of(before).contains(item.entity) {
            let i = keys_of(before).index_of(item.entity);
            assert(keys_of(before)[i] == item.entity);
            assert(before[i].0 == item.entity);
        }
    }
}

/// Puts the draws of a phase in order of their sort keys; draws with the same key stay in
/// sequence.
pub fn sort(items: &mut PhaseItems)
    ensures
        stably_sorted(entries(*old(items)), entries(*final(items))),
        entries(*final(items)).len() == entries(*old(items)).len(),
        entries(*final(items)).to_multiset() == entries(*old(items)).to_multiset(),
        distinct_keys(entries(*final(items))),
{
    index_map_sort_by_key(items)
}

/// `s` with new distances, one for each draw in its sequence.
pub open spec fn with_distances(s: Seq<Entry>, distances: Seq<u32>) -> Seq<Entry> {
    s.map(|i: int, entry: Entry| (entry.0, PhaseItem { distance: distances[i], ..entry.1 }))
}

/// Gives each draw of the colour phase its distance to the view. `distances` holds, in
/// the sequence of the draws, the distance computed from the sorting information of each.
pub fn recalculate_sort_keys(items: &mut PhaseItems, distances: &Vec<u32>)
    requires
        distances@.len() == entries(*old(items)).len(),
    ensures
        entries(*final(items)) == with_distances(entries(*old(items)), distances@),
{
    let ghost before = entries(*items);
    let count: usize = distances.len();
    let mut i: usize = 0;
    while i < count
        invariant
            i <= count == distances@.len() == before.len(),
            entries(*items).len() == before.len(),
            forall|j: int|
                0 <= j < i ==> #[trigger] entries(*items)[j] == with_distances(
                    before,
                    distances@,
                )[j],
            forall|j: int| i <= j < count ==> #[trigger] entries(*items)[j] == before[j],
        decreases count - i,
    {
        let item = index_map_value_mut(items, i);
        item.distance = distances[i];
        i = i + 1;
    }
    assert(entries(*items) =~= with_distances(before, distances@));
}

} // verus!
