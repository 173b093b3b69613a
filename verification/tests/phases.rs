use bevy_math::FloatOrd;
use depth_peeling::phase::{
    add_item, clear, len, new_phase, recalculate_sort_keys, sort, ExtraIndex, PhaseItem, PhaseItems,
    SortingInfo,
};

fn draw(entity: u64, distance: f32) -> PhaseItem {
    PhaseItem {
        sorting_info: Some(SortingInfo { mesh_center: (0, 0, 0), depth_bias: 0 }),
        distance: distance.to_bits(),
        entity: (1, entity),
        pipeline: 10 + entity,
        draw_function: 3,
        batch_range: (0, 1),
        extra_index: ExtraIndex::Absent,
        indexed: entity % 2 == 0,
    }
}

fn order(items: &PhaseItems) -> Vec<u64> {
    items.keys().map(|key| key.1).collect()
}

#[test]
fn sort_key_orders_as_float_ord() {
    let values = [
        f32::NAN,
        -f32::NAN,
        f32::NEG_INFINITY,
        f32::MIN,
        -1.5,
        -f32::MIN_POSITIVE,
        -1e-45,
        -0.0,
        0.0,
        1e-45,
        f32::MIN_POSITIVE,
        1.0,
        1.5,
        f32::MAX,
        f32::INFINITY,
    ];
    for a in values {
        for b in values {
            let ours = draw(0, a).sort_key().cmp(&draw(0, b).sort_key());
            assert_eq!(ours, FloatOrd(a).cmp(&FloatOrd(b)), "{a} {b}");
        }
    }
}

#[test]
fn sort_key_of_exact_bits() {
    assert_eq!(draw(0, 0.0).sort_key(), 0);
    assert_eq!(draw(0, -0.0).sort_key(), 0);
    assert_eq!(draw(0, 1.0).sort_key(), 0x3f80_0000);
    assert_eq!(draw(0, -1.0).sort_key(), -0x3f80_0000);
    assert_eq!(draw(0, f32::INFINITY).sort_key(), 0x7f80_0000);
    assert_eq!(draw(0, f32::NAN).sort_key(), -0x8000_0000);
    assert!(draw(2, 0.0).indexed());
    assert!(!draw(3, 0.0).indexed());
}

#[test]
fn sort_is_by_distance_and_stable() {
    let mut items = new_phase();
    for (entity, distance) in [(1, 2.0), (2, -1.0), (3, 2.0), (4, 0.0), (5, -1.0), (6, -0.0)] {
        add_item(&mut items, draw(entity, distance));
    }
    sort(&mut items);
    assert_eq!(order(&items), vec![2, 5, 4, 6, 1, 3]);
    sort(&mut items);
    assert_eq!(order(&items), vec![2, 5, 4, 6, 1, 3]);
    assert_eq!(len(&items), 6);
    assert_eq!(items[&(1, 3)], draw(3, 2.0));
}

#[test]
fn sort_keeps_draws_at_one_distance() {
    let mut items = new_phase();
    for entity in [9, 4, 7, 1] {
        add_item(&mut items, draw(entity, 0.0));
    }
    sort(&mut items);
    assert_eq!(order(&items), vec![9, 4, 7, 1]);
}

#[test]
fn adding_an_entity_again_replaces_its_draw_in_place() {
    let mut items = new_phase();
    add_item(&mut items, draw(1, 1.0));
    add_item(&mut items, draw(2, 2.0));
    add_item(&mut items, draw(1, 3.0));
    assert_eq!(order(&items), vec![1, 2]);
    assert_eq!(items[&(1, 1)].distance, 3.0f32.to_bits());
    assert_eq!(len(&items), 2);
}

#[test]
fn clearing_takes_all_draws_out() {
    let mut items = new_phase();
    assert_eq!(len(&items), 0);
    add_item(&mut items, draw(1, 1.0));
    assert_eq!(len(&items), 1);
    clear(&mut items);
    assert_eq!(len(&items), 0);
}

#[test]
fn new_distances_go_to_the_draws_in_sequence() {
    let mut items = new_phase();
    for entity in [5, 6, 7] {
        add_item(&mut items, draw(entity, 0.0));
    }
    let distances = vec![3.0f32.to_bits(), 1.0f32.to_bits(), 2.0f32.to_bits()];
    recalculate_sort_keys(&mut items, &distances);
    assert_eq!(order(&items), vec![5, 6, 7]);
    assert_eq!(items[&(1, 5)], draw(5, 3.0));
    assert_eq!(items[&(1, 6)], draw(6, 1.0));
    assert_eq!(items[&(1, 7)], draw(7, 2.0));
    sort(&mut items);
    assert_eq!(order(&items), vec![6, 7, 5]);
}
