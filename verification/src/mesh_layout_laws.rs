//! Laws of vertex layouts.
use vstd::prelude::*;
use crate::mesh_layout::{attribute_count, attribute_ids, check_positions, position_id};

verus! {

/// Positions have a place exactly if the first of them that is listed is among the
/// attributes of the buffer.
pub proof fn first_positions_decide(
    layout: bevy_mesh::MeshVertexBufferLayout,
    have_place: bool,
    first: int,
)
    requires
        call_ensures(check_positions, (&layout,), have_place),
        0 <= first < attribute_ids(layout).len(),
        position_id(attribute_ids(layout)[first]),
        forall|i: int| 0 <= i < first ==> !position_id(#[trigger] attribute_ids(layout)[i]),
    ensures
        have_place <==> first < attribute_count(layout),
        call_requires(check_positions, (&layout,)),
{
    let ids = attribute_ids(layout);
    assert forall|i: int|
        0 <= i < ids.len() && #[trigger] position_id(ids[i]) && (forall|j: int|
            0 <= j < i ==> !(#[trigger] position_id(ids[j]))) implies i == first by {
        if i < first {
            assert(!position_id(ids[i]));
        }
        if first < i {
            assert(!position_id(ids[first]));
        }
    }
    assert forall|j: int| 0 <= j < first implies !(#[trigger] position_id(ids[j])) by {
        assert(!position_id(attribute_ids(layout)[j]));
    }
}

/// A mesh without positions has none out of place.
pub proof fn no_positions_are_in_place(
    layout: bevy_mesh::MeshVertexBufferLayout,
    have_place: bool,
)
    requires
        call_ensures(check_positions, (&layout,), have_place),
        forall|i: int|
            0 <= i < attribute_ids(layout).len() ==> !position_id(#[trigger] attribute_ids(layout)[i]),
    ensures
        have_place,
{
    let ids = attribute_ids(layout);
    assert forall|i: int| 0 <= i < ids.len() implies !(#[trigger] position_id(ids[i])) by {
        assert(!position_id(attribute_ids(layout)[i]));
    }
}

} // verus!
