//! Where a mesh keeps the positions of its vertices.
use vstd::prelude::*;

verus! {

/// `bevy_mesh::MeshVertexBufferLayout`, opaque; see [`attribute_ids`] and
/// [`attribute_count`].
#[verifier::external_type_specification]
#[verifier::external_body]
pub struct ExMeshVertexBufferLayout(bevy_mesh::MeshVertexBufferLayout);

/// `bevy_mesh::VertexBufferLayout`, opaque.
#[verifier::external_type_specification]
#[verifier::external_body]
pub struct ExVertexBufferLayout(bevy_mesh::VertexBufferLayout);

/// `bevy_mesh::MissingVertexAttributeError`, opaque.
#[verifier::external_type_specification]
#[verifier::external_body]
pub struct ExMissingVertexAttributeError(bevy_mesh::MissingVertexAttributeError);

/// `bevy_mesh::MeshVertexAttributeId`, opaque; see [`position_id`].
#[verifier::external_type_specification]
#[verifier::external_body]
pub struct ExMeshVertexAttributeId(bevy_mesh::MeshVertexAttributeId);

/// The ids of the vertex attributes of a mesh.
pub uninterp spec fn attribute_ids(layout: bevy_mesh::MeshVertexBufferLayout) -> Seq<
    bevy_mesh::MeshVertexAttributeId,
>;

/// How many vertex attributes of a mesh have a place in its buffer.
pub uninterp spec fn attribute_count(layout: bevy_mesh::MeshVertexBufferLayout) -> nat;

/// Whether an id is that of vertex positions.
pub uninterp spec fn position_id(id: bevy_mesh::MeshVertexAttributeId) -> bool;

/// The layout of a vertex buffer with the positions of a mesh at a shader location, or why
/// there is none.
pub uninterp spec fn position_buffer(
    layout: bevy_mesh::MeshVertexBufferLayout,
    location: u32,
) -> Result<bevy_mesh::VertexBufferLayout, bevy_mesh::MissingVertexAttributeError>;

/// The vertices of a mesh have positions.
pub open spec fn has_positions(layout: bevy_mesh::MeshVertexBufferLayout) -> bool {
    exists|i: int|
        0 <= i < attribute_ids(layout).len() && #[trigger] position_id(attribute_ids(layout)[i])
}

/// The first positions of a mesh, if it has any, have a place in its buffer.
pub open spec fn positions_have_place(layout: bevy_mesh::MeshVertexBufferLayout) -> bool {
    forall|i: int|
        0 <= i < attribute_ids(layout).len() && #[trigger] position_id(attribute_ids(layout)[i])
            && (forall|j: int|
            0 <= j < i ==> !(#[trigger] position_id(attribute_ids(layout)[j]))) ==> i
            < attribute_count(layout)
}

/// `bevy_mesh::MeshVertexBufferLayout::attribute_ids`: the ids of the vertex attributes.
#[verifier::external_body]
fn layout_attribute_ids(layout: &bevy_mesh::MeshVertexBufferLayout) -> (ids:
    &[bevy_mesh::MeshVertexAttributeId])
    ensures
        ids@ == attribute_ids(*layout),
{
    layout.attribute_ids()
}

/// `bevy_mesh::MeshVertexBufferLayout::layout`: the number of attributes of the buffer that
/// it returns.
#[verifier::external_body]
fn layout_attribute_count(layout: &bevy_mesh::MeshVertexBufferLayout) -> (count: usize)
    ensures
        count == attribute_count(*layout),
{
    layout.layout().attributes.len()
}

/// `bevy_mesh::MeshVertexAttributeId::eq`, with the id of `bevy_mesh::Mesh::ATTRIBUTE_POSITION`:
/// whether an id is that of vertex positions.
#[verifier::external_body]
fn is_position_id(id: &bevy_mesh::MeshVertexAttributeId) -> (position: bool)
    ensures
        position == position_id(*id),
{
    *id == bevy_mesh::Mesh::ATTRIBUTE_POSITION.id
}

/// `bevy_mesh::MeshVertexBufferLayout::get_layout`, with
/// `bevy_mesh::Mesh::ATTRIBUTE_POSITION` at a shader location. The result depends on the
/// layout and the location alone; it is an error exactly if no attribute has the id of
/// positions. The attribute of the buffer that is at the place of the first such id is
/// indexed.
#[verifier::external_body]
pub(crate) fn get_position_layout(layout: &bevy_mesh::MeshVertexBufferLayout, location: u32) -> (buffer:
    Result<bevy_mesh::VertexBufferLayout, bevy_mesh::MissingVertexAttributeError>)
    requires
        positions_have_place(*layout),
    ensures
        buffer == position_buffer(*layout, location),
        buffer is Ok <==> has_positions(*layout),
{
    layout.get_layout(&[bevy_mesh::Mesh::ATTRIBUTE_POSITION.at_shader_location(location)])
}

/// Whether the first positions of a mesh, if it has any, have a place in its buffer.
pub fn check_positions(layout: &bevy_mesh::MeshVertexBufferLayout) -> (have_place: bool)
    ensures
        have_place == positions_have_place(*layout),
{
    let ids = layout_attribute_ids(layout);
    let mut i: usize = 0;
    while i < ids.len()
        invariant
            i <= ids@.len(),
            ids@ == attribute_ids(*layout),
            forall|j: int| 0 <= j < i ==> !(#[trigger] position_id(attribute_ids(*layout)[j])),
        decreases ids@.len() - i,
    {
        if is_position_id(&ids[i]) {
            assert(position_id(attribute_ids(*layout)[i as int]));
            return i < layout_attribute_count(layout);
        }
        i = i + 1;
    }
    true
}

} // verus!
