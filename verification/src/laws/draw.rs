//! Of the meshes of a frame.
use vstd::prelude::*;

use crate::command::{Command, Handle};
use crate::config::{INDEX_BUFFER_BYTES, INDEX_SIZE, VERTEX_BUFFER_BYTES, VERTEX_SIZE};
use crate::integration::IntegrationModel;
use crate::integration::draw::{
    draw_error, draw_script, first_error, frame_commands, indices_before, indices_of,
    primitive_commands, primitive_error, primitives_commands, room_after, verdict, vertices_before,
    vertices_of, Primitive,
};

verus! {

/// A frame is recorded if and only if its swapchain image exists and each
/// primitive can be painted behind those before it.
pub proof fn law_frame_is_recorded_iff_every_primitive_can_be_painted(
    model: IntegrationModel,
    image_index: usize,
    primitives: Seq<Primitive>,
)
    ensures
        draw_error(model, image_index, primitives) is None <==> image_index
            < model.vertex_buffers.len() && forall|i: nat|
            i < primitives.len() ==> (#[trigger] primitive_error(model, primitives, i)) is None,
{
    if image_index < model.vertex_buffers.len() {
        if first_error(model, primitives, primitives.len()) is None {
            assert forall|i: nat| i < primitives.len() implies (#[trigger] primitive_error(
                model,
                primitives,
                i,
            )) is None by {
                lemma_error_free_prefix(model, primitives, i + 1, primitives.len());
            }
        } else {
            lemma_error_has_cause(model, primitives, primitives.len());
        }
    }
}

/// Without an error among the first `n` primitives there is none among fewer.
proof fn lemma_error_free_prefix(
    model: IntegrationModel,
    primitives: Seq<Primitive>,
    m: nat,
    n: nat,
)
    requires
        m <= n,
        first_error(model, primitives, n) is None,
    ensures
        first_error(model, primitives, m) is None,
    decreases n - m,
{
    if m < n {
        lemma_error_free_prefix(model, primitives, m, (n - 1) as nat);
    }
}

/// An error among the first `n` primitives is that of one of them.
proof fn lemma_error_has_cause(model: IntegrationModel, primitives: Seq<Primitive>, n: nat)
    requires
        first_error(model, primitives, n) is Some,
    ensures
        exists|i: nat|
            i < n && (#[trigger] primitive_error(model, primitives, i)) == first_error(
                model,
                primitives,
                n,
            ),
    decreases n,
{
    if first_error(model, primitives, (n - 1) as nat) is Some {
        lemma_error_has_cause(model, primitives, (n - 1) as nat);
        let i = choose|i: nat|
            i < (n - 1) as nat && (#[trigger] primitive_error(model, primitives, i))
                == first_error(model, primitives, (n - 1) as nat);
        assert(primitive_error(model, primitives, i) == first_error(model, primitives, n));
    } else {
        assert(primitive_error(model, primitives, (n - 1) as nat) == first_error(
            model,
            primitives,
            n,
        ));
    }
}

proof fn lemma_counts_grow(
    model: IntegrationModel,
    primitives: Seq<Primitive>,
    m: nat,
    n: nat,
)
    requires
        m <= n,
    ensures
        vertices_before(model, primitives, m) <= vertices_before(model, primitives, n),
        indices_before(model, primitives, m) <= indices_before(model, primitives, n),
    decreases n - m,
{
    if m < n {
        lemma_counts_grow(model, primitives, m, (n - 1) as nat);
    }
}

/// The meshes drawn in a frame lie one behind the other in the buffers: no two
/// of them share a vertex or an index.
pub proof fn law_meshes_do_not_overlap(
    model: IntegrationModel,
    primitives: Seq<Primitive>,
    i: nat,
    j: nat,
)
    requires
        i < j < primitives.len(),
    ensures
        vertices_before(model, primitives, i) + vertices_of(model, primitives[i as int])
            <= vertices_before(model, primitives, j),
        indices_before(model, primitives, i) + indices_of(model, primitives[i as int])
            <= indices_before(model, primitives, j),
{
    lemma_counts_grow(model, primitives, i + 1, j);
}

/// In a frame that is recorded, whatever a mesh writes lies inside the buffers.
pub proof fn law_meshes_stay_in_the_buffers(
    model: IntegrationModel,
    image_index: usize,
    primitives: Seq<Primitive>,
    i: nat,
)
    requires
        draw_error(model, image_index, primitives) is None,
        i < primitives.len(),
        verdict(model, primitives[i as int]) is Draw,
    ensures
        (vertices_before(model, primitives, i) + primitives[i as int]->Mesh_0.vertex_count)
            * VERTEX_SIZE < VERTEX_BUFFER_BYTES,
        (indices_before(model, primitives, i) + primitives[i as int]->Mesh_0.index_count)
            * INDEX_SIZE < INDEX_BUFFER_BYTES,
{
    law_frame_is_recorded_iff_every_primitive_can_be_painted(model, image_index, primitives);
    assert(primitive_error(model, primitives, i) is None);
    assert(room_after(model, primitives, i + 1));
    assert(vertices_before(model, primitives, i + 1) == vertices_before(model, primitives, i)
        + vertices_of(model, primitives[i as int]));
    assert(indices_before(model, primitives, i + 1) == indices_before(model, primitives, i)
        + indices_of(model, primitives[i as int]));
}

/// A draw call reads what was written for its mesh: what is written goes to the
/// memory of the swapchain image's buffers, the first vertex and index are those at the
/// offsets written to, and as many indices are drawn as were written.
pub proof fn law_draw_reads_what_was_written(
    model: IntegrationModel,
    image_index: usize,
    primitives: Seq<Primitive>,
    i: nat,
)
    requires
        draw_error(model, image_index, primitives) is None,
        i < primitives.len() <= usize::MAX,
        verdict(model, primitives[i as int]) is Draw,
    ensures
        ({
            let mesh = primitives[i as int]->Mesh_0;
            let commands = primitive_commands(model, image_index, primitives, i);
            &&& commands.len() == 5
            &&& commands[1] matches Command::WriteVertices {
                mesh: vertex_mesh,
                allocation: vertex_memory,
                offset: vertex_offset_bytes,
                size: vertex_bytes,
            }
            &&& commands[2] matches Command::WriteIndices {
                mesh: index_mesh,
                allocation: index_memory,
                offset: index_offset_bytes,
                size: index_bytes,
            }
            &&& commands[3] == Command::SetScissor { mesh: i as usize }
            &&& commands[4] matches Command::DrawIndexed {
                index_count,
                first_index,
                vertex_offset,
            }
            &&& vertex_mesh == i && index_mesh == i
            &&& vertex_memory == Handle::Known(model.vertex_buffer_allocations[image_index as int])
            &&& index_memory == Handle::Known(model.index_buffer_allocations[image_index as int])
            &&& vertex_offset * VERTEX_SIZE == vertex_offset_bytes
            &&& first_index * INDEX_SIZE == index_offset_bytes
            &&& index_count * INDEX_SIZE == index_bytes
            &&& index_count == mesh.index_count
            &&& vertex_bytes == mesh.vertex_count * VERTEX_SIZE
        }),
{
    law_meshes_stay_in_the_buffers(model, image_index, primitives, i);
}

/// A mesh without triangles, or whose user texture was unregistered, takes no
/// room, and is not drawn.
pub proof fn law_left_out_meshes_take_no_room(
    model: IntegrationModel,
    image_index: usize,
    primitives: Seq<Primitive>,
    i: nat,
)
    requires
        i < primitives.len(),
        verdict(model, primitives[i as int]) is Skip || verdict(
            model,
            primitives[i as int],
        ) is Stale,
    ensures
        vertices_before(model, primitives, i + 1) == vertices_before(model, primitives, i),
        indices_before(model, primitives, i + 1) == indices_before(model, primitives, i),
        primitive_error(model, primitives, i) is None,
        forall|k: int|
            0 <= k < primitive_commands(model, image_index, primitives, i).len() ==> (
            #[trigger] primitive_commands(model, image_index, primitives, i)[k]) is Report,
{
}

/// The commands of `part` stand in the script one behind the other from `at`
/// on.
pub open spec fn stands_at(script: Seq<Command>, part: Seq<Command>, at: int) -> bool {
    0 <= at && at + part.len() <= script.len() && script.subrange(at, at + part.len()) == part
}

/// The commands of each primitive stand in the frame together, behind those
/// that all meshes share.
pub proof fn law_frame_draws_every_mesh(
    model: IntegrationModel,
    image_index: usize,
    width_points: u32,
    height_points: u32,
    primitives: Seq<Primitive>,
    i: nat,
)
    requires
        i < primitives.len(),
    ensures
        exists|at: int|
            frame_commands(model, image_index, width_points, height_points).len() <= at
                && #[trigger] stands_at(
                draw_script(model, image_index, width_points, height_points, primitives),
                primitive_commands(model, image_index, primitives, i),
                at,
            ),
{
    let head = frame_commands(model, image_index, width_points, height_points);
    let script = draw_script(model, image_index, width_points, height_points, primitives);
    let part = primitive_commands(model, image_index, primitives, i);
    lemma_commands_split(model, image_index, primitives, i, primitives.len());
    let tail = choose|tail: Seq<Command>|
        primitives_commands(model, image_index, primitives, primitives.len()) == #[trigger] (
        primitives_commands(model, image_index, primitives, i + 1) + tail);
    let before = head + primitives_commands(model, image_index, primitives, i);
    assert(script =~= (before + part) + tail);
    let at = before.len() as int;
    assert(script.subrange(at, at + part.len()) =~= part);
    assert(stands_at(script, part, at));
}

proof fn lemma_commands_split(
    model: IntegrationModel,
    image_index: usize,
    primitives: Seq<Primitive>,
    i: nat,
    n: nat,
)
    requires
        i < n,
    ensures
        exists|tail: Seq<Command>|
            primitives_commands(model, image_index, primitives, n) == #[trigger] (primitives_commands(
                model,
                image_index,
                primitives,
                i + 1,
            ) + tail),
    decreases n - i,
{
    if n == i + 1 {
        assert(primitives_commands(model, image_index, primitives, n) =~= primitives_commands(
            model,
            image_index,
            primitives,
            i + 1,
        ) + Seq::<Command>::empty());
    } else {
        lemma_commands_split(model, image_index, primitives, i, (n - 1) as nat);
        let tail = choose|tail: Seq<Command>|
            primitives_commands(model, image_index, primitives, (n - 1) as nat) == #[trigger] (
            primitives_commands(model, image_index, primitives, i + 1) + tail);
        let longer = tail + primitive_commands(model, image_index, primitives, (n - 1) as nat);
        assert(primitives_commands(model, image_index, primitives, n) =~= primitives_commands(
            model,
            image_index,
            primitives,
            i + 1,
        ) + longer);
    }
}

} // verus!
