//! Of what a frame is made of: command by command, over the meshes and the
//! renderer.
use vstd::prelude::*;

use crate::command::{Command, Handle, Notice};
use crate::integration::IntegrationModel;
use crate::integration::draw::{
    draw_error, draw_script, first_error, frame_commands, indices_before, indices_of,
    primitive_commands, primitive_error, primitives_commands, verdict, vertices_before,
    vertices_of, DrawError, MeshInfo, Primitive, Verdict,
};
use crate::laws::draw::{
    law_frame_draws_every_mesh, law_frame_is_recorded_iff_every_primitive_can_be_painted,
    stands_at,
};
use crate::texture::TextureKey;

verus! {

/// The descriptor set that shows a texture to shaders: that in the slot of a
/// user texture, or that of a managed one.
pub open spec fn set_of_texture(model: IntegrationModel, texture: TextureKey) -> Option<u64> {
    match texture {
        TextureKey::User(id) => if (id as usize) < model.user_textures.len() {
            model.user_textures[(id as usize) as int]
        } else {
            None
        },
        TextureKey::Managed(_) => if model.textures.descriptor_sets.contains_key(texture) {
            Some(model.textures.descriptor_sets[texture])
        } else {
            None
        },
    }
}

/// The mesh has triangles.
pub open spec fn has_triangles(mesh: MeshInfo) -> bool {
    mesh.vertex_count > 0 && mesh.index_count > 0
}

/// A mesh with triangles is drawn with the descriptor set of its texture.
/// Without one it is left out if its texture was a user's and is so no longer,
/// and fails otherwise. A mesh without triangles is skipped, and a callback
/// fails.
pub proof fn law_texture_decides_what_is_done(model: IntegrationModel, mesh: MeshInfo)
    ensures
        verdict(model, Primitive::Callback) == Verdict::Fail(DrawError::CallbackUnsupported),
        !has_triangles(mesh) ==> verdict(model, Primitive::Mesh(mesh)) == Verdict::Skip,
        has_triangles(mesh) ==> match set_of_texture(model, mesh.texture) {
            Some(set) => verdict(model, Primitive::Mesh(mesh)) == Verdict::Draw(set),
            None => match mesh.texture {
                TextureKey::User(id) => verdict(model, Primitive::Mesh(mesh)) == (if (id as usize)
                    < model.user_textures.len() {
                    Verdict::Stale(mesh.texture)
                } else {
                    Verdict::Fail(DrawError::UnknownUserTexture)
                }),
                TextureKey::Managed(_) => verdict(model, Primitive::Mesh(mesh)) == Verdict::Fail(
                    DrawError::UnknownTexture,
                ),
            },
        },
{
}

/// Only a mesh that is drawn takes room in the buffers: as many vertices and
/// indices as it has. The first finds the buffers empty.
pub proof fn law_drawn_meshes_take_their_room(
    model: IntegrationModel,
    primitives: Seq<Primitive>,
    i: nat,
)
    ensures
        vertices_before(model, primitives, 0) == 0,
        indices_before(model, primitives, 0) == 0,
        ({
            let vertices = vertices_before(model, primitives, i + 1) - vertices_before(
                model,
                primitives,
                i,
            );
            let indices = indices_before(model, primitives, i + 1) - indices_before(
                model,
                primitives,
                i,
            );
            match primitives[i as int] {
                Primitive::Mesh(mesh) => if has_triangles(mesh) && set_of_texture(
                    model,
                    mesh.texture,
                ) is Some {
                    vertices == mesh.vertex_count && indices == mesh.index_count
                } else {
                    vertices == 0 && indices == 0
                },
                Primitive::Callback => vertices == 0 && indices == 0,
            }
        }),
{
}

/// What is wrong with a primitive: it is a callback, its texture is not known,
/// or the buffers are too small for it. A vertex takes twenty bytes of four
/// megabytes, an index four of two, and neither buffer is ever quite full.
pub proof fn law_primitives_fail_for_these_reasons(
    model: IntegrationModel,
    primitives: Seq<Primitive>,
    i: nat,
)
    ensures
        primitive_error(model, primitives, i) == (match primitives[i as int] {
            Primitive::Callback => Some(DrawError::CallbackUnsupported),
            Primitive::Mesh(mesh) => if !has_triangles(mesh) {
                None
            } else if set_of_texture(model, mesh.texture) is Some {
                if (vertices_before(model, primitives, i) + mesh.vertex_count) * 20 >= 4194304 || (
                indices_before(model, primitives, i) + mesh.index_count) * 4 >= 2097152 {
                    Some(DrawError::OutOfMemory)
                } else {
                    None
                }
            } else {
                match mesh.texture {
                    TextureKey::Managed(_) => Some(DrawError::UnknownTexture),
                    TextureKey::User(id) => if (id as usize) < model.user_textures.len() {
                        None
                    } else {
                        Some(DrawError::UnknownUserTexture)
                    },
                }
            },
        }),
{
    assert(vertices_before(model, primitives, i + 1) == vertices_before(model, primitives, i)
        + vertices_of(model, primitives[i as int]));
    assert(indices_before(model, primitives, i + 1) == indices_before(model, primitives, i)
        + indices_of(model, primitives[i as int]));
}

/// The error of a frame is that of the first primitive that fails, unless the
/// swapchain image is not there at all.
pub proof fn law_first_failure_is_the_error(
    model: IntegrationModel,
    image_index: usize,
    primitives: Seq<Primitive>,
    i: nat,
)
    requires
        i < primitives.len(),
        primitive_error(model, primitives, i) is Some,
        forall|j: nat| j < i ==> (#[trigger] primitive_error(model, primitives, j)) is None,
    ensures
        draw_error(model, image_index, primitives) == (if image_index
            >= model.vertex_buffers.len() {
            Some(DrawError::NoSwapchainImage)
        } else {
            primitive_error(model, primitives, i)
        }),
{
    lemma_no_error_before(model, primitives, i);
    assert(first_error(model, primitives, i + 1) == primitive_error(model, primitives, i));
    lemma_error_remains(model, primitives, i + 1, primitives.len());
}

proof fn lemma_no_error_before(model: IntegrationModel, primitives: Seq<Primitive>, n: nat)
    requires
        forall|j: nat| j < n ==> (#[trigger] primitive_error(model, primitives, j)) is None,
    ensures
        first_error(model, primitives, n) is None,
    decreases n,
{
    if n > 0 {
        lemma_no_error_before(model, primitives, (n - 1) as nat);
        assert(primitive_error(model, primitives, (n - 1) as nat) is None);
    }
}

proof fn lemma_error_remains(
    model: IntegrationModel,
    primitives: Seq<Primitive>,
    m: nat,
    n: nat,
)
    requires
        m <= n,
        first_error(model, primitives, m) is Some,
    ensures
        first_error(model, primitives, n) == first_error(model, primitives, m),
    decreases n - m,
{
    if m < n {
        lemma_error_remains(model, primitives, m, (n - 1) as nat);
    }
}

/// Every frame starts by binding the renderer's pipeline and the buffers of its
/// swapchain image, by setting the viewport to the size in pixels, and by telling
/// the vertex shader the size in points: the width first, and the height four
/// bytes behind it.
pub proof fn law_frame_starts_with_its_state(
    model: IntegrationModel,
    image_index: usize,
    width_points: u32,
    height_points: u32,
    primitives: Seq<Primitive>,
)
    ensures
        ({
            let script = draw_script(
                model,
                image_index,
                width_points,
                height_points,
                primitives,
            );
            &&& script.len() >= 6
            &&& script[0] matches Command::BindPipeline { pipeline }
            &&& script[1] matches Command::BindVertexBuffer { buffer: vertices }
            &&& script[2] matches Command::BindIndexBuffer { buffer: indices }
            &&& script[3] matches Command::SetViewport { width, height }
            &&& script[4] matches Command::PushConstants {
                layout: first_layout,
                offset: first_offset,
                word: first_word,
            }
            &&& script[5] matches Command::PushConstants {
                layout: second_layout,
                offset: second_offset,
                word: second_word,
            }
            &&& pipeline == Handle::Known(model.pipeline)
            &&& vertices == Handle::Known(model.vertex_buffers[image_index as int])
            &&& indices == Handle::Known(model.index_buffers[image_index as int])
            &&& width == model.physical_width && height == model.physical_height
            &&& first_layout == Handle::Known(model.pipeline_layout)
            &&& first_offset == 0 && first_word == width_points
            &&& second_layout == first_layout
            &&& second_offset == 4 && second_word == height_points
        }),
{
}

/// From here on the script draws the mesh with this index with this descriptor
/// set, behind so many vertices and indices, on the swapchain image.
pub open spec fn draws_mesh_at(
    script: Seq<Command>,
    at: int,
    model: IntegrationModel,
    image_index: usize,
    i: nat,
    mesh: MeshInfo,
    set: u64,
    vertices: nat,
    indices: nat,
) -> bool {
    &&& 6 <= at <= script.len() - 5
    &&& script[at] == Command::BindDescriptorSet {
        layout: Handle::Known(model.pipeline_layout),
        descriptor_set: Handle::Known(set),
    }
    &&& script[at + 1] matches Command::WriteVertices {
        mesh: vertex_mesh,
        allocation: vertex_memory,
        offset: vertex_offset,
        size: vertex_size,
    }
    &&& script[at + 2] matches Command::WriteIndices {
        mesh: index_mesh,
        allocation: index_memory,
        offset: index_offset,
        size: index_size,
    }
    &&& script[at + 3] matches Command::SetScissor { mesh: clipped }
    &&& script[at + 4] matches Command::DrawIndexed {
        index_count,
        first_index,
        vertex_offset: first_vertex,
    }
    &&& vertex_mesh == i && index_mesh == i && clipped == i
    &&& vertex_memory == Handle::Known(
        model.vertex_buffer_allocations[image_index as int],
    )
    &&& index_memory == Handle::Known(
        model.index_buffer_allocations[image_index as int],
    )
    &&& vertex_offset == 20 * vertices && vertex_size == 20 * mesh.vertex_count
    &&& index_offset == 4 * indices && index_size == 4 * mesh.index_count
    &&& index_count == mesh.index_count
    &&& first_index == indices
    &&& first_vertex == vertices
}

/// In a frame that is recorded, a mesh with triangles whose texture has a
/// descriptor set is drawn: that set is bound, its vertices and indices are
/// copied behind those of the meshes before it into the memory of the buffers
/// that are bound, its clip rectangle is set, and all its indices are drawn from
/// where they, and their vertices, start.
pub proof fn law_mesh_is_drawn_with_its_texture(
    model: IntegrationModel,
    image_index: usize,
    width_points: u32,
    height_points: u32,
    primitives: Seq<Primitive>,
    i: nat,
    mesh: MeshInfo,
    set: u64,
)
    requires
        i < primitives.len() <= usize::MAX,
        primitives[i as int] == Primitive::Mesh(mesh),
        has_triangles(mesh),
        set_of_texture(model, mesh.texture) == Some(set),
        draw_error(model, image_index, primitives) is None,
    ensures
        exists|at: int|
            #[trigger] draws_mesh_at(
                draw_script(model, image_index, width_points, height_points, primitives),
                at,
                model,
                image_index,
                i,
                mesh,
                set,
                vertices_before(model, primitives, i),
                indices_before(model, primitives, i),
            ),
{
    let script = draw_script(model, image_index, width_points, height_points, primitives);
    let part = primitive_commands(model, image_index, primitives, i);
    law_frame_is_recorded_iff_every_primitive_can_be_painted(model, image_index, primitives);
    assert(primitive_error(model, primitives, i) is None);
    law_primitives_fail_for_these_reasons(model, primitives, i);
    law_texture_decides_what_is_done(model, mesh);
    law_frame_draws_every_mesh(
        model,
        image_index,
        width_points,
        height_points,
        primitives,
        i,
    );
    let head = frame_commands(model, image_index, width_points, height_points);
    let at = choose|at: int| head.len() <= at && #[trigger] stands_at(script, part, at);
    let placed = script.subrange(at, at + part.len());
    assert(placed[0] == script[at]);
    assert(placed[1] == script[at + 1]);
    assert(placed[2] == script[at + 2]);
    assert(placed[3] == script[at + 3]);
    assert(placed[4] == script[at + 4]);
    assert(draws_mesh_at(
        script,
        at,
        model,
        image_index,
        i,
        mesh,
        set,
        vertices_before(model, primitives, i),
        indices_before(model, primitives, i),
    ));
}

/// A frame holds nothing but its state and what its primitives take, in their
/// order: five commands for a mesh that is drawn, a report for one whose user
/// texture is gone, and none for one without triangles.
pub proof fn law_frame_follows_its_primitives(
    model: IntegrationModel,
    image_index: usize,
    width_points: u32,
    height_points: u32,
    primitives: Seq<Primitive>,
    n: nat,
)
    requires
        n < primitives.len(),
    ensures
        ({
            let now = primitives_commands(model, image_index, primitives, n);
            let next = primitives_commands(model, image_index, primitives, n + 1);
            let script = draw_script(
                model,
                image_index,
                width_points,
                height_points,
                primitives,
            );
            &&& primitives_commands(model, image_index, primitives, 0).len() == 0
            &&& script.skip(6) =~= primitives_commands(
                model,
                image_index,
                primitives,
                primitives.len(),
            )
            &&& now.len() <= next.len() && next.take(now.len() as int) =~= now
            &&& match primitives[n as int] {
                Primitive::Mesh(mesh) => if has_triangles(mesh) {
                    if set_of_texture(model, mesh.texture) is Some {
                        next.len() == now.len() + 5
                    } else if mesh.texture is User && (mesh.texture->User_0 as usize)
                        < model.user_textures.len() {
                        next =~= now.push(
                            Command::Report { notice: Notice::TextureUnregistered(mesh.texture) },
                        )
                    } else {
                        next =~= now
                    }
                } else {
                    next =~= now
                },
                Primitive::Callback => next =~= now,
            }
        }),
{
}

} // verus!
