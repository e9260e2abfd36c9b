//! Recording the meshes of a frame.
use vstd::prelude::*;

use crate::command::{Command, Handle, Notice};
use crate::config::{INDEX_BUFFER_BYTES, INDEX_SIZE, VERTEX_BUFFER_BYTES, VERTEX_SIZE};
use crate::integration::{Integration, IntegrationModel};
use crate::script::{creations, Script};
use crate::task::{Purpose, Task, TaskModel};
use crate::texture::TextureKey;

verus! {

/// What drawing needs to know of a mesh.
#[derive(Clone, Copy, Debug, PartialEq, Eq, Structural)]
pub struct MeshInfo {
    pub texture: TextureKey,
    pub vertex_count: usize,
    pub index_count: usize,
}

/// Something to paint.
#[derive(Clone, Copy, Debug, PartialEq, Eq, Structural)]
pub enum Primitive {
    Mesh(MeshInfo),
    /// A callback, which this renderer has no support for.
    Callback,
}

#[derive(Clone, Copy, Debug, PartialEq, Eq, Structural)]
pub enum DrawError {
    /// The swapchain has no image with this index.
    NoSwapchainImage,
    /// There is a callback among the primitives.
    CallbackUnsupported,
    /// A mesh has a user texture that was never registered.
    UnknownUserTexture,
    /// A mesh has a managed texture that was not uploaded.
    UnknownTexture,
    /// The meshes do not fit into the buffers.
    OutOfMemory,
}

/// What is done with a primitive, room in the buffers aside.
#[derive(Clone, Copy, Debug, PartialEq, Eq, Structural)]
pub enum Verdict {
    /// Nothing: there are no triangles.
    Skip,
    /// It is left out, because its texture was unregistered.
    Stale(TextureKey),
    /// It is drawn with this descriptor set.
    Draw(u64),
    /// It cannot be painted.
    Fail(DrawError),
}

/// The place of a user texture in the table of user textures.
pub open spec fn slot_of(id: u64) -> usize {
    id as usize
}

/// What is done with a primitive.
pub open spec fn verdict(model: IntegrationModel, primitive: Primitive) -> Verdict {
    match primitive {
        Primitive::Callback => Verdict::Fail(DrawError::CallbackUnsupported),
        Primitive::Mesh(mesh) => if mesh.vertex_count == 0 || mesh.index_count == 0 {
            Verdict::Skip
        } else {
            match mesh.texture {
                TextureKey::User(id) => if slot_of(id) >= model.user_textures.len() {
                    Verdict::Fail(DrawError::UnknownUserTexture)
                } else {
                    match model.user_textures[slot_of(id) as int] {
                        Some(descriptor_set) => Verdict::Draw(descriptor_set),
                        None => Verdict::Stale(mesh.texture),
                    }
                },
                TextureKey::Managed(_) => if model.textures.descriptor_sets.contains_key(
                    mesh.texture,
                ) {
                    Verdict::Draw(model.textures.descriptor_sets[mesh.texture])
                } else {
                    Verdict::Fail(DrawError::UnknownTexture)
                },
            }
        },
    }
}

/// How many vertices a primitive puts into the vertex buffer.
pub open spec fn vertices_of(model: IntegrationModel, primitive: Primitive) -> nat {
    if verdict(model, primitive) is Draw {
        primitive->Mesh_0.vertex_count as nat
    } else {
        0
    }
}

/// How many indices a primitive puts into the index buffer.
pub open spec fn indices_of(model: IntegrationModel, primitive: Primitive) -> nat {
    if verdict(model, primitive) is Draw {
        primitive->Mesh_0.index_count as nat
    } else {
        0
    }
}

/// How many vertices the first `n` primitives put into the vertex buffer.
pub open spec fn vertices_before(
    model: IntegrationModel,
    primitives: Seq<Primitive>,
    n: nat,
) -> nat
    decreases n,
{
    if n == 0 {
        0
    } else {
        vertices_before(model, primitives, (n - 1) as nat) + vertices_of(model, primitives[n - 1])
    }
}

/// How many indices the first `n` primitives put into the index buffer.
pub open spec fn indices_before(model: IntegrationModel, primitives: Seq<Primitive>, n: nat) -> nat
    decreases n,
{
    if n == 0 {
        0
    } else {
        indices_before(model, primitives, (n - 1) as nat) + indices_of(model, primitives[n - 1])
    }
}

/// The first `n` primitives leave room in both buffers.
pub open spec fn room_after(
    model: IntegrationModel,
    primitives: Seq<Primitive>,
    n: nat,
) -> bool {
    &&& vertices_before(model, primitives, n) * VERTEX_SIZE < VERTEX_BUFFER_BYTES
    &&& indices_before(model, primitives, n) * INDEX_SIZE < INDEX_BUFFER_BYTES
}

/// Why the primitive with this index, given those before it, cannot be painted.
pub open spec fn primitive_error(
    model: IntegrationModel,
    primitives: Seq<Primitive>,
    i: nat,
) -> Option<DrawError> {
    match verdict(model, primitives[i as int]) {
        Verdict::Fail(error) => Some(error),
        Verdict::Draw(_) => if room_after(model, primitives, i + 1) {
            None
        } else {
            Some(DrawError::OutOfMemory)
        },
        Verdict::Skip => None,
        Verdict::Stale(_) => None,
    }
}

/// Why the first `n` primitives cannot be painted: the reason of the earliest
/// that cannot.
pub open spec fn first_error(
    model: IntegrationModel,
    primitives: Seq<Primitive>,
    n: nat,
) -> Option<DrawError>
    decreases n,
{
    if n == 0 {
        None
    } else {
        match first_error(model, primitives, (n - 1) as nat) {
            Some(error) => Some(error),
            None => primitive_error(model, primitives, (n - 1) as nat),
        }
    }
}

/// The commands that draw the mesh with this index on a swapchain image. Its
/// vertices and indices come behind those of the meshes before it.
pub open spec fn draw_commands(
    model: IntegrationModel,
    image_index: usize,
    descriptor_set: u64,
    i: nat,
    mesh: MeshInfo,
    vertex_base: nat,
    index_base: nat,
) -> Seq<Command> {
    seq![
        Command::BindDescriptorSet {
            layout: Handle::Known(model.pipeline_layout),
            descriptor_set: Handle::Known(descriptor_set),
        },
        Command::WriteVertices {
            mesh: i as usize,
            allocation: Handle::Known(model.vertex_buffer_allocations[image_index as int]),
            offset: (vertex_base * VERTEX_SIZE) as usize,
            size: (mesh.vertex_count * VERTEX_SIZE) as usize,
        },
        Command::WriteIndices {
            mesh: i as usize,
            allocation: Handle::Known(model.index_buffer_allocations[image_index as int]),
            offset: (index_base * INDEX_SIZE) as usize,
            size: (mesh.index_count * INDEX_SIZE) as usize,
        },
        Command::SetScissor { mesh: i as usize },
        Command::DrawIndexed {
            index_count: mesh.index_count as u32,
            first_index: index_base as u32,
            vertex_offset: vertex_base as i32,
        },
    ]
}

/// The commands for the primitive with this index.
pub open spec fn primitive_commands(
    model: IntegrationModel,
    image_index: usize,
    primitives: Seq<Primitive>,
    i: nat,
) -> Seq<Command> {
    match verdict(model, primitives[i as int]) {
        Verdict::Draw(descriptor_set) => draw_commands(
            model,
            image_index,
            descriptor_set,
            i,
            primitives[i as int]->Mesh_0,
            vertices_before(model, primitives, i),
            indices_before(model, primitives, i),
        ),
        Verdict::Stale(texture) => seq![
            Command::Report { notice: Notice::TextureUnregistered(texture) },
        ],
        Verdict::Skip => seq![],
        Verdict::Fail(_) => seq![],
    }
}

/// The commands for the first `n` primitives.
pub open spec fn primitives_commands(
    model: IntegrationModel,
    image_index: usize,
    primitives: Seq<Primitive>,
    n: nat,
) -> Seq<Command>
    decreases n,
{
    if n == 0 {
        seq![]
    } else {
        primitives_commands(model, image_index, primitives, (n - 1) as nat) + primitive_commands(
            model,
            image_index,
            primitives,
            (n - 1) as nat,
        )
    }
}

/// The commands that come before the primitives: what all of them share. The
/// size of the screen in points comes as the bits of two 32-bit floats.
pub open spec fn frame_commands(
    model: IntegrationModel,
    image_index: usize,
    width_points: u32,
    height_points: u32,
) -> Seq<Command> {
    let layout = Handle::Known(model.pipeline_layout);
    seq![
        Command::BindPipeline { pipeline: Handle::Known(model.pipeline) },
        Command::BindVertexBuffer {
            buffer: Handle::Known(model.vertex_buffers[image_index as int]),
        },
        Command::BindIndexBuffer {
            buffer: Handle::Known(model.index_buffers[image_index as int]),
        },
        Command::SetViewport { width: model.physical_width, height: model.physical_height },
        Command::PushConstants { layout, offset: 0, word: width_points },
        Command::PushConstants { layout, offset: 4, word: height_points },
    ]
}

/// Why a frame cannot be recorded.
pub open spec fn draw_error(
    model: IntegrationModel,
    image_index: usize,
    primitives: Seq<Primitive>,
) -> Option<DrawError> {
    if image_index >= model.vertex_buffers.len() {
        Some(DrawError::NoSwapchainImage)
    } else {
        first_error(model, primitives, primitives.len())
    }
}

/// The commands of a frame.
pub open spec fn draw_script(
    model: IntegrationModel,
    image_index: usize,
    width_points: u32,
    height_points: u32,
    primitives: Seq<Primitive>,
) -> Seq<Command> {
    frame_commands(model, image_index, width_points, height_points) + primitives_commands(
        model,
        image_index,
        primitives,
        primitives.len(),
    )
}

impl Integration {
    /// The bytes in the vertex buffer of each swapchain image.
    pub fn vertex_buffer_size() -> (size: u64)
        ensures
            size == 1024 * 1024 * 4,
            size == VERTEX_BUFFER_BYTES,
    {
        VERTEX_BUFFER_BYTES
    }

    /// The bytes in the index buffer of each swapchain image.
    pub fn index_buffer_size() -> (size: u64)
        ensures
            size == 1024 * 1024 * 2,
            size == INDEX_BUFFER_BYTES,
    {
        INDEX_BUFFER_BYTES
    }

    /// What is done with a primitive, room in the buffers aside.
    pub fn judge(&self, primitive: Primitive) -> (r: Verdict)
        ensures
            r == verdict(self@, primitive),
    {
        let mesh = match primitive {
            Primitive::Mesh(mesh) => mesh,
            Primitive::Callback => {
                return Verdict::Fail(DrawError::CallbackUnsupported);
            },
        };
        if mesh.vertex_count == 0 || mesh.index_count == 0 {
            return Verdict::Skip;
        }
        match mesh.texture {
            TextureKey::User(id) => {
                let slot: usize = id as usize;
                if slot >= self.user_textures.len() {
                    return Verdict::Fail(DrawError::UnknownUserTexture);
                }
                match self.user_textures[slot] {
                    Some(descriptor_set) => Verdict::Draw(descriptor_set),
                    None => Verdict::Stale(mesh.texture),
                }
            },
            TextureKey::Managed(_) => match self.textures.descriptor_set(mesh.texture) {
                Some(descriptor_set) => Verdict::Draw(descriptor_set),
                None => Verdict::Fail(DrawError::UnknownTexture),
            },
        }
    }

    /// The commands that draw a frame on a swapchain image.
    pub fn record(
        &self,
        image_index: usize,
        width_points: u32,
        height_points: u32,
        primitives: &Vec<Primitive>,
    ) -> (result: Result<Task, DrawError>)
        requires
            self@.buffers_paired(),
        ensures
            match draw_error(self@, image_index, primitives@) {
                Some(error) => result == Err::<Task, DrawError>(error),
                None => {
                    &&& result is Ok
                    &&& result->Ok_0@.wf()
                    &&& result->Ok_0@ == TaskModel::fresh(
                        draw_script(
                            self@,
                            image_index,
                            width_points,
                            height_points,
                            primitives@,
                        ),
                        Purpose::Plain,
                        Seq::empty(),
                    )
                    &&& result->Ok_0@.script[3] == Command::SetViewport {
                        width: self@.physical_width,
                        height: self@.physical_height,
                    }
                    &&& result->Ok_0@.script[4] == Command::PushConstants {
                        layout: Handle::Known(self@.pipeline_layout),
                        offset: 0,
                        word: width_points,
                    }
                    &&& result->Ok_0@.script[5] == Command::PushConstants {
                        layout: Handle::Known(self@.pipeline_layout),
                        offset: 4,
                        word: height_points,
                    }
                },
            },
    {
        if image_index >= self.vertex_buffers.len() {
            return Err(DrawError::NoSwapchainImage);
        }
        let layout = Handle::Known(self.pipeline_layout);
        let vertex_memory = Handle::Known(self.vertex_buffer_allocations[image_index]);
        let index_memory = Handle::Known(self.index_buffer_allocations[image_index]);
        let mut script = Script::new();
        script.push(Command::BindPipeline { pipeline: Handle::Known(self.pipeline) });
        script.push(
            Command::BindVertexBuffer { buffer: Handle::Known(self.vertex_buffers[image_index]) },
        );
        script.push(
            Command::BindIndexBuffer { buffer: Handle::Known(self.index_buffers[image_index]) },
        );
        script.push(
            Command::SetViewport { width: self.physical_width, height: self.physical_height },
        );
        script.push(Command::PushConstants { layout, offset: 0, word: width_points });
        script.push(Command::PushConstants { layout, offset: 4, word: height_points });
        let ghost head = frame_commands(self@, image_index, width_points, height_points);
        assert(script@ =~= head + primitives_commands(self@, image_index, primitives@, 0));

        let mut vertices: usize = 0;
        let mut indices: usize = 0;
        let mut i: usize = 0;
        while i < primitives.len()
            invariant
                i <= primitives@.len(),
                image_index < self@.vertex_buffers.len(),
                script.wf(),
                creations(script@) == 0,
                layout == Handle::Known(self@.pipeline_layout),
                vertex_memory == Handle::Known(
                    self@.vertex_buffer_allocations[image_index as int],
                ),
                index_memory == Handle::Known(self@.index_buffer_allocations[image_index as int]),
                script@ == head + primitives_commands(self@, image_index, primitives@, i as nat),
                first_error(self@, primitives@, i as nat) is None,
                vertices == vertices_before(self@, primitives@, i as nat),
                indices == indices_before(self@, primitives@, i as nat),
                room_after(self@, primitives@, i as nat),
            decreases primitives@.len() - i,
        {
            let primitive = primitives[i];
            let ghost before = script@;
            assert(vertices_before(self@, primitives@, (i + 1) as nat) == vertices + vertices_of(
                self@,
                primitive,
            ));
            assert(indices_before(self@, primitives@, (i + 1) as nat) == indices + indices_of(
                self@,
                primitive,
            ));
            match (self.judge(primitive), primitive) {
                (Verdict::Fail(error), _) => {
                    proof {
                        assert(first_error(self@, primitives@, (i + 1) as nat) == Some(error));
                        lemma_first_error_stays(self@, primitives@, (i + 1) as nat, error);
                    }
                    return Err(error);
                },
                (Verdict::Stale(texture), _) => {
                    script.push(Command::Report { notice: Notice::TextureUnregistered(texture) });
                },
                (Verdict::Draw(descriptor_set), Primitive::Mesh(mesh)) => {
                    if !fits(vertices, mesh.vertex_count, VERTEX_SIZE, VERTEX_BUFFER_BYTES as usize)
                        || !fits(
                        indices,
                        mesh.index_count,
                        INDEX_SIZE,
                        INDEX_BUFFER_BYTES as usize,
                    ) {
                        proof {
                            assert(first_error(self@, primitives@, (i + 1) as nat) == Some(
                                DrawError::OutOfMemory,
                            ));
                            lemma_first_error_stays(
                                self@,
                                primitives@,
                                (i + 1) as nat,
                                DrawError::OutOfMemory,
                            );
                        }
                        return Err(DrawError::OutOfMemory);
                    }
                    script.push(
                        Command::BindDescriptorSet {
                            layout,
                            descriptor_set: Handle::Known(descriptor_set),
                        },
                    );
                    script.push(
                        Command::WriteVertices {
                            mesh: i,
                            allocation: vertex_memory,
                            offset: vertices * VERTEX_SIZE,
                            size: mesh.vertex_count * VERTEX_SIZE,
                        },
                    );
                    script.push(
                        Command::WriteIndices {
                            mesh: i,
                            allocation: index_memory,
                            offset: indices * INDEX_SIZE,
                            size: mesh.index_count * INDEX_SIZE,
                        },
                    );
                    script.push(Command::SetScissor { mesh: i });
                    script.push(
                        Command::DrawIndexed {
                            index_count: mesh.index_count as u32,
                            first_index: indices as u32,
                            vertex_offset: vertices as i32,
                        },
                    );
                    vertices = vertices + mesh.vertex_count;
                    indices = indices + mesh.index_count;
                },
                _ => {},
            }
            assert(script@ =~= before + primitive_commands(self@, image_index, primitives@, i as nat));
            assert(script@ =~= head + primitives_commands(self@, image_index, primitives@, (i + 1) as nat));
            i = i + 1;
        }
        let data: Vec<u8> = Vec::new();
        Ok(Task::new(script, Purpose::Plain, data))
    }
}

/// Whether `more` items behind `used` ones leave room in a buffer.
fn fits(used: usize, more: usize, item_size: usize, capacity: usize) -> (r: bool)
    requires
        used * item_size < capacity,
        0 < item_size <= 32,
        capacity <= 0x100_0000,
    ensures
        r == ((used + more) * item_size < capacity),
{
    proof {
        assert(used <= used * item_size) by (nonlinear_arith)
            requires
                0 < item_size,
        ;
        assert((used + more) * item_size >= used + more) by (nonlinear_arith)
            requires
                0 < item_size,
        ;
    }
    if more >= capacity {
        return false;
    }
    assert((used + more) * item_size <= 0x200_0000 * 32) by (nonlinear_arith)
        requires
            used + more <= 0x200_0000,
            item_size <= 32,
    ;
    (used + more) * item_size < capacity
}

/// Once some primitive cannot be painted, its reason is that of the frame.
pub proof fn lemma_first_error_stays(
    model: IntegrationModel,
    primitives: Seq<Primitive>,
    n: nat,
    error: DrawError,
)
    requires
        n <= primitives.len(),
        first_error(model, primitives, n) == Some(error),
    ensures
        first_error(model, primitives, primitives.len()) == Some(error),
    decreases primitives.len() - n,
{
    if n < primitives.len() {
        assert(first_error(model, primitives, n + 1) == Some(error));
        lemma_first_error_stays(model, primitives, n + 1, error);
    }
}

} // verus!
