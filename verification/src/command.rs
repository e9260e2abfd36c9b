//! The requests that the renderer makes of the graphics device, as plain data.
//!
//! The renderer never talks to the device itself. It writes scripts of
//! commands; whoever drives it performs them in order and reports the handle
//! of each object that was created.
use vstd::prelude::*;

use crate::config::{
    BlitRegion, BufferUsage, CopyRegion, Filter, Format, ImageConfig, ImageLayout, MemoryLocation,
    PipelineConfig, SamplerConfig, ShaderStage, Transition,
};
use crate::texture::TextureKey;

verus! {

/// A device object named in a script.
#[derive(Clone, Copy, Debug, PartialEq, Eq, Structural)]
pub enum Handle {
    /// An object that existed before the script.
    Known(u64),
    /// The object that the script's creation with this number brings about,
    /// counting from zero.
    Created(usize),
}

/// The kinds of objects that are created and released.
#[derive(Clone, Copy, Debug, PartialEq, Eq, Structural)]
pub enum ObjectKind {
    DescriptorPool,
    DescriptorSetLayout,
    DescriptorSet,
    PipelineLayout,
    Pipeline,
    ShaderModule,
    Sampler,
    Buffer,
    Image,
    ImageView,
    Allocation,
    CommandPool,
    CommandBuffer,
    Fence,
}

/// Something the user should be told.
#[derive(Clone, Copy, Debug, PartialEq, Eq, Structural)]
pub enum Notice {
    /// A mesh was left out because its user texture is no longer registered.
    TextureUnregistered(TextureKey),
    /// A managed texture was given where only user textures can be unregistered.
    TextureNotUnregistrable,
}

/// One request to the device. Those that create an object say so in
/// [`Command::creates`]; `mesh` is the place of a mesh among the primitives of
/// the frame.
#[derive(Clone, Copy, Debug, PartialEq, Eq, Structural)]
#[allow(inconsistent_fields)]
pub enum Command {
    /// A pool for combined image samplers; whether single sets can be freed
    /// again is said.
    CreateDescriptorPool { max_sets: u32, descriptor_count: u32, free_sets: bool },
    /// A layout with one binding of combined image samplers.
    CreateDescriptorSetLayout { binding: u32, descriptor_count: u32, stage: ShaderStage },
    /// A layout over `layout_count` descriptor set layouts of this script, the
    /// first of which is its creation number `first_layout`, with one range of
    /// push constants.
    CreatePipelineLayout {
        first_layout: usize,
        layout_count: usize,
        push_stage: ShaderStage,
        push_offset: u32,
        push_size: u32,
    },
    CreateShaderModule { stage: ShaderStage },
    /// The entry point of both modules is `main`.
    CreateGraphicsPipeline {
        config: PipelineConfig,
        vertex_module: Handle,
        fragment_module: Handle,
        layout: Handle,
    },
    DestroyShaderModule { module: Handle },
    CreateSampler { config: SamplerConfig },
    /// A buffer for one queue family.
    CreateBuffer { size: u64, usage: BufferUsage },
    /// Memory that meets the requirements of a buffer.
    AllocateForBuffer { buffer: Handle, location: MemoryLocation, linear: bool },
    BindBufferMemory { buffer: Handle, allocation: Handle },
    /// Asks for the images of the new swapchain.
    GetSwapchainImages,
    CreateCommandPool { queue_family: u32 },
    /// One primary command buffer.
    AllocateCommandBuffer { pool: Handle },
    /// A fence that is not signalled.
    CreateFence,
    /// Copies the script's data to the start of a mapped allocation.
    WriteData { allocation: Handle },
    CreateImage { config: ImageConfig },
    /// Memory that meets the requirements of an image.
    AllocateForImage { image: Handle, location: MemoryLocation, linear: bool },
    BindImageMemory { image: Handle, allocation: Handle },
    /// A two-dimensional view of the one colour layer of an image.
    CreateImageView { image: Handle, format: Format },
    /// Starts recording for a single submission.
    BeginCommandBuffer { commands: Handle },
    /// Records a barrier on the one colour layer of an image.
    ImageBarrier { commands: Handle, image: Handle, transition: Transition },
    /// Records a copy into an image in the transfer destination layout.
    CopyBufferToImage { commands: Handle, buffer: Handle, image: Handle, region: CopyRegion },
    /// Records a copy from an image in the transfer source layout to one in the
    /// transfer destination layout.
    BlitImage { commands: Handle, src: Handle, dst: Handle, region: BlitRegion, filter: Filter },
    EndCommandBuffer { commands: Handle },
    QueueSubmit { commands: Handle, fence: Handle },
    /// Waits without limit.
    WaitForFence { fence: Handle },
    ResetCommandPool { pool: Handle },
    ResetFence { fence: Handle },
    AllocateDescriptorSet { pool: Handle, layout: Handle },
    /// Points a combined image sampler at an image view.
    UpdateDescriptorSet {
        descriptor_set: Handle,
        binding: u32,
        array_element: u32,
        image_view: Handle,
        image_layout: ImageLayout,
        sampler: Handle,
    },
    FreeDescriptorSet { pool: Handle, descriptor_set: Handle },
    DestroyImage { image: Handle },
    DestroyImageView { view: Handle },
    FreeAllocation { allocation: Handle },
    DestroyBuffer { buffer: Handle },
    DestroyCommandPool { pool: Handle },
    DestroyFence { fence: Handle },
    DestroyDescriptorSetLayout { layout: Handle },
    DestroySampler { sampler: Handle },
    DestroyPipeline { pipeline: Handle },
    DestroyPipelineLayout { layout: Handle },
    DestroyDescriptorPool { pool: Handle },
    BindPipeline { pipeline: Handle },
    BindVertexBuffer { buffer: Handle },
    BindIndexBuffer { buffer: Handle },
    /// A viewport of this size at the origin, over the whole depth range.
    SetViewport { width: u32, height: u32 },
    /// Sets one word of the vertex stage's push constants, a 32-bit float given
    /// by its bits.
    PushConstants { layout: Handle, offset: u32, word: u32 },
    /// Binds the only descriptor set.
    BindDescriptorSet { layout: Handle, descriptor_set: Handle },
    /// Copies the vertices of a mesh to a mapped allocation.
    WriteVertices { mesh: usize, allocation: Handle, offset: usize, size: usize },
    /// Copies the indices of a mesh to a mapped allocation.
    WriteIndices { mesh: usize, allocation: Handle, offset: usize, size: usize },
    /// Restricts drawing to the clip rectangle of a mesh.
    SetScissor { mesh: usize },
    /// Draws one instance.
    DrawIndexed { index_count: u32, first_index: u32, vertex_offset: i32 },
    /// Tells the user something.
    Report { notice: Notice },
}

/// A device object together with its kind.
#[derive(Clone, Copy, Debug, PartialEq, Eq, Structural)]
pub struct Object {
    pub kind: ObjectKind,
    pub handle: Handle,
}

impl Command {
    /// The kind of object that performing the command brings about.
    pub open spec fn creates(self) -> Option<ObjectKind> {
        match self {
            Command::CreateDescriptorPool { .. } => Some(ObjectKind::DescriptorPool),
            Command::CreateDescriptorSetLayout { .. } => Some(ObjectKind::DescriptorSetLayout),
            Command::CreatePipelineLayout { .. } => Some(ObjectKind::PipelineLayout),
            Command::CreateShaderModule { .. } => Some(ObjectKind::ShaderModule),
            Command::CreateGraphicsPipeline { .. } => Some(ObjectKind::Pipeline),
            Command::CreateSampler { .. } => Some(ObjectKind::Sampler),
            Command::CreateBuffer { .. } => Some(ObjectKind::Buffer),
            Command::AllocateForBuffer { .. } => Some(ObjectKind::Allocation),
            Command::CreateCommandPool { .. } => Some(ObjectKind::CommandPool),
            Command::AllocateCommandBuffer { .. } => Some(ObjectKind::CommandBuffer),
            Command::CreateFence => Some(ObjectKind::Fence),
            Command::CreateImage { .. } => Some(ObjectKind::Image),
            Command::AllocateForImage { .. } => Some(ObjectKind::Allocation),
            Command::CreateImageView { .. } => Some(ObjectKind::ImageView),
            Command::AllocateDescriptorSet { .. } => Some(ObjectKind::DescriptorSet),
            _ => None,
        }
    }

    /// The object whose life the command ends.
    pub open spec fn releases(self) -> Option<Object> {
        match self {
            Command::DestroyShaderModule { module } => Some(
                Object { kind: ObjectKind::ShaderModule, handle: module },
            ),
            Command::FreeDescriptorSet { descriptor_set, .. } => Some(
                Object { kind: ObjectKind::DescriptorSet, handle: descriptor_set },
            ),
            Command::DestroyImage { image } => Some(
                Object { kind: ObjectKind::Image, handle: image },
            ),
            Command::DestroyImageView { view } => Some(
                Object { kind: ObjectKind::ImageView, handle: view },
            ),
            Command::FreeAllocation { allocation } => Some(
                Object { kind: ObjectKind::Allocation, handle: allocation },
            ),
            Command::DestroyBuffer { buffer } => Some(
                Object { kind: ObjectKind::Buffer, handle: buffer },
            ),
            Command::DestroyCommandPool { pool } => Some(
                Object { kind: ObjectKind::CommandPool, handle: pool },
            ),
            Command::DestroyFence { fence } => Some(
                Object { kind: ObjectKind::Fence, handle: fence },
            ),
            Command::DestroyDescriptorSetLayout { layout } => Some(
                Object { kind: ObjectKind::DescriptorSetLayout, handle: layout },
            ),
            Command::DestroySampler { sampler } => Some(
                Object { kind: ObjectKind::Sampler, handle: sampler },
            ),
            Command::DestroyPipeline { pipeline } => Some(
                Object { kind: ObjectKind::Pipeline, handle: pipeline },
            ),
            Command::DestroyPipelineLayout { layout } => Some(
                Object { kind: ObjectKind::PipelineLayout, handle: layout },
            ),
            Command::DestroyDescriptorPool { pool } => Some(
                Object { kind: ObjectKind::DescriptorPool, handle: pool },
            ),
            _ => None,
        }
    }

    /// Whether every object that the command names exists once the script has
    /// created `created` objects.
    pub open spec fn in_scope(self, created: nat) -> bool {
        match self {
            Command::CreatePipelineLayout { first_layout, layout_count, .. } => first_layout
                + layout_count <= created,
            Command::CreateGraphicsPipeline { vertex_module, fragment_module, layout, .. } => {
                &&& exists_after(vertex_module, created)
                &&& exists_after(fragment_module, created)
                &&& exists_after(layout, created)
            },
            Command::DestroyShaderModule { module } => exists_after(module, created),
            Command::AllocateForBuffer { buffer, .. } => exists_after(buffer, created),
            Command::BindBufferMemory { buffer, allocation } => {
                &&& exists_after(buffer, created)
                &&& exists_after(allocation, created)
            },
            Command::AllocateCommandBuffer { pool } => exists_after(pool, created),
            Command::WriteData { allocation } => exists_after(allocation, created),
            Command::AllocateForImage { image, .. } => exists_after(image, created),
            Command::BindImageMemory { image, allocation } => {
                &&& exists_after(image, created)
                &&& exists_after(allocation, created)
            },
            Command::CreateImageView { image, .. } => exists_after(image, created),
            Command::BeginCommandBuffer { commands } => exists_after(commands, created),
            Command::ImageBarrier { commands, image, .. } => {
                &&& exists_after(commands, created)
                &&& exists_after(image, created)
            },
            Command::CopyBufferToImage { commands, buffer, image, .. } => {
                &&& exists_after(commands, created)
                &&& exists_after(buffer, created)
                &&& exists_after(image, created)
            },
            Command::BlitImage { commands, src, dst, .. } => {
                &&& exists_after(commands, created)
                &&& exists_after(src, created)
                &&& exists_after(dst, created)
            },
            Command::EndCommandBuffer { commands } => exists_after(commands, created),
            Command::QueueSubmit { commands, fence } => {
                &&& exists_after(commands, created)
                &&& exists_after(fence, created)
            },
            Command::WaitForFence { fence } => exists_after(fence, created),
            Command::ResetCommandPool { pool } => exists_after(pool, created),
            Command::ResetFence { fence } => exists_after(fence, created),
            Command::AllocateDescriptorSet { pool, layout } => {
                &&& exists_after(pool, created)
                &&& exists_after(layout, created)
            },
            Command::UpdateDescriptorSet { descriptor_set, image_view, sampler, .. } => {
                &&& exists_after(descriptor_set, created)
                &&& exists_after(image_view, created)
                &&& exists_after(sampler, created)
            },
            Command::FreeDescriptorSet { pool, descriptor_set } => {
                &&& exists_after(pool, created)
                &&& exists_after(descriptor_set, created)
            },
            Command::DestroyImage { image } => exists_after(image, created),
            Command::DestroyImageView { view } => exists_after(view, created),
            Command::FreeAllocation { allocation } => exists_after(allocation, created),
            Command::DestroyBuffer { buffer } => exists_after(buffer, created),
            Command::DestroyCommandPool { pool } => exists_after(pool, created),
            Command::DestroyFence { fence } => exists_after(fence, created),
            Command::DestroyDescriptorSetLayout { layout } => exists_after(layout, created),
            Command::DestroySampler { sampler } => exists_after(sampler, created),
            Command::DestroyPipeline { pipeline } => exists_after(pipeline, created),
            Command::DestroyPipelineLayout { layout } => exists_after(layout, created),
            Command::DestroyDescriptorPool { pool } => exists_after(pool, created),
            Command::BindPipeline { pipeline } => exists_after(pipeline, created),
            Command::BindVertexBuffer { buffer } => exists_after(buffer, created),
            Command::BindIndexBuffer { buffer } => exists_after(buffer, created),
            Command::PushConstants { layout, .. } => exists_after(layout, created),
            Command::BindDescriptorSet { layout, descriptor_set } => {
                &&& exists_after(layout, created)
                &&& exists_after(descriptor_set, created)
            },
            Command::WriteVertices { allocation, .. } => exists_after(allocation, created),
            Command::WriteIndices { allocation, .. } => exists_after(allocation, created),
            Command::CreateDescriptorPool { .. } => true,
            Command::CreateDescriptorSetLayout { .. } => true,
            Command::CreateShaderModule { .. } => true,
            Command::CreateSampler { .. } => true,
            Command::CreateBuffer { .. } => true,
            Command::GetSwapchainImages => true,
            Command::CreateCommandPool { .. } => true,
            Command::CreateFence => true,
            Command::CreateImage { .. } => true,
            Command::SetViewport { .. } => true,
            Command::SetScissor { .. } => true,
            Command::DrawIndexed { .. } => true,
            Command::Report { .. } => true,
        }
    }

    /// Whether performing the command brings about an object.
    pub fn creates_object(&self) -> (r: bool)
        ensures
            r == (self.creates() is Some),
    {
        match self {
            Command::CreateDescriptorPool { .. } => true,
            Command::CreateDescriptorSetLayout { .. } => true,
            Command::CreatePipelineLayout { .. } => true,
            Command::CreateShaderModule { .. } => true,
            Command::CreateGraphicsPipeline { .. } => true,
            Command::CreateSampler { .. } => true,
            Command::CreateBuffer { .. } => true,
            Command::AllocateForBuffer { .. } => true,
            Command::CreateCommandPool { .. } => true,
            Command::AllocateCommandBuffer { .. } => true,
            Command::CreateFence => true,
            Command::CreateImage { .. } => true,
            Command::AllocateForImage { .. } => true,
            Command::CreateImageView { .. } => true,
            Command::AllocateDescriptorSet { .. } => true,
            _ => false,
        }
    }
}

/// Whether the object exists once a script has created `created` objects.
pub open spec fn exists_after(handle: Handle, created: nat) -> bool {
    match handle {
        Handle::Known(_) => true,
        Handle::Created(number) => number < created,
    }
}

/// The device's handle of the object, given those of the script's creations.
pub open spec fn resolve(handle: Handle, created: Seq<u64>) -> u64 {
    match handle {
        Handle::Known(raw) => raw,
        Handle::Created(number) => created[number as int],
    }
}

/// The commands that create an object, and of which kind it is.
pub proof fn law_commands_create_what_they_say(command: Command)
    ensures
        command is CreateDescriptorPool <==> command.creates() == Some(ObjectKind::DescriptorPool),
        command is CreateDescriptorSetLayout <==> command.creates() == Some(
            ObjectKind::DescriptorSetLayout,
        ),
        command is CreatePipelineLayout <==> command.creates() == Some(ObjectKind::PipelineLayout),
        command is CreateShaderModule <==> command.creates() == Some(ObjectKind::ShaderModule),
        command is CreateGraphicsPipeline <==> command.creates() == Some(ObjectKind::Pipeline),
        command is CreateSampler <==> command.creates() == Some(ObjectKind::Sampler),
        command is CreateBuffer <==> command.creates() == Some(ObjectKind::Buffer),
        command is AllocateForBuffer || command is AllocateForImage <==> command.creates() == Some(
            ObjectKind::Allocation,
        ),
        command is CreateCommandPool <==> command.creates() == Some(ObjectKind::CommandPool),
        command is AllocateCommandBuffer <==> command.creates() == Some(ObjectKind::CommandBuffer),
        command is CreateFence <==> command.creates() == Some(ObjectKind::Fence),
        command is CreateImage <==> command.creates() == Some(ObjectKind::Image),
        command is CreateImageView <==> command.creates() == Some(ObjectKind::ImageView),
        command is AllocateDescriptorSet <==> command.creates() == Some(ObjectKind::DescriptorSet),
{
}

} // verus!
