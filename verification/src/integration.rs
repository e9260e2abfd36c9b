//! The renderer: what it holds on the device, and the operations on it.
//!
//! Each operation comes as a task, a script of commands for the device; an
//! operation that keeps objects it creates has a second half that takes the
//! finished task and stores their handles.
use vstd::prelude::*;

use crate::tables::{TextureModel, TextureTables};

pub mod draw;
pub mod paint;
pub mod release;
pub mod setup;
pub mod swapchain;
pub mod upload;
pub mod user;

verus! {

/// The toolkit's context: a handle to its state, which all clones share.
#[verifier::external_type_specification]
#[verifier::external_body]
pub struct ExContext(egui::Context);

/// Calls `egui::Context::clone`: another handle to the same context, equal to
/// the first.
#[verifier::external_body]
fn clone_context(context: &egui::Context) -> (clone: egui::Context)
    ensures
        clone == *context,
{
    context.clone()
}

/// A renderer as a mathematical value.
#[verifier::ext_equal]
pub struct IntegrationModel {
    pub context: egui::Context,
    pub physical_width: u32,
    pub physical_height: u32,
    pub queue_family: u32,
    pub descriptor_pool: u64,
    pub descriptor_set_layouts: Seq<u64>,
    pub pipeline_layout: u64,
    pub pipeline: u64,
    pub sampler: u64,
    pub vertex_buffers: Seq<u64>,
    pub vertex_buffer_allocations: Seq<u64>,
    pub index_buffers: Seq<u64>,
    pub index_buffer_allocations: Seq<u64>,
    pub textures: TextureModel,
    pub user_texture_layout: u64,
    pub user_textures: Seq<Option<u64>>,
}

impl IntegrationModel {
    /// There are as many index buffers as vertex buffers, and each buffer has
    /// its memory.
    pub open spec fn buffers_paired(self) -> bool {
        &&& self.vertex_buffer_allocations.len() == self.vertex_buffers.len()
        &&& self.index_buffers.len() == self.vertex_buffers.len()
        &&& self.index_buffer_allocations.len() == self.vertex_buffers.len()
    }

    /// Every swapchain image has a descriptor set layout, a vertex buffer and
    /// an index buffer, each buffer its memory; and the texture tables are in
    /// step.
    pub open spec fn wf(self) -> bool {
        &&& self.vertex_buffers.len() == self.descriptor_set_layouts.len()
        &&& self.buffers_paired()
        &&& self.textures.consistent()
    }
}

/// Renders the toolkit's meshes on a graphics device.
pub struct Integration {
    context: egui::Context,
    physical_width: u32,
    physical_height: u32,
    queue_family: u32,
    descriptor_pool: u64,
    descriptor_set_layouts: Vec<u64>,
    pipeline_layout: u64,
    pipeline: u64,
    sampler: u64,
    vertex_buffers: Vec<u64>,
    vertex_buffer_allocations: Vec<u64>,
    index_buffers: Vec<u64>,
    index_buffer_allocations: Vec<u64>,
    textures: TextureTables,
    user_texture_layout: u64,
    user_textures: Vec<Option<u64>>,
}

impl View for Integration {
    type V = IntegrationModel;

    closed spec fn view(&self) -> IntegrationModel {
        IntegrationModel {
            context: self.context,
            physical_width: self.physical_width,
            physical_height: self.physical_height,
            queue_family: self.queue_family,
            descriptor_pool: self.descriptor_pool,
            descriptor_set_layouts: self.descriptor_set_layouts@,
            pipeline_layout: self.pipeline_layout,
            pipeline: self.pipeline,
            sampler: self.sampler,
            vertex_buffers: self.vertex_buffers@,
            vertex_buffer_allocations: self.vertex_buffer_allocations@,
            index_buffers: self.index_buffers@,
            index_buffer_allocations: self.index_buffer_allocations@,
            textures: self.textures@,
            user_texture_layout: self.user_texture_layout,
            user_textures: self.user_textures@,
        }
    }
}

impl Integration {
    /// The toolkit's context.
    pub fn context(&self) -> (context: egui::Context)
        ensures
            context == self@.context,
    {
        clone_context(&self.context)
    }

    /// The width of the swapchain images in pixels.
    pub fn physical_width(&self) -> (width: u32)
        ensures
            width == self@.physical_width,
    {
        self.physical_width
    }

    /// The height of the swapchain images in pixels.
    pub fn physical_height(&self) -> (height: u32)
        ensures
            height == self@.physical_height,
    {
        self.physical_height
    }
}

} // verus!
