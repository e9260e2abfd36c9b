//! Bringing an image to the device: as a new texture, or as a patch of one.
use vstd::prelude::*;

use crate::command::{Command, Handle};
use crate::config::{
    texture_image, texture_image_spec, Access, BlitRegion, BufferUsage, CopyRegion, Extent, Filter,
    Format, ImageLayout, MemoryLocation, Offset, PipelineStage, Transition,
};
use crate::integration::{Integration, IntegrationModel};
use crate::script::{creations, Script};
use crate::task::{Fate, Purpose, Task, TaskError, TaskModel};
use crate::texture::{bytes_of_pixels, pixel_bytes, ImageDelta, TextureKey};

verus! {

/// The numbers of an upload's creations.
pub const UPLOAD_POOL: usize = 0;

pub const UPLOAD_COMMANDS: usize = 1;

pub const UPLOAD_FENCE: usize = 2;

pub const UPLOAD_STAGING: usize = 3;

pub const UPLOAD_STAGING_MEMORY: usize = 4;

pub const UPLOAD_IMAGE: usize = 5;

pub const UPLOAD_IMAGE_MEMORY: usize = 6;

pub const UPLOAD_VIEW: usize = 7;

pub const UPLOAD_DESCRIPTOR_SET: usize = 8;

#[derive(Clone, Copy, Debug, PartialEq, Eq, Structural)]
pub enum UploadError {
    /// The number of pixels is not what the size of the image calls for.
    SizeMismatch,
    /// The corner of the patch lies beyond the numbers that the device takes.
    RegionOverflow,
    /// There is no swapchain image, hence no descriptor set layout.
    NoDescriptorSetLayout,
}

/// From the state of a new image to where a copy can fill it.
pub open spec fn fill_transition() -> Transition {
    Transition {
        src_access: Access::NoAccess,
        dst_access: Access::TransferWrite,
        old_layout: ImageLayout::Undefined,
        new_layout: ImageLayout::TransferDst,
        src_stage: PipelineStage::Host,
        dst_stage: PipelineStage::Transfer,
    }
}

/// From just filled to where shaders can read it.
pub open spec fn filled_transition() -> Transition {
    Transition {
        src_access: Access::TransferWrite,
        dst_access: Access::ShaderRead,
        old_layout: ImageLayout::TransferDst,
        new_layout: ImageLayout::ShaderReadOnly,
        src_stage: PipelineStage::Transfer,
        dst_stage: PipelineStage::VertexShader,
    }
}

/// From a texture in use to where a patch can be copied into it.
pub open spec fn patch_transition() -> Transition {
    Transition {
        src_access: Access::ShaderRead,
        dst_access: Access::TransferWrite,
        old_layout: ImageLayout::Undefined,
        new_layout: ImageLayout::TransferDst,
        src_stage: PipelineStage::FragmentShader,
        dst_stage: PipelineStage::Transfer,
    }
}

/// From a filled image to where it can be copied from.
pub open spec fn source_transition() -> Transition {
    Transition {
        src_access: Access::ShaderRead,
        dst_access: Access::TransferRead,
        old_layout: ImageLayout::ShaderReadOnly,
        new_layout: ImageLayout::TransferSrc,
        src_stage: PipelineStage::FragmentShader,
        dst_stage: PipelineStage::Transfer,
    }
}

/// From a patched texture to where shaders can read it.
pub open spec fn patched_transition() -> Transition {
    Transition {
        src_access: Access::TransferWrite,
        dst_access: Access::ShaderRead,
        old_layout: ImageLayout::TransferDst,
        new_layout: ImageLayout::ShaderReadOnly,
        src_stage: PipelineStage::Transfer,
        dst_stage: PipelineStage::FragmentShader,
    }
}

/// The size of an image on the device.
pub open spec fn delta_extent(delta: ImageDelta) -> Extent {
    Extent {
        width: delta.image.spec_width() as u32,
        height: delta.image.spec_height() as u32,
        depth: 1,
    }
}

/// The whole of the staging buffer into the whole of the image.
pub open spec fn copy_region(extent: Extent) -> CopyRegion {
    CopyRegion {
        buffer_offset: 0,
        buffer_row_length: extent.width,
        buffer_image_height: extent.height,
        image_offset: Offset { x: 0, y: 0, z: 0 },
        image_extent: extent,
    }
}

/// The far corner of a patch can be written down for the device.
pub open spec fn patch_fits(delta: ImageDelta, pos: (usize, usize)) -> bool {
    &&& i32::MIN <= (pos.0 as i32) + (delta.image.spec_width() as i32) <= i32::MAX
    &&& i32::MIN <= (pos.1 as i32) + (delta.image.spec_height() as i32) <= i32::MAX
}

/// The whole of the uploaded image into the texture at the patch's position.
pub open spec fn patch_region(delta: ImageDelta, pos: (usize, usize)) -> BlitRegion {
    let extent = delta_extent(delta);
    BlitRegion {
        src_from: Offset { x: 0, y: 0, z: 0 },
        src_to: Offset { x: extent.width as i32, y: extent.height as i32, z: extent.depth as i32 },
        dst_from: Offset { x: pos.0 as i32, y: pos.1 as i32, z: 0 },
        dst_to: Offset {
            x: ((pos.0 as i32) + (delta.image.spec_width() as i32)) as i32,
            y: ((pos.1 as i32) + (delta.image.spec_height() as i32)) as i32,
            z: 1,
        },
    }
}

/// What becomes of the uploaded image.
pub open spec fn upload_fate(model: IntegrationModel, id: TextureKey, delta: ImageDelta) -> Fate {
    if delta.pos is None {
        Fate::Register
    } else if model.textures.images.contains_key(id) {
        Fate::Patch
    } else {
        Fate::Orphan
    }
}

/// Why an upload is refused.
pub open spec fn upload_error(
    model: IntegrationModel,
    id: TextureKey,
    delta: ImageDelta,
) -> Option<UploadError> {
    if !delta.image.size_matches() {
        Some(UploadError::SizeMismatch)
    } else {
        match upload_fate(model, id, delta) {
            Fate::Register => if model.descriptor_set_layouts.len() == 0 {
                Some(UploadError::NoDescriptorSetLayout)
            } else {
                None
            },
            Fate::Patch => if patch_fits(delta, delta.pos->0) {
                None
            } else {
                Some(UploadError::RegionOverflow)
            },
            Fate::Orphan => None,
        }
    }
}

/// Stages the bytes in a buffer, copies them into a new image, and waits until
/// the device has done so.
pub open spec fn transfer_script(queue_family: u32, size: u64, extent: Extent) -> Seq<Command> {
    let pool = Handle::Created(UPLOAD_POOL);
    let commands = Handle::Created(UPLOAD_COMMANDS);
    let fence = Handle::Created(UPLOAD_FENCE);
    let staging = Handle::Created(UPLOAD_STAGING);
    let staging_memory = Handle::Created(UPLOAD_STAGING_MEMORY);
    let image = Handle::Created(UPLOAD_IMAGE);
    let image_memory = Handle::Created(UPLOAD_IMAGE_MEMORY);
    seq![
        Command::CreateCommandPool { queue_family },
        Command::AllocateCommandBuffer { pool },
        Command::CreateFence,
        Command::CreateBuffer { size, usage: BufferUsage::TransferSource },
        Command::AllocateForBuffer {
            buffer: staging,
            location: MemoryLocation::CpuToGpu,
            linear: true,
        },
        Command::BindBufferMemory { buffer: staging, allocation: staging_memory },
        Command::WriteData { allocation: staging_memory },
        Command::CreateImage { config: texture_image_spec(extent) },
        Command::AllocateForImage { image, location: MemoryLocation::GpuOnly, linear: false },
        Command::BindImageMemory { image, allocation: image_memory },
        Command::CreateImageView { image, format: Format::R8G8B8A8Unorm },
        Command::BeginCommandBuffer { commands },
        Command::ImageBarrier { commands, image, transition: fill_transition() },
        Command::CopyBufferToImage {
            commands,
            buffer: staging,
            image,
            region: copy_region(extent),
        },
        Command::ImageBarrier { commands, image, transition: filled_transition() },
        Command::EndCommandBuffer { commands },
        Command::QueueSubmit { commands, fence },
        Command::WaitForFence { fence },
    ]
}

/// Copies the uploaded image into a texture that is there, waits until the
/// device has done so, and destroys the uploaded image.
pub open spec fn patch_script(existing: u64, region: BlitRegion) -> Seq<Command> {
    let pool = Handle::Created(UPLOAD_POOL);
    let commands = Handle::Created(UPLOAD_COMMANDS);
    let fence = Handle::Created(UPLOAD_FENCE);
    let image = Handle::Created(UPLOAD_IMAGE);
    let texture = Handle::Known(existing);
    seq![
        Command::ResetCommandPool { pool },
        Command::ResetFence { fence },
        Command::BeginCommandBuffer { commands },
        Command::ImageBarrier { commands, image: texture, transition: patch_transition() },
        Command::ImageBarrier { commands, image, transition: source_transition() },
        Command::BlitImage {
            commands,
            src: image,
            dst: texture,
            region,
            filter: Filter::Nearest,
        },
        Command::ImageBarrier { commands, image: texture, transition: patched_transition() },
        Command::EndCommandBuffer { commands },
        Command::QueueSubmit { commands, fence },
        Command::WaitForFence { fence },
        Command::DestroyImage { image },
        Command::DestroyImageView { view: Handle::Created(UPLOAD_VIEW) },
        Command::FreeAllocation { allocation: Handle::Created(UPLOAD_IMAGE_MEMORY) },
    ]
}

/// Gives the uploaded image a descriptor set.
pub open spec fn register_script(pool: u64, layout: u64, sampler: u64) -> Seq<Command> {
    seq![
        Command::AllocateDescriptorSet { pool: Handle::Known(pool), layout: Handle::Known(layout) },
        Command::UpdateDescriptorSet {
            descriptor_set: Handle::Created(UPLOAD_DESCRIPTOR_SET),
            binding: 0,
            array_element: 0,
            image_view: Handle::Created(UPLOAD_VIEW),
            image_layout: ImageLayout::ShaderReadOnly,
            sampler: Handle::Known(sampler),
        },
    ]
}

/// Releases what an upload needed on the way.
pub open spec fn cleanup_script() -> Seq<Command> {
    seq![
        Command::DestroyBuffer { buffer: Handle::Created(UPLOAD_STAGING) },
        Command::FreeAllocation { allocation: Handle::Created(UPLOAD_STAGING_MEMORY) },
        Command::DestroyCommandPool { pool: Handle::Created(UPLOAD_POOL) },
        Command::DestroyFence { fence: Handle::Created(UPLOAD_FENCE) },
    ]
}

/// The commands of an upload.
pub open spec fn upload_script(
    model: IntegrationModel,
    id: TextureKey,
    delta: ImageDelta,
) -> Seq<Command> {
    let transfer = transfer_script(
        model.queue_family,
        bytes_of_pixels(delta.image.pixel_seq()).len() as u64,
        delta_extent(delta),
    );
    match upload_fate(model, id, delta) {
        Fate::Register => transfer + register_script(
            model.descriptor_pool,
            model.descriptor_set_layouts[0],
            model.sampler,
        ) + cleanup_script(),
        Fate::Patch => transfer + patch_script(
            model.textures.images[id],
            patch_region(delta, delta.pos->0),
        ) + cleanup_script(),
        Fate::Orphan => transfer,
    }
}

/// The task of an upload.
pub open spec fn upload_task(
    model: IntegrationModel,
    id: TextureKey,
    delta: ImageDelta,
) -> TaskModel {
    TaskModel::fresh(
        upload_script(model, id, delta),
        Purpose::Upload {
            id,
            extent: delta_extent(delta),
            fate: upload_fate(model, id, delta),
        },
        bytes_of_pixels(delta.image.pixel_seq()),
    )
}

/// The renderer once an upload has started.
pub open spec fn upload_started(
    model: IntegrationModel,
    id: TextureKey,
    delta: ImageDelta,
) -> IntegrationModel {
    IntegrationModel {
        textures: model.textures.with_extent(id, delta_extent(delta)),
        ..model
    }
}

/// The renderer once an upload has finished with these handles.
pub open spec fn upload_finished(
    model: IntegrationModel,
    id: TextureKey,
    fate: Fate,
    created: Seq<u64>,
) -> IntegrationModel {
    if fate is Register {
        IntegrationModel {
            textures: model.textures.with_texture(
                id,
                created[UPLOAD_IMAGE as int],
                created[UPLOAD_IMAGE_MEMORY as int],
                created[UPLOAD_VIEW as int],
                created[UPLOAD_DESCRIPTOR_SET as int],
            ),
            ..model
        }
    } else {
        model
    }
}

/// Writes the commands that fill a new image.
fn write_transfer(script: &mut Script, queue_family: u32, size: u64, extent: Extent)
    requires
        old(script).wf(),
        old(script)@ == Seq::<Command>::empty(),
    ensures
        final(script).wf(),
        final(script)@ == transfer_script(queue_family, size, extent),
        creations(final(script)@) == 8,
{
    let pool = script.create(Command::CreateCommandPool { queue_family });
    let commands = script.create(Command::AllocateCommandBuffer { pool });
    let fence = script.create(Command::CreateFence);
    let staging = script.create(
        Command::CreateBuffer { size, usage: BufferUsage::TransferSource },
    );
    let staging_memory = script.create(
        Command::AllocateForBuffer {
            buffer: staging,
            location: MemoryLocation::CpuToGpu,
            linear: true,
        },
    );
    script.push(Command::BindBufferMemory { buffer: staging, allocation: staging_memory });
    script.push(Command::WriteData { allocation: staging_memory });
    let image = script.create(Command::CreateImage { config: texture_image(extent) });
    let image_memory = script.create(
        Command::AllocateForImage { image, location: MemoryLocation::GpuOnly, linear: false },
    );
    script.push(Command::BindImageMemory { image, allocation: image_memory });
    let _view = script.create(Command::CreateImageView { image, format: Format::R8G8B8A8Unorm });
    script.push(Command::BeginCommandBuffer { commands });
    script.push(
        Command::ImageBarrier {
            commands,
            image,
            transition: Transition {
                src_access: Access::NoAccess,
                dst_access: Access::TransferWrite,
                old_layout: ImageLayout::Undefined,
                new_layout: ImageLayout::TransferDst,
                src_stage: PipelineStage::Host,
                dst_stage: PipelineStage::Transfer,
            },
        },
    );
    script.push(
        Command::CopyBufferToImage {
            commands,
            buffer: staging,
            image,
            region: CopyRegion {
                buffer_offset: 0,
                buffer_row_length: extent.width,
                buffer_image_height: extent.height,
                image_offset: Offset { x: 0, y: 0, z: 0 },
                image_extent: extent,
            },
        },
    );
    script.push(
        Command::ImageBarrier {
            commands,
            image,
            transition: Transition {
                src_access: Access::TransferWrite,
                dst_access: Access::ShaderRead,
                old_layout: ImageLayout::TransferDst,
                new_layout: ImageLayout::ShaderReadOnly,
                src_stage: PipelineStage::Transfer,
                dst_stage: PipelineStage::VertexShader,
            },
        },
    );
    script.push(Command::EndCommandBuffer { commands });
    script.push(Command::QueueSubmit { commands, fence });
    script.push(Command::WaitForFence { fence });
}

/// Writes the commands that copy the uploaded image into a texture.
fn write_patch(script: &mut Script, existing: u64, region: BlitRegion)
    requires
        old(script).wf(),
        creations(old(script)@) == 8,
    ensures
        final(script).wf(),
        final(script)@ == old(script)@ + patch_script(existing, region),
        creations(final(script)@) == 8,
{
    let pool = Handle::Created(UPLOAD_POOL);
    let commands = Handle::Created(UPLOAD_COMMANDS);
    let fence = Handle::Created(UPLOAD_FENCE);
    let image = Handle::Created(UPLOAD_IMAGE);
    let texture = Handle::Known(existing);
    script.push(Command::ResetCommandPool { pool });
    script.push(Command::ResetFence { fence });
    script.push(Command::BeginCommandBuffer { commands });
    script.push(
        Command::ImageBarrier {
            commands,
            image: texture,
            transition: Transition {
                src_access: Access::ShaderRead,
                dst_access: Access::TransferWrite,
                old_layout: ImageLayout::Undefined,
                new_layout: ImageLayout::TransferDst,
                src_stage: PipelineStage::FragmentShader,
                dst_stage: PipelineStage::Transfer,
            },
        },
    );
    script.push(
        Command::ImageBarrier {
            commands,
            image,
            transition: Transition {
                src_access: Access::ShaderRead,
                dst_access: Access::TransferRead,
                old_layout: ImageLayout::ShaderReadOnly,
                new_layout: ImageLayout::TransferSrc,
                src_stage: PipelineStage::FragmentShader,
                dst_stage: PipelineStage::Transfer,
            },
        },
    );
    script.push(
        Command::BlitImage {
            commands,
            src: image,
            dst: texture,
            region,
            filter: Filter::Nearest,
        },
    );
    script.push(
        Command::ImageBarrier {
            commands,
            image: texture,
            transition: Transition {
                src_access: Access::TransferWrite,
                dst_access: Access::ShaderRead,
                old_layout: ImageLayout::TransferDst,
                new_layout: ImageLayout::ShaderReadOnly,
                src_stage: PipelineStage::Transfer,
                dst_stage: PipelineStage::FragmentShader,
            },
        },
    );
    script.push(Command::EndCommandBuffer { commands });
    script.push(Command::QueueSubmit { commands, fence });
    script.push(Command::WaitForFence { fence });
    script.push(Command::DestroyImage { image });
    script.push(Command::DestroyImageView { view: Handle::Created(UPLOAD_VIEW) });
    script.push(Command::FreeAllocation { allocation: Handle::Created(UPLOAD_IMAGE_MEMORY) });
    assert(script@ =~= old(script)@ + patch_script(existing, region));
}

/// Writes the commands that give the uploaded image a descriptor set.
fn write_register(script: &mut Script, pool: u64, layout: u64, sampler: u64)
    requires
        old(script).wf(),
        creations(old(script)@) == 8,
    ensures
        final(script).wf(),
        final(script)@ == old(script)@ + register_script(pool, layout, sampler),
        creations(final(script)@) == 9,
{
    let descriptor_set = script.create(
        Command::AllocateDescriptorSet { pool: Handle::Known(pool), layout: Handle::Known(layout) },
    );
    script.push(
        Command::UpdateDescriptorSet {
            descriptor_set,
            binding: 0,
            array_element: 0,
            image_view: Handle::Created(UPLOAD_VIEW),
            image_layout: ImageLayout::ShaderReadOnly,
            sampler: Handle::Known(sampler),
        },
    );
    assert(script@ =~= old(script)@ + register_script(pool, layout, sampler));
}

/// Writes the commands that release what the upload needed on the way.
fn write_cleanup(script: &mut Script)
    requires
        old(script).wf(),
        creations(old(script)@) >= 8,
    ensures
        final(script).wf(),
        final(script)@ == old(script)@ + cleanup_script(),
        creations(final(script)@) == creations(old(script)@),
{
    script.push(Command::DestroyBuffer { buffer: Handle::Created(UPLOAD_STAGING) });
    script.push(Command::FreeAllocation { allocation: Handle::Created(UPLOAD_STAGING_MEMORY) });
    script.push(Command::DestroyCommandPool { pool: Handle::Created(UPLOAD_POOL) });
    script.push(Command::DestroyFence { fence: Handle::Created(UPLOAD_FENCE) });
    assert(script@ =~= old(script)@ + cleanup_script());
}

impl Integration {
    /// Starts to bring an image to the device. Without a position the image
    /// becomes the texture; with one it is copied into the texture that is
    /// there. Where there is none, the image is uploaded and left alone: its
    /// objects, and those needed on the way, are not released.
    pub fn update_texture(&mut self, id: TextureKey, delta: &ImageDelta) -> (result: Result<
        Task,
        UploadError,
    >)
        ensures
            match upload_error(old(self)@, id, *delta) {
                Some(error) => result == Err::<Task, UploadError>(error) && final(self)@ == old(
                    self,
                )@,
                None => {
                    &&& result is Ok
                    &&& result->Ok_0@ == upload_task(old(self)@, id, *delta)
                    &&& result->Ok_0@.wf()
                    &&& final(self)@ == upload_started(old(self)@, id, *delta)
                    &&& result->Ok_0@.data.len() == 4 * delta.image.pixel_seq().len()
                    &&& result->Ok_0@.script[0] == Command::CreateCommandPool {
                        queue_family: old(self)@.queue_family,
                    }
                    &&& result->Ok_0@.script[7] matches Command::CreateImage { config }
                    &&& config.extent.width == delta.image.spec_width() as u32
                    &&& config.extent.height == delta.image.spec_height() as u32
                    &&& config.extent.depth == 1
                },
            },
    {
        if !delta.image.is_consistent() {
            return Err(UploadError::SizeMismatch);
        }
        let width: usize = delta.image.width();
        let height: usize = delta.image.height();
        let existing = self.textures.image(id);
        let corner = match delta.pos {
            None => {
                if self.descriptor_set_layouts.len() == 0 {
                    return Err(UploadError::NoDescriptorSetLayout);
                }
                None
            },
            Some(pos) => {
                if existing.is_some() {
                    let x: Option<i32> = (pos.0 as i32).checked_add(width as i32);
                    let y: Option<i32> = (pos.1 as i32).checked_add(height as i32);
                    match (x, y) {
                        (Some(x), Some(y)) => Some((x, y)),
                        _ => {
                            return Err(UploadError::RegionOverflow);
                        },
                    }
                } else {
                    None
                }
            },
        };
        let data = pixel_bytes(delta.image.pixels());
        let extent = Extent { width: width as u32, height: height as u32, depth: 1 };
        let mut script = Script::new();
        write_transfer(&mut script, self.queue_family, data.len() as u64, extent);
        self.textures.set_extent(id, extent);
        let fate = match (delta.pos, existing, corner) {
            (Some(pos), Some(texture), Some(far)) => {
                let noted = match self.textures.extent(id) {
                    Some(noted) => noted,
                    None => extent,
                };
                let region = BlitRegion {
                    src_from: Offset { x: 0, y: 0, z: 0 },
                    src_to: Offset {
                        x: noted.width as i32,
                        y: noted.height as i32,
                        z: noted.depth as i32,
                    },
                    dst_from: Offset { x: pos.0 as i32, y: pos.1 as i32, z: 0 },
                    dst_to: Offset { x: far.0, y: far.1, z: 1 },
                };
                write_patch(&mut script, texture, region);
                write_cleanup(&mut script);
                Fate::Patch
            },
            (Some(_), _, _) => Fate::Orphan,
            (None, _, _) => {
                write_register(
                    &mut script,
                    self.descriptor_pool,
                    self.descriptor_set_layouts[0],
                    self.sampler,
                );
                write_cleanup(&mut script);
                Fate::Register
            },
        };
        Ok(Task::new(script, Purpose::Upload { id, extent, fate }, data))
    }

    /// Ends an upload: where the image became the texture, its objects are now
    /// those of the texture.
    pub fn finish_update_texture(&mut self, task: &Task) -> (result: Result<(), TaskError>)
        requires
            task@.wf(),
        ensures
            match task@.purpose {
                Purpose::Upload { id, fate, .. } => if task@.finished() {
                    &&& result == Ok::<(), TaskError>(())
                    &&& final(self)@ == upload_finished(old(self)@, id, fate, task@.created)
                } else {
                    result == Err::<(), TaskError>(TaskError::Unfinished) && final(self)@ == old(
                        self,
                    )@
                },
                _ => result == Err::<(), TaskError>(TaskError::WrongPurpose) && final(self)@
                    == old(self)@,
            },
    {
        match task.purpose() {
            Purpose::Upload { id, fate, .. } => {
                if !task.is_finished() {
                    return Err(TaskError::Unfinished);
                }
                proof {
                    assert(task@.script.take(task@.position as int) =~= task@.script);
                }
                match fate {
                    Fate::Register => {
                        let created = task.created();
                        self.textures.register(
                            id,
                            created[UPLOAD_IMAGE],
                            created[UPLOAD_IMAGE_MEMORY],
                            created[UPLOAD_VIEW],
                            created[UPLOAD_DESCRIPTOR_SET],
                        );
                    },
                    Fate::Patch => {},
                    Fate::Orphan => {},
                }
                Ok(())
            },
            _ => Err(TaskError::WrongPurpose),
        }
    }
}

} // verus!
