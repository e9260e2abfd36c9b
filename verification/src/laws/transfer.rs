//! Of what an upload is made of: command by command, over the image, its place
//! in the texture, and the renderer.
use vstd::prelude::*;

use crate::command::{Command, Handle};
use crate::integration::IntegrationModel;
use crate::integration::upload::{
    upload_error, upload_fate, upload_finished, upload_script, upload_started, upload_task,
    UploadError,
};
use crate::task::{Fate, Purpose};
use crate::texture::{ImageData, ImageDelta, TextureKey};

verus! {

/// The sum of two sizes as the device takes them is one that it can take.
pub open spec fn corner_fits(position: usize, size: usize) -> bool {
    -0x8000_0000 <= (position as i32) + (size as i32) < 0x8000_0000
}

/// Without a position the image becomes the texture. With one it is copied into
/// the texture that is there, and where there is none it is left alone.
pub proof fn law_position_decides_the_fate(
    model: IntegrationModel,
    id: TextureKey,
    delta: ImageDelta,
)
    ensures
        delta.pos is None <==> upload_fate(model, id, delta) is Register,
        delta.pos is Some && model.textures.images.contains_key(id) <==> upload_fate(
            model,
            id,
            delta,
        ) is Patch,
        delta.pos is Some && !model.textures.images.contains_key(id) <==> upload_fate(
            model,
            id,
            delta,
        ) is Orphan,
{
}

/// An upload is refused where a colour image has the wrong number of pixels,
/// where a new texture has no layout to go by, and where the far corner of a
/// patch lies beyond what the device takes; and for no other reason.
pub proof fn law_uploads_are_refused_for_three_reasons(
    model: IntegrationModel,
    id: TextureKey,
    delta: ImageDelta,
)
    ensures
        ({
            let counted = match delta.image {
                ImageData::Color { width, height, pixels } => width * height == pixels@.len(),
                ImageData::Font { .. } => true,
            };
            let patched = delta.pos is Some && model.textures.images.contains_key(id);
            let pos = delta.pos->0;
            let fits = match delta.image {
                ImageData::Color { width, height, .. } => corner_fits(pos.0, width)
                    && corner_fits(pos.1, height),
                ImageData::Font { width, height, .. } => corner_fits(pos.0, width)
                    && corner_fits(pos.1, height),
            };
            let error = upload_error(model, id, delta);
            &&& error == Some(UploadError::SizeMismatch) <==> !counted
            &&& error == Some(UploadError::NoDescriptorSetLayout) <==> counted && delta.pos is None
                && model.descriptor_set_layouts.len() == 0
            &&& error == Some(UploadError::RegionOverflow) <==> counted && patched && !fits
            &&& error is None <==> counted && (delta.pos is None
                ==> model.descriptor_set_layouts.len() > 0) && (patched ==> fits)
        }),
{
}

/// The width of an image of either sort.
pub open spec fn width_of(image: ImageData) -> usize {
    match image {
        ImageData::Color { width, .. } => width,
        ImageData::Font { width, .. } => width,
    }
}

/// The height of an image of either sort.
pub open spec fn height_of(image: ImageData) -> usize {
    match image {
        ImageData::Color { height, .. } => height,
        ImageData::Font { height, .. } => height,
    }
}

/// An upload is for its texture, carries the bytes of the image's pixels, red,
/// green, blue and alpha of one after the other, and says the image's size.
pub proof fn law_upload_carries_the_image(
    model: IntegrationModel,
    id: TextureKey,
    delta: ImageDelta,
    i: int,
)
    ensures
        ({
            let task = upload_task(model, id, delta);
            let pixels = match delta.image {
                ImageData::Color { pixels, .. } => pixels@,
                ImageData::Font { pixels, .. } => pixels@,
            };
            &&& task.script == upload_script(model, id, delta)
            &&& task.purpose matches Purpose::Upload { id: target, extent, fate }
            &&& target == id
            &&& extent.width == width_of(delta.image) as u32
            &&& extent.height == height_of(delta.image) as u32
            &&& extent.depth == 1
            &&& fate is Register <==> delta.pos is None
            &&& fate is Patch <==> delta.pos is Some && model.textures.images.contains_key(id)
            &&& task.data.len() == 4 * pixels.len()
            &&& 0 <= i < pixels.len() ==> task.data[4 * i] == pixels[i].r && task.data[4 * i + 1]
                == pixels[i].g && task.data[4 * i + 2] == pixels[i].b && task.data[4 * i + 3]
                == pixels[i].a
        }),
{
}

/// Every upload starts by staging its bytes: in a buffer just large enough for
/// four bytes a pixel, bound to memory that the host can write, to which they
/// are copied; and by making a command buffer and a fence for its queue family.
pub proof fn law_upload_stages_its_bytes(
    model: IntegrationModel,
    id: TextureKey,
    delta: ImageDelta,
)
    ensures
        ({
            let script = upload_script(model, id, delta);
            let count = match delta.image {
                ImageData::Color { pixels, .. } => pixels@.len(),
                ImageData::Font { pixels, .. } => pixels@.len(),
            };
            &&& script.len() >= 18
            &&& script[0] matches Command::CreateCommandPool { queue_family }
            &&& script[1] matches Command::AllocateCommandBuffer { pool }
            &&& script[2] is CreateFence
            &&& script[3] matches Command::CreateBuffer { size, usage }
            &&& script[4] matches Command::AllocateForBuffer { buffer, location, linear }
            &&& script[5] matches Command::BindBufferMemory { buffer: bound, allocation }
            &&& script[6] matches Command::WriteData { allocation: target }
            &&& queue_family == model.queue_family
            &&& pool == Handle::Created(0)
            &&& size == (4 * count) as u64
            &&& usage is TransferSource
            &&& buffer == Handle::Created(3)
            &&& location is CpuToGpu
            &&& linear
            &&& bound == Handle::Created(3)
            &&& allocation == Handle::Created(4)
            &&& target == Handle::Created(4)
        }),
{
}

/// Every upload creates one image, just as wide and as high as the image it
/// brings, one layer deep and in every other way fit to be copied to, copied from
/// and sampled; with memory and a view of its own.
pub proof fn law_upload_creates_an_image_of_its_size(
    model: IntegrationModel,
    id: TextureKey,
    delta: ImageDelta,
)
    ensures
        ({
            let script = upload_script(model, id, delta);
            &&& script[7] matches Command::CreateImage { config }
            &&& script[8] matches Command::AllocateForImage { image, location, linear }
            &&& script[9] matches Command::BindImageMemory { image: bound, allocation }
            &&& script[10] matches Command::CreateImageView { image: viewed, format }
            &&& config.extent.width == width_of(delta.image) as u32
            &&& config.extent.height == height_of(delta.image) as u32
            &&& config.extent.depth == 1
            &&& config.format is R8G8B8A8Unorm
            &&& config.mip_levels == 1
            &&& config.array_layers == 1
            &&& config.samples == 1
            &&& config.tiling is Optimal
            &&& config.initial_layout is Undefined
            &&& config.sampled && config.transfer_dst && config.transfer_src
            &&& image == Handle::Created(5)
            &&& location is GpuOnly
            &&& !linear
            &&& bound == Handle::Created(5)
            &&& allocation == Handle::Created(6)
            &&& viewed == Handle::Created(5)
            &&& format is R8G8B8A8Unorm
            &&& forall|i: int|
                0 <= i < script.len() && i != 7 ==> !((#[trigger] script[i]) is CreateImage)
        }),
{
}

/// Every upload copies the whole of its staging buffer into the whole of its
/// image, row by row: the region starts at the origin, ends at the far corner of
/// the image, and its rows are as long as the image is wide. Before that the
/// image is made ready to be filled, and afterwards to be read by shaders.
pub proof fn law_upload_fills_the_whole_image(
    model: IntegrationModel,
    id: TextureKey,
    delta: ImageDelta,
)
    ensures
        ({
            let script = upload_script(model, id, delta);
            &&& script[7] matches Command::CreateImage { config }
            &&& script[11] matches Command::BeginCommandBuffer { commands: begun }
            &&& script[12] matches Command::ImageBarrier {
                commands: first,
                image: readied,
                transition: ready,
            }
            &&& script[13] matches Command::CopyBufferToImage { commands, buffer, image, region }
            &&& script[14] matches Command::ImageBarrier {
                commands: last,
                image: filled,
                transition: done,
            }
            &&& begun == Handle::Created(1) && first == begun && commands == begun && last == begun
            &&& buffer == Handle::Created(3)
            &&& image == Handle::Created(5) && readied == image && filled == image
            &&& region.buffer_offset == 0
            &&& region.buffer_row_length == width_of(delta.image) as u32
            &&& region.buffer_image_height == height_of(delta.image) as u32
            &&& region.image_offset.x == 0 && region.image_offset.y == 0
            &&& region.image_offset.z == 0
            &&& region.image_offset.x + region.image_extent.width == config.extent.width
            &&& region.image_offset.y + region.image_extent.height == config.extent.height
            &&& region.image_offset.z + region.image_extent.depth == config.extent.depth
            &&& ready.src_access is NoAccess && ready.dst_access is TransferWrite
            &&& ready.old_layout is Undefined && ready.new_layout is TransferDst
            &&& ready.src_stage is Host && ready.dst_stage is Transfer
            &&& done.src_access is TransferWrite && done.dst_access is ShaderRead
            &&& done.old_layout is TransferDst && done.new_layout is ShaderReadOnly
            &&& done.src_stage is Transfer && done.dst_stage is VertexShader
        }),
{
}

/// Every upload submits what it recorded, once recording has ended, and waits
/// for the device to be done with it before anything else happens.
pub proof fn law_upload_waits_for_the_copy(
    model: IntegrationModel,
    id: TextureKey,
    delta: ImageDelta,
)
    ensures
        ({
            let script = upload_script(model, id, delta);
            &&& script[15] matches Command::EndCommandBuffer { commands: ended }
            &&& script[16] matches Command::QueueSubmit { commands, fence }
            &&& script[17] matches Command::WaitForFence { fence: awaited }
            &&& ended == Handle::Created(1)
            &&& commands == Handle::Created(1)
            &&& fence == Handle::Created(2)
            &&& awaited == Handle::Created(2)
        }),
{
}

/// A new texture gets a descriptor set, from the renderer's pool and after its
/// first layout, that shows shaders the view of the image through the renderer's
/// sampler.
pub proof fn law_new_texture_is_shown_to_shaders(
    model: IntegrationModel,
    id: TextureKey,
    delta: ImageDelta,
)
    requires
        delta.pos is None,
    ensures
        ({
            let script = upload_script(model, id, delta);
            &&& script.len() == 24
            &&& script[18] matches Command::AllocateDescriptorSet { pool, layout }
            &&& script[19] matches Command::UpdateDescriptorSet {
                descriptor_set,
                binding,
                array_element,
                image_view,
                image_layout,
                sampler,
            }
            &&& pool == Handle::Known(model.descriptor_pool)
            &&& layout == Handle::Known(model.descriptor_set_layouts[0])
            &&& descriptor_set == Handle::Created(8)
            &&& binding == 0
            &&& array_element == 0
            &&& image_view == Handle::Created(7)
            &&& image_layout is ShaderReadOnly
            &&& sampler == Handle::Known(model.sampler)
        }),
{
}

/// A patch is recorded anew: the texture that is there is made ready to be
/// copied to and the uploaded image to be copied from.
pub proof fn law_patch_readies_both_images(
    model: IntegrationModel,
    id: TextureKey,
    delta: ImageDelta,
)
    requires
        delta.pos is Some,
        model.textures.images.contains_key(id),
    ensures
        ({
            let script = upload_script(model, id, delta);
            &&& script.len() == 35
            &&& script[18] matches Command::ResetCommandPool { pool }
            &&& script[19] matches Command::ResetFence { fence }
            &&& script[20] matches Command::BeginCommandBuffer { commands: begun }
            &&& script[21] matches Command::ImageBarrier {
                commands: first,
                image: texture,
                transition: target,
            }
            &&& script[22] matches Command::ImageBarrier {
                commands: second,
                image,
                transition: source,
            }
            &&& pool == Handle::Created(0)
            &&& fence == Handle::Created(2)
            &&& begun == Handle::Created(1) && first == begun && second == begun
            &&& texture == Handle::Known(model.textures.images[id])
            &&& image == Handle::Created(5)
            &&& target.src_access is ShaderRead && target.dst_access is TransferWrite
            &&& target.old_layout is Undefined && target.new_layout is TransferDst
            &&& target.src_stage is FragmentShader && target.dst_stage is Transfer
            &&& source.src_access is ShaderRead && source.dst_access is TransferRead
            &&& source.old_layout is ShaderReadOnly && source.new_layout is TransferSrc
            &&& source.src_stage is FragmentShader && source.dst_stage is Transfer
        }),
{
}

/// A patch is copied from the whole of the uploaded image, texel for texel, to
/// its place in the texture: the corner nearest the origin is the position, and
/// the far one lies the width and the height of the patch away from it.
pub proof fn law_patch_goes_to_its_place(
    model: IntegrationModel,
    id: TextureKey,
    delta: ImageDelta,
)
    requires
        delta.pos is Some,
        model.textures.images.contains_key(id),
        ({
            let pos = delta.pos->0;
            corner_fits(pos.0, width_of(delta.image)) && corner_fits(
                pos.1,
                height_of(delta.image),
            )
        }),
    ensures
        ({
            let script = upload_script(model, id, delta);
            let width = width_of(delta.image) as i32;
            let height = height_of(delta.image) as i32;
            let pos = delta.pos->0;
            &&& script[23] matches Command::BlitImage { commands, src, dst, region, filter }
            &&& commands == Handle::Created(1)
            &&& src == Handle::Created(5)
            &&& dst == Handle::Known(model.textures.images[id])
            &&& region.src_from.x == 0 && region.src_from.y == 0 && region.src_from.z == 0
            &&& region.src_to.x == width && region.src_to.y == height && region.src_to.z == 1
            &&& region.dst_from.x == pos.0 as i32
            &&& region.dst_from.y == pos.1 as i32
            &&& region.dst_from.z == 0
            &&& region.dst_to.x == region.dst_from.x + width
            &&& region.dst_to.y == region.dst_from.y + height
            &&& region.dst_to.z == 1
            &&& filter is Nearest
        }),
{
    let width = width_of(delta.image);
    let height = height_of(delta.image);
    assert((width as u32) as i32 == width as i32) by (bit_vector);
    assert((height as u32) as i32 == height as i32) by (bit_vector);
    assert(1u32 as i32 == 1i32) by (bit_vector);
}

/// After a patch was copied the texture is made readable by shaders again, the
/// device is waited for, and only then is the uploaded image destroyed.
pub proof fn law_patch_waits_and_cleans_up(
    model: IntegrationModel,
    id: TextureKey,
    delta: ImageDelta,
)
    requires
        delta.pos is Some,
        model.textures.images.contains_key(id),
    ensures
        ({
            let script = upload_script(model, id, delta);
            &&& script[24] matches Command::ImageBarrier {
                commands: first,
                image: texture,
                transition,
            }
            &&& script[25] matches Command::EndCommandBuffer { commands: ended }
            &&& script[26] matches Command::QueueSubmit { commands, fence }
            &&& script[27] matches Command::WaitForFence { fence: awaited }
            &&& script[28] matches Command::DestroyImage { image }
            &&& script[29] matches Command::DestroyImageView { view }
            &&& script[30] matches Command::FreeAllocation { allocation }
            &&& first == Handle::Created(1) && ended == first && commands == first
            &&& texture == Handle::Known(model.textures.images[id])
            &&& transition.src_access is TransferWrite && transition.dst_access is ShaderRead
            &&& transition.old_layout is TransferDst && transition.new_layout is ShaderReadOnly
            &&& transition.src_stage is Transfer && transition.dst_stage is FragmentShader
            &&& fence == Handle::Created(2) && awaited == fence
            &&& image == Handle::Created(5)
            &&& view == Handle::Created(7)
            &&& allocation == Handle::Created(6)
        }),
{
}

/// An upload that found its texture, or became one, ends by releasing the
/// staging buffer and its memory, the command pool and the fence. One that found
/// none ends when the device is done.
pub proof fn law_upload_ends_by_cleaning_up(
    model: IntegrationModel,
    id: TextureKey,
    delta: ImageDelta,
)
    ensures
        ({
            let script = upload_script(model, id, delta);
            let n = script.len() as int;
            if delta.pos is Some && !model.textures.images.contains_key(id) {
                n == 18
            } else {
                &&& script[n - 4] matches Command::DestroyBuffer { buffer }
                &&& script[n - 3] matches Command::FreeAllocation { allocation }
                &&& script[n - 2] matches Command::DestroyCommandPool { pool }
                &&& script[n - 1] matches Command::DestroyFence { fence }
                &&& buffer == Handle::Created(3)
                &&& allocation == Handle::Created(4)
                &&& pool == Handle::Created(0)
                &&& fence == Handle::Created(2)
            }
        }),
{
}

/// Once an upload has started, the extent noted for its texture is that of the
/// image, and nothing else has changed.
pub proof fn law_started_upload_notes_the_extent(
    model: IntegrationModel,
    id: TextureKey,
    delta: ImageDelta,
)
    ensures
        ({
            let after = upload_started(model, id, delta);
            &&& after.textures.extents.contains_key(id)
            &&& after.textures.extents[id].width == width_of(delta.image) as u32
            &&& after.textures.extents[id].height == height_of(delta.image) as u32
            &&& after.textures.extents[id].depth == 1
            &&& after.textures.extents.remove(id) =~= model.textures.extents.remove(id)
            &&& after.textures.images == model.textures.images
            &&& after.textures.views == model.textures.views
            &&& after.textures.allocations == model.textures.allocations
            &&& after.textures.descriptor_sets == model.textures.descriptor_sets
            &&& after == (IntegrationModel { textures: after.textures, ..model })
        }),
{
}

/// Once an upload has finished as a new texture, the texture's image, memory,
/// view and descriptor set are the ones that the device created for it, and
/// nothing else has changed. After any other upload nothing has changed.
pub proof fn law_finished_upload_keeps_the_new_objects(
    model: IntegrationModel,
    id: TextureKey,
    fate: Fate,
    created: Seq<u64>,
)
    ensures
        ({
            let after = upload_finished(model, id, fate, created);
            if fate is Register {
                &&& after.textures.images =~= model.textures.images.insert(id, created[5])
                &&& after.textures.allocations =~= model.textures.allocations.insert(
                    id,
                    created[6],
                )
                &&& after.textures.views =~= model.textures.views.insert(id, created[7])
                &&& after.textures.descriptor_sets =~= model.textures.descriptor_sets.insert(
                    id,
                    created[8],
                )
                &&& after.textures.extents == model.textures.extents
                &&& after == (IntegrationModel { textures: after.textures, ..model })
            } else {
                after == model
            }
        }),
{
}

} // verus!
