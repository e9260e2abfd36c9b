//! Of bringing images to the device.
use vstd::prelude::*;

use crate::command::{Command, Handle, Object, ObjectKind};
use crate::config::ImageLayout;
use crate::integration::IntegrationModel;
use crate::integration::upload::{
    delta_extent, patch_fits, patch_region, upload_fate, upload_finished, upload_script,
    upload_started, UPLOAD_COMMANDS, UPLOAD_FENCE, UPLOAD_IMAGE, UPLOAD_IMAGE_MEMORY, UPLOAD_POOL,
    UPLOAD_STAGING, UPLOAD_STAGING_MEMORY, UPLOAD_VIEW,
};
use crate::script::{creates_kind, creations, lemma_creations_push, releases};
use crate::tables::law_tables_stay_consistent;
use crate::texture::{ImageDelta, TextureKey};

verus! {

/// The layout of an image after the first `n` commands of a script.
pub open spec fn layout_at(
    script: Seq<Command>,
    image: Handle,
    start: ImageLayout,
    n: nat,
) -> ImageLayout
    decreases n,
{
    if n == 0 {
        start
    } else {
        match script[n - 1] {
            Command::ImageBarrier { image: moved, transition, .. } => if moved == image {
                transition.new_layout
            } else {
                layout_at(script, image, start, (n - 1) as nat)
            },
            _ => layout_at(script, image, start, (n - 1) as nat),
        }
    }
}

/// The object is left in the layout that the last barrier on it leads to.
proof fn lemma_layout_last(
    script: Seq<Command>,
    image: Handle,
    start: ImageLayout,
    last: int,
    n: nat,
)
    requires
        0 <= last < n <= script.len(),
        script[last] is ImageBarrier,
        script[last]->ImageBarrier_image == image,
        forall|k: int|
            last < k < n ==> !((#[trigger] script[k]) is ImageBarrier
                && script[k]->ImageBarrier_image == image),
    ensures
        layout_at(script, image, start, n) == script[last]->transition.new_layout,
    decreases n,
{
    if n > last + 1 {
        assert(!(script[n - 1] is ImageBarrier && script[n - 1]->ImageBarrier_image == image));
        lemma_layout_last(script, image, start, last, (n - 1) as nat);
    }
}

/// An image that becomes a texture is filled while it is in the layout for
/// that, and ends in the layout in which its descriptor set says that shaders
/// find it.
pub proof fn law_new_texture_is_readable(
    model: IntegrationModel,
    id: TextureKey,
    delta: ImageDelta,
)
    requires
        upload_fate(model, id, delta) is Register,
    ensures
        ({
            let script = upload_script(model, id, delta);
            let image = Handle::Created(UPLOAD_IMAGE);
            &&& forall|n: int|
                0 <= n < script.len() && (#[trigger] script[n]) is CopyBufferToImage ==> {
                    &&& script[n]->CopyBufferToImage_image == image
                    &&& layout_at(script, image, ImageLayout::Undefined, n as nat)
                        == ImageLayout::TransferDst
                }
            &&& forall|n: int|
                0 <= n < script.len() && (#[trigger] script[n]) is UpdateDescriptorSet
                    ==> script[n]->image_layout == layout_at(
                    script,
                    image,
                    ImageLayout::Undefined,
                    script.len(),
                )
            &&& layout_at(script, image, ImageLayout::Undefined, script.len())
                == ImageLayout::ShaderReadOnly
        }),
{
    let script = upload_script(model, id, delta);
    let image = Handle::Created(UPLOAD_IMAGE);
    lemma_layout_last(script, image, ImageLayout::Undefined, 12, 13);
    lemma_layout_last(script, image, ImageLayout::Undefined, 14, script.len());
    assert forall|n: int| 0 <= n < script.len() && (
    #[trigger] script[n]) is CopyBufferToImage implies n == 13 by {}
}

/// A patch is copied while both images are in the layouts for that, and leaves
/// the texture in the layout in which shaders find it.
pub proof fn law_patched_texture_is_readable(
    model: IntegrationModel,
    id: TextureKey,
    delta: ImageDelta,
)
    requires
        upload_fate(model, id, delta) is Patch,
    ensures
        ({
            let script = upload_script(model, id, delta);
            let image = Handle::Created(UPLOAD_IMAGE);
            let texture = Handle::Known(model.textures.images[id]);
            &&& forall|n: int|
                0 <= n < script.len() && (#[trigger] script[n]) is BlitImage ==> {
                    &&& script[n]->src == image
                    &&& script[n]->dst == texture
                    &&& layout_at(script, image, ImageLayout::Undefined, n as nat)
                        == ImageLayout::TransferSrc
                    &&& layout_at(script, texture, ImageLayout::ShaderReadOnly, n as nat)
                        == ImageLayout::TransferDst
                }
            &&& layout_at(script, texture, ImageLayout::ShaderReadOnly, script.len())
                == ImageLayout::ShaderReadOnly
        }),
{
    let script = upload_script(model, id, delta);
    let image = Handle::Created(UPLOAD_IMAGE);
    let texture = Handle::Known(model.textures.images[id]);
    lemma_layout_last(script, image, ImageLayout::Undefined, 22, 23);
    lemma_layout_last(script, texture, ImageLayout::ShaderReadOnly, 21, 23);
    lemma_layout_last(script, texture, ImageLayout::ShaderReadOnly, 24, script.len());
    assert forall|n: int| 0 <= n < script.len() && (
    #[trigger] script[n]) is BlitImage implies n == 23 by {}
}

/// A patch is copied pixel for pixel: the part of the texture that it covers
/// is as large as the patch.
pub proof fn law_patch_is_not_scaled(delta: ImageDelta, pos: (usize, usize))
    requires
        patch_fits(delta, pos),
    ensures
        ({
            let region = patch_region(delta, pos);
            &&& region.dst_to.x - region.dst_from.x == region.src_to.x - region.src_from.x
            &&& region.dst_to.y - region.dst_from.y == region.src_to.y - region.src_from.y
            &&& region.dst_to.z - region.dst_from.z == region.src_to.z - region.src_from.z
        }),
{
    let width = delta.image.spec_width();
    let height = delta.image.spec_height();
    assert((width as u32) as i32 == width as i32) by (bit_vector);
    assert((height as u32) as i32 == height as i32) by (bit_vector);
    assert(1u32 as i32 == 1i32) by (bit_vector);
}

/// What the creation with this number of an upload brings about.
pub open spec fn upload_kind(number: nat) -> ObjectKind {
    if number == UPLOAD_POOL {
        ObjectKind::CommandPool
    } else if number == UPLOAD_COMMANDS {
        ObjectKind::CommandBuffer
    } else if number == UPLOAD_FENCE {
        ObjectKind::Fence
    } else if number == UPLOAD_STAGING {
        ObjectKind::Buffer
    } else if number == UPLOAD_STAGING_MEMORY {
        ObjectKind::Allocation
    } else if number == UPLOAD_IMAGE {
        ObjectKind::Image
    } else if number == UPLOAD_IMAGE_MEMORY {
        ObjectKind::Allocation
    } else if number == UPLOAD_VIEW {
        ObjectKind::ImageView
    } else {
        ObjectKind::DescriptorSet
    }
}

/// How the number of creations grows along a script.
proof fn lemma_creations_at(script: Seq<Command>, i: int)
    requires
        0 <= i < script.len(),
    ensures
        creations(script.take(i + 1)) == creations(script.take(i)) + (if script[i].creates() is Some {
            1nat
        } else {
            0
        }),
{
    assert(script.take(i + 1) =~= script.take(i).push(script[i]));
    lemma_creations_push(script.take(i), script[i]);
}

/// The numbers of an upload's creations are those of its objects.
pub proof fn law_upload_creates(
    model: IntegrationModel,
    id: TextureKey,
    delta: ImageDelta,
    number: nat,
)
    requires
        number < 8 || number == 8 && upload_fate(model, id, delta) is Register,
    ensures
        creates_kind(upload_script(model, id, delta), number, upload_kind(number)),
{
    let script = upload_script(model, id, delta);
    assert(script.take(0) =~= Seq::<Command>::empty());
    lemma_creations_at(script, 0);
    lemma_creations_at(script, 1);
    lemma_creations_at(script, 2);
    lemma_creations_at(script, 3);
    lemma_creations_at(script, 4);
    lemma_creations_at(script, 5);
    lemma_creations_at(script, 6);
    lemma_creations_at(script, 7);
    lemma_creations_at(script, 8);
    lemma_creations_at(script, 9);
    lemma_creations_at(script, 10);
    lemma_creations_at(script, 11);
    lemma_creations_at(script, 12);
    lemma_creations_at(script, 13);
    lemma_creations_at(script, 14);
    lemma_creations_at(script, 15);
    lemma_creations_at(script, 16);
    lemma_creations_at(script, 17);
    let at: int = if number < 5 {
        number as int
    } else if number == 5 {
        7
    } else if number == 6 {
        8
    } else if number == 7 {
        10
    } else {
        18
    };
    assert(script[at].creates() == Some(upload_kind(number)));
}

/// The upload ends the life of the object with this number.
pub open spec fn upload_releases(script: Seq<Command>, number: usize) -> bool {
    releases(script, upload_kind(number as nat), Handle::Created(number))
}

/// An upload into a new texture releases what it needed on the way, and keeps
/// the image, its memory, its view and its descriptor set. (The command buffer
/// goes with its pool.)
pub proof fn law_new_texture_keeps_only_its_objects(
    model: IntegrationModel,
    id: TextureKey,
    delta: ImageDelta,
    number: usize,
)
    requires
        upload_fate(model, id, delta) is Register,
        number <= 8,
        number != UPLOAD_COMMANDS,
    ensures
        upload_releases(upload_script(model, id, delta), number) <==> number < UPLOAD_IMAGE,
{
    let script = upload_script(model, id, delta);
    assert(script[20] == Command::DestroyBuffer { buffer: Handle::Created(UPLOAD_STAGING) });
    assert(script[21] == Command::FreeAllocation {
        allocation: Handle::Created(UPLOAD_STAGING_MEMORY),
    });
    assert(script[22] == Command::DestroyCommandPool { pool: Handle::Created(UPLOAD_POOL) });
    assert(script[23] == Command::DestroyFence { fence: Handle::Created(UPLOAD_FENCE) });
}

/// An upload into a texture that is there releases all that it created.
pub proof fn law_patch_keeps_nothing(
    model: IntegrationModel,
    id: TextureKey,
    delta: ImageDelta,
    number: usize,
)
    requires
        upload_fate(model, id, delta) is Patch,
        number < 8,
        number != UPLOAD_COMMANDS,
    ensures
        upload_releases(upload_script(model, id, delta), number),
{
    let script = upload_script(model, id, delta);
    assert(script[28] == Command::DestroyImage { image: Handle::Created(UPLOAD_IMAGE) });
    assert(script[29] == Command::DestroyImageView { view: Handle::Created(UPLOAD_VIEW) });
    assert(script[30] == Command::FreeAllocation {
        allocation: Handle::Created(UPLOAD_IMAGE_MEMORY),
    });
    assert(script[31] == Command::DestroyBuffer { buffer: Handle::Created(UPLOAD_STAGING) });
    assert(script[32] == Command::FreeAllocation {
        allocation: Handle::Created(UPLOAD_STAGING_MEMORY),
    });
    assert(script[33] == Command::DestroyCommandPool { pool: Handle::Created(UPLOAD_POOL) });
    assert(script[34] == Command::DestroyFence { fence: Handle::Created(UPLOAD_FENCE) });
}

/// An upload for which there is no texture releases nothing, not even what it
/// needed on the way.
pub proof fn law_orphan_releases_nothing(
    model: IntegrationModel,
    id: TextureKey,
    delta: ImageDelta,
    kind: ObjectKind,
    handle: Handle,
)
    requires
        upload_fate(model, id, delta) is Orphan,
    ensures
        !releases(upload_script(model, id, delta), kind, handle),
{
    let script = upload_script(model, id, delta);
    assert forall|i: int| 0 <= i < script.len() implies (
    #[trigger] script[i]).releases() is None by {}
}

/// No upload releases an object that was there before it.
pub proof fn law_upload_releases_only_its_own(
    model: IntegrationModel,
    id: TextureKey,
    delta: ImageDelta,
    kind: ObjectKind,
    raw: u64,
)
    ensures
        !releases(upload_script(model, id, delta), kind, Handle::Known(raw)),
{
    let script = upload_script(model, id, delta);
    assert forall|i: int| 0 <= i < script.len() implies (#[trigger] script[i]).releases() != Some(
        Object { kind, handle: Handle::Known(raw) },
    ) by {}
}

/// An upload keeps the renderer well-formed, and changes nothing but the
/// tables; of these, only what they say of its texture.
pub proof fn law_upload_changes_only_its_texture(
    model: IntegrationModel,
    id: TextureKey,
    delta: ImageDelta,
    created: Seq<u64>,
)
    requires
        model.wf(),
    ensures
        ({
            let after = upload_finished(
                upload_started(model, id, delta),
                id,
                upload_fate(model, id, delta),
                created,
            );
            &&& after.wf()
            &&& after == (IntegrationModel { textures: after.textures, ..model })
            &&& after.textures.without(id) == model.textures.without(id)
        }),
{
    let fate = upload_fate(model, id, delta);
    let after = upload_finished(upload_started(model, id, delta), id, fate, created);
    law_tables_stay_consistent(
        model.textures,
        id,
        delta_extent(delta),
        created[5],
        created[6],
        created[7],
        created[8],
    );
    assert(after.textures.without(id) =~= model.textures.without(id));
}

} // verus!
