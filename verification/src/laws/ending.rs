//! Of the order in which objects are given up.
use vstd::prelude::*;

use crate::command::{Command, Handle};
use crate::integration::IntegrationModel;
use crate::integration::release::{
    destroy_buffers, destroy_script, destroyed, free_script, tables_without,
};
use crate::tables::{lookup, TextureModel};
use crate::texture::TextureKey;

verus! {

/// Textures are given up one after the other: of each its image is destroyed,
/// then its view, and then its memory is freed, as far as it has them; and then
/// it is in no table.
pub proof fn law_textures_are_given_up_in_order(
    tables: TextureModel,
    keys: Seq<TextureKey>,
    n: nat,
)
    requires
        n < keys.len(),
    ensures
        free_script(tables, keys, 0).len() == 0,
        tables_without(tables, keys, 0) == tables,
        ({
            let here = tables_without(tables, keys, n);
            let less = tables_without(tables, keys, n + 1);
            let key = keys[n as int];
            let image = match lookup(here.images, key) {
                Some(raw) => seq![Command::DestroyImage { image: Handle::Known(raw) }],
                None => seq![],
            };
            let view = match lookup(here.views, key) {
                Some(raw) => seq![Command::DestroyImageView { view: Handle::Known(raw) }],
                None => seq![],
            };
            let memory = match lookup(here.allocations, key) {
                Some(raw) => seq![Command::FreeAllocation { allocation: Handle::Known(raw) }],
                None => seq![],
            };
            &&& free_script(tables, keys, n + 1) =~= free_script(tables, keys, n) + image + view
                + memory
            &&& less.images =~= here.images.remove(key)
            &&& less.views =~= here.views.remove(key)
            &&& less.allocations =~= here.allocations.remove(key)
            &&& less.descriptor_sets =~= here.descriptor_sets.remove(key)
            &&& less.extents =~= here.extents.remove(key)
        }),
{
}

proof fn lemma_buffers_stand(buffers: Seq<u64>, allocations: Seq<u64>, n: nat, i: int)
    requires
        0 <= i < n,
    ensures
        destroy_buffers(buffers, allocations, n).len() == 2 * n,
        destroy_buffers(buffers, allocations, n)[2 * i] == (Command::DestroyBuffer {
            buffer: Handle::Known(buffers[i]),
        }),
        destroy_buffers(buffers, allocations, n)[2 * i + 1] == (Command::FreeAllocation {
            allocation: Handle::Known(allocations[i]),
        }),
    decreases n,
{
    lemma_buffers_length(buffers, allocations, (n - 1) as nat);
    if i < n - 1 {
        lemma_buffers_stand(buffers, allocations, (n - 1) as nat, i);
    }
}

proof fn lemma_buffers_length(buffers: Seq<u64>, allocations: Seq<u64>, n: nat)
    ensures
        destroy_buffers(buffers, allocations, n).len() == 2 * n,
    decreases n,
{
    if n > 0 {
        lemma_buffers_length(buffers, allocations, (n - 1) as nat);
    }
}

/// At the end the layout of user textures goes first; then the index buffers and
/// the vertex buffers, each right before its memory; the sampler, the pipeline
/// and its layout; the layouts of the swapchain images; the pool; and last the
/// images of the textures, their views, and their memory.
pub proof fn law_everything_is_given_up_in_order(
    model: IntegrationModel,
    images: Seq<u64>,
    views: Seq<u64>,
    allocations: Seq<u64>,
    i: int,
)
    requires
        model.wf(),
    ensures
        ({
            let script = destroy_script(model, images, views, allocations);
            let n = model.descriptor_set_layouts.len() as int;
            let textures = 5 * n + 5;
            let last = textures + images.len() + views.len();
            &&& script.len() == last + allocations.len()
            &&& script[0] == Command::DestroyDescriptorSetLayout {
                layout: Handle::Known(model.user_texture_layout),
            }
            &&& 0 <= i < n ==> {
                &&& script[1 + 2 * i] == Command::DestroyBuffer {
                    buffer: Handle::Known(model.index_buffers[i]),
                }
                &&& script[2 + 2 * i] == Command::FreeAllocation {
                    allocation: Handle::Known(model.index_buffer_allocations[i]),
                }
                &&& script[2 * n + 1 + 2 * i] == Command::DestroyBuffer {
                    buffer: Handle::Known(model.vertex_buffers[i]),
                }
                &&& script[2 * n + 2 + 2 * i] == Command::FreeAllocation {
                    allocation: Handle::Known(model.vertex_buffer_allocations[i]),
                }
                &&& script[4 * n + 4 + i] == Command::DestroyDescriptorSetLayout {
                    layout: Handle::Known(model.descriptor_set_layouts[i]),
                }
            }
            &&& script[4 * n + 1] == Command::DestroySampler {
                sampler: Handle::Known(model.sampler),
            }
            &&& script[4 * n + 2] == Command::DestroyPipeline {
                pipeline: Handle::Known(model.pipeline),
            }
            &&& script[4 * n + 3] == Command::DestroyPipelineLayout {
                layout: Handle::Known(model.pipeline_layout),
            }
            &&& script[5 * n + 4] == Command::DestroyDescriptorPool {
                pool: Handle::Known(model.descriptor_pool),
            }
            &&& 0 <= i < images.len() ==> script[textures + i] == Command::DestroyImage {
                image: Handle::Known(images[i]),
            }
            &&& 0 <= i < views.len() ==> script[textures + images.len() + i]
                == Command::DestroyImageView { view: Handle::Known(views[i]) }
            &&& 0 <= i < allocations.len() ==> script[last + i] == Command::FreeAllocation {
                allocation: Handle::Known(allocations[i]),
            }
        }),
{
    let n = model.descriptor_set_layouts.len();
    lemma_buffers_length(model.index_buffers, model.index_buffer_allocations, n);
    lemma_buffers_length(model.vertex_buffers, model.vertex_buffer_allocations, n);
    if 0 <= i < n {
        lemma_buffers_stand(model.index_buffers, model.index_buffer_allocations, n, i);
        lemma_buffers_stand(model.vertex_buffers, model.vertex_buffer_allocations, n, i);
    }
}

/// After the end the renderer knows no buffer and no texture object any more,
/// and is otherwise as before.
pub proof fn law_destroyed_renderer_is_empty(model: IntegrationModel)
    ensures
        ({
            let after = destroyed(model);
            &&& after.vertex_buffers.len() == 0
            &&& after.vertex_buffer_allocations.len() == 0
            &&& after.index_buffers.len() == 0
            &&& after.index_buffer_allocations.len() == 0
            &&& after.textures.images =~= Map::<TextureKey, u64>::empty()
            &&& after.textures.views =~= Map::<TextureKey, u64>::empty()
            &&& after.textures.allocations =~= Map::<TextureKey, u64>::empty()
            &&& after.textures.descriptor_sets == model.textures.descriptor_sets
            &&& after.textures.extents == model.textures.extents
            &&& after.descriptor_pool == model.descriptor_pool
            &&& after.descriptor_set_layouts == model.descriptor_set_layouts
            &&& after.pipeline_layout == model.pipeline_layout
            &&& after.pipeline == model.pipeline
            &&& after.sampler == model.sampler
            &&& after.user_texture_layout == model.user_texture_layout
            &&& after.user_textures == model.user_textures
            &&& after.physical_width == model.physical_width
            &&& after.physical_height == model.physical_height
            &&& after.queue_family == model.queue_family
            &&& after.context == model.context
        }),
{
}

} // verus!
