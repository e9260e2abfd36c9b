//! Of objects that are released: each once.
use vstd::prelude::*;

use crate::command::{Command, Handle, Object, ObjectKind};
use crate::integration::IntegrationModel;
use crate::integration::release::{
    destroy_buffers, destroy_image, destroy_images, destroy_layouts, destroy_script, destroy_view,
    destroy_views, free_allocation, free_allocations, free_commands, free_script, paired,
    tables_without,
};
use crate::integration::upload::{
    cleanup_script, delta_extent, patch_region, patch_script, register_script, transfer_script,
    upload_script,
};
use crate::laws::lifetime::law_free_releases_only_these;
use crate::laws::paint::law_freed_texture_is_gone;
use crate::script::{lemma_release_count_add, release_count, releases};
use crate::tables::{lookup, TextureModel};
use crate::texture::{bytes_of_pixels, ImageDelta, TextureKey};

verus! {

/// How often a handle stands in the list.
pub open spec fn occurrences(handles: Seq<u64>, raw: u64) -> nat
    decreases handles.len(),
{
    if handles.len() == 0 {
        0
    } else {
        occurrences(handles.drop_last(), raw) + (if handles.last() == raw {
            1nat
        } else {
            0
        })
    }
}

/// The handles of all objects of a kind that the renderer has to release, those
/// of its textures being the ones given.
pub open spec fn held(
    model: IntegrationModel,
    images: Seq<u64>,
    views: Seq<u64>,
    allocations: Seq<u64>,
    kind: ObjectKind,
) -> Seq<u64> {
    match kind {
        ObjectKind::DescriptorPool => seq![model.descriptor_pool],
        ObjectKind::DescriptorSetLayout => seq![model.user_texture_layout]
            + model.descriptor_set_layouts,
        ObjectKind::PipelineLayout => seq![model.pipeline_layout],
        ObjectKind::Pipeline => seq![model.pipeline],
        ObjectKind::Sampler => seq![model.sampler],
        ObjectKind::Buffer => model.index_buffers + model.vertex_buffers,
        ObjectKind::Allocation => model.index_buffer_allocations + model.vertex_buffer_allocations
            + allocations,
        ObjectKind::Image => images,
        ObjectKind::ImageView => views,
        ObjectKind::DescriptorSet => seq![],
        ObjectKind::ShaderModule => seq![],
        ObjectKind::CommandPool => seq![],
        ObjectKind::CommandBuffer => seq![],
        ObjectKind::Fence => seq![],
    }
}

pub proof fn lemma_occurrences_add(first: Seq<u64>, second: Seq<u64>, raw: u64)
    ensures
        occurrences(first + second, raw) == occurrences(first, raw) + occurrences(second, raw),
    decreases second.len(),
{
    if second.len() == 0 {
        assert(first + second =~= first);
    } else {
        lemma_occurrences_add(first, second.drop_last(), raw);
        assert((first + second).drop_last() =~= first + second.drop_last());
    }
}

proof fn lemma_occurs_once(handles: Seq<u64>, raw: u64)
    requires
        handles.no_duplicates(),
    ensures
        occurrences(handles, raw) == (if handles.contains(raw) {
            1nat
        } else {
            0
        }),
    decreases handles.len(),
{
    if handles.len() > 0 {
        let shorter = handles.drop_last();
        lemma_occurs_once(shorter, raw);
        if handles.last() == raw {
            assert(!shorter.contains(raw));
            assert(handles[handles.len() - 1] == raw);
        } else if handles.contains(raw) {
            let i = choose|i: int| 0 <= i < handles.len() && handles[i] == raw;
            assert(shorter[i] == raw);
        } else {
            assert forall|i: int| 0 <= i < shorter.len() implies shorter[i] != raw by {
                assert(handles[i] == shorter[i]);
            }
        }
    }
}

/// A list of releases of one kind releases each handle as often as it is
/// listed.
proof fn lemma_list_count(
    script: Seq<Command>,
    handles: Seq<u64>,
    released: ObjectKind,
    kind: ObjectKind,
    raw: u64,
)
    requires
        script.len() == handles.len(),
        forall|i: int|
            0 <= i < script.len() ==> (#[trigger] script[i]).releases() == Some(
                Object { kind: released, handle: Handle::Known(handles[i]) },
            ),
    ensures
        release_count(script, kind, Handle::Known(raw)) == (if kind == released {
            occurrences(handles, raw)
        } else {
            0
        }),
    decreases script.len(),
{
    if script.len() > 0 {
        let shorter = script.drop_last();
        assert forall|i: int| 0 <= i < shorter.len() implies (
        #[trigger] shorter[i]).releases() == Some(
            Object { kind: released, handle: Handle::Known(handles.drop_last()[i]) },
        ) by {
            assert(shorter[i] == script[i]);
        }
        lemma_list_count(shorter, handles.drop_last(), released, kind, raw);
        assert(script.last() == script[script.len() - 1]);
    }
}

proof fn lemma_buffers_count(
    buffers: Seq<u64>,
    allocations: Seq<u64>,
    n: nat,
    kind: ObjectKind,
    raw: u64,
)
    requires
        n <= buffers.len(),
        n <= allocations.len(),
    ensures
        release_count(destroy_buffers(buffers, allocations, n), kind, Handle::Known(raw)) == (
        match kind {
            ObjectKind::Buffer => occurrences(buffers.take(n as int), raw),
            ObjectKind::Allocation => occurrences(allocations.take(n as int), raw),
            _ => 0,
        }),
    decreases n,
{
    if n > 0 {
        let last = (n - 1) as nat;
        let destroy = Command::DestroyBuffer { buffer: Handle::Known(buffers[last as int]) };
        let free = Command::FreeAllocation {
            allocation: Handle::Known(allocations[last as int]),
        };
        let head = destroy_buffers(buffers, allocations, last);
        lemma_buffers_count(buffers, allocations, last, kind, raw);
        lemma_release_count_add(head, seq![destroy, free], kind, Handle::Known(raw));
        lemma_release_count_add(seq![destroy], seq![free], kind, Handle::Known(raw));
        lemma_list_count(
            seq![destroy],
            seq![buffers[last as int]],
            ObjectKind::Buffer,
            kind,
            raw,
        );
        lemma_list_count(
            seq![free],
            seq![allocations[last as int]],
            ObjectKind::Allocation,
            kind,
            raw,
        );
        assert(seq![destroy] + seq![free] =~= seq![destroy, free]);
        lemma_occurrences_add(buffers.take(last as int), seq![buffers[last as int]], raw);
        lemma_occurrences_add(allocations.take(last as int), seq![allocations[last as int]], raw);
        assert(buffers.take(n as int) =~= buffers.take(last as int) + seq![buffers[last as int]]);
        assert(allocations.take(n as int) =~= allocations.take(last as int)
            + seq![allocations[last as int]]);
    }
}

/// Destroying the renderer releases each object as often as the renderer holds
/// it; with handles that differ from each other, that is once.
pub proof fn law_destroy_releases_each_object_once(
    model: IntegrationModel,
    images: Seq<u64>,
    views: Seq<u64>,
    allocations: Seq<u64>,
    kind: ObjectKind,
    raw: u64,
)
    requires
        model.buffers_paired(),
    ensures
        ({
            let handles = held(model, images, views, allocations, kind);
            let count = release_count(
                destroy_script(model, images, views, allocations),
                kind,
                Handle::Known(raw),
            );
            &&& count == occurrences(handles, raw)
            &&& handles.no_duplicates() ==> count == (if handles.contains(raw) {
                1nat
            } else {
                0
            })
        }),
{
    let handle = Handle::Known(raw);
    let user_layout = seq![
        Command::DestroyDescriptorSetLayout { layout: Handle::Known(model.user_texture_layout) },
    ];
    let index_count = paired(model.index_buffers, model.index_buffer_allocations);
    let indices = destroy_buffers(
        model.index_buffers,
        model.index_buffer_allocations,
        index_count,
    );
    let vertex_count = paired(model.vertex_buffers, model.vertex_buffer_allocations);
    let vertices = destroy_buffers(
        model.vertex_buffers,
        model.vertex_buffer_allocations,
        vertex_count,
    );
    let sampler = seq![Command::DestroySampler { sampler: Handle::Known(model.sampler) }];
    let pipeline = seq![Command::DestroyPipeline { pipeline: Handle::Known(model.pipeline) }];
    let pipeline_layout = seq![
        Command::DestroyPipelineLayout { layout: Handle::Known(model.pipeline_layout) },
    ];
    let middle = seq![sampler[0], pipeline[0], pipeline_layout[0]];
    let layouts = destroy_layouts(model.descriptor_set_layouts);
    let pool = seq![
        Command::DestroyDescriptorPool { pool: Handle::Known(model.descriptor_pool) },
    ];
    let s2 = user_layout + indices;
    let s3 = s2 + vertices;
    let s4 = s3 + middle;
    let s5 = s4 + layouts;
    let s6 = s5 + pool;
    let s7 = s6 + destroy_images(images);
    let s8 = s7 + destroy_views(views);
    lemma_release_count_add(user_layout, indices, kind, handle);
    lemma_release_count_add(s2, vertices, kind, handle);
    lemma_release_count_add(s3, middle, kind, handle);
    lemma_release_count_add(s4, layouts, kind, handle);
    lemma_release_count_add(s5, pool, kind, handle);
    lemma_release_count_add(s6, destroy_images(images), kind, handle);
    lemma_release_count_add(s7, destroy_views(views), kind, handle);
    lemma_release_count_add(s8, free_allocations(allocations), kind, handle);
    lemma_release_count_add(sampler, pipeline, kind, handle);
    lemma_release_count_add(sampler + pipeline, pipeline_layout, kind, handle);
    assert(middle =~= sampler + pipeline + pipeline_layout);

    lemma_list_count(
        user_layout,
        seq![model.user_texture_layout],
        ObjectKind::DescriptorSetLayout,
        kind,
        raw,
    );
    lemma_buffers_count(
        model.index_buffers,
        model.index_buffer_allocations,
        index_count,
        kind,
        raw,
    );
    lemma_buffers_count(
        model.vertex_buffers,
        model.vertex_buffer_allocations,
        vertex_count,
        kind,
        raw,
    );
    assert(model.index_buffers.take(index_count as int) =~= model.index_buffers);
    assert(model.vertex_buffers.take(vertex_count as int) =~= model.vertex_buffers);
    assert(model.index_buffer_allocations.take(index_count as int)
        =~= model.index_buffer_allocations);
    assert(model.vertex_buffer_allocations.take(vertex_count as int)
        =~= model.vertex_buffer_allocations);
    lemma_list_count(sampler, seq![model.sampler], ObjectKind::Sampler, kind, raw);
    lemma_list_count(pipeline, seq![model.pipeline], ObjectKind::Pipeline, kind, raw);
    lemma_list_count(
        pipeline_layout,
        seq![model.pipeline_layout],
        ObjectKind::PipelineLayout,
        kind,
        raw,
    );
    lemma_list_count(
        layouts,
        model.descriptor_set_layouts,
        ObjectKind::DescriptorSetLayout,
        kind,
        raw,
    );
    lemma_list_count(pool, seq![model.descriptor_pool], ObjectKind::DescriptorPool, kind, raw);
    lemma_list_count(destroy_images(images), images, ObjectKind::Image, kind, raw);
    lemma_list_count(destroy_views(views), views, ObjectKind::ImageView, kind, raw);
    lemma_list_count(
        free_allocations(allocations),
        allocations,
        ObjectKind::Allocation,
        kind,
        raw,
    );

    lemma_occurrences_add(seq![model.user_texture_layout], model.descriptor_set_layouts, raw);
    lemma_occurrences_add(model.index_buffers, model.vertex_buffers, raw);
    lemma_occurrences_add(
        model.index_buffer_allocations,
        model.vertex_buffer_allocations,
        raw,
    );
    lemma_occurrences_add(
        model.index_buffer_allocations + model.vertex_buffer_allocations,
        allocations,
        raw,
    );
    let handles = held(model, images, views, allocations, kind);
    assert(occurrences(Seq::<u64>::empty(), raw) == 0);
    if handles.no_duplicates() {
        lemma_occurs_once(handles, raw);
    }
}

/// A script without a release releases nothing.
proof fn lemma_nothing_released(script: Seq<Command>, kind: ObjectKind, handle: Handle)
    requires
        forall|i: int| 0 <= i < script.len() ==> (#[trigger] script[i]).releases() is None,
    ensures
        release_count(script, kind, handle) == 0,
    decreases script.len(),
{
    if script.len() > 0 {
        assert forall|i: int| 0 <= i < script.len() - 1 implies (
        #[trigger] script.drop_last()[i]).releases() is None by {
            assert(script.drop_last()[i] == script[i]);
        }
        lemma_nothing_released(script.drop_last(), kind, handle);
        assert(script.last() == script[script.len() - 1]);
    }
}

/// An object that is released at all is released by some command.
proof fn lemma_counted_is_released(script: Seq<Command>, kind: ObjectKind, handle: Handle)
    requires
        release_count(script, kind, handle) > 0,
    ensures
        releases(script, kind, handle),
    decreases script.len(),
{
    if script.last().releases() == Some(Object { kind, handle }) {
        assert(script[script.len() - 1].releases() == Some(Object { kind, handle }));
    } else {
        lemma_counted_is_released(script.drop_last(), kind, handle);
        let i = choose|i: int|
            0 <= i < script.len() - 1 && (#[trigger] script.drop_last()[i]).releases() == Some(
                Object { kind, handle },
            );
        assert(script[i].releases() == Some(Object { kind, handle }));
    }
}

/// An upload releases no object twice.
pub proof fn law_upload_releases_no_object_twice(
    model: IntegrationModel,
    id: TextureKey,
    delta: ImageDelta,
    kind: ObjectKind,
    handle: Handle,
)
    ensures
        release_count(upload_script(model, id, delta), kind, handle) <= 1,
{
    let transfer = transfer_script(
        model.queue_family,
        bytes_of_pixels(delta.image.pixel_seq()).len() as u64,
        delta_extent(delta),
    );
    let register = register_script(
        model.descriptor_pool,
        model.descriptor_set_layouts[0],
        model.sampler,
    );
    let patch = patch_script(model.textures.images[id], patch_region(delta, delta.pos->0));
    let work = patch.take(10);
    let end = patch.skip(10);
    lemma_nothing_released(transfer, kind, handle);
    lemma_nothing_released(register, kind, handle);
    lemma_nothing_released(work, kind, handle);
    lemma_release_count_add(transfer, register, kind, handle);
    lemma_release_count_add(transfer + register, cleanup_script(), kind, handle);
    lemma_release_count_add(transfer, patch, kind, handle);
    lemma_release_count_add(transfer + patch, cleanup_script(), kind, handle);
    lemma_release_count_add(work, end, kind, handle);
    lemma_release_count_add(end, cleanup_script(), kind, handle);
    assert(patch =~= work + end);
    assert(end =~= seq![patch[10], patch[11], patch[12]]);
    reveal_with_fuel(release_count, 5);
    assert(cleanup_script().drop_last() =~= cleanup_script().take(3));
    assert(cleanup_script().take(3).drop_last() =~= cleanup_script().take(2));
    assert(cleanup_script().take(2).drop_last() =~= cleanup_script().take(1));
    assert(end.drop_last() =~= end.take(2));
    assert(end.take(2).drop_last() =~= end.take(1));
}

/// A table of the textures' objects without the textures given up holds no
/// more than before, and nothing of those.
proof fn lemma_table_shrinks(tables: TextureModel, keys: Seq<TextureKey>, n: nat, key: TextureKey)
    requires
        n <= keys.len(),
    ensures
        ({
            let after = tables_without(tables, keys, n);
            &&& lookup(after.images, key) is Some ==> lookup(after.images, key) == lookup(
                tables.images,
                key,
            )
            &&& lookup(after.views, key) is Some ==> lookup(after.views, key) == lookup(
                tables.views,
                key,
            )
            &&& lookup(after.allocations, key) is Some ==> lookup(after.allocations, key)
                == lookup(tables.allocations, key)
        }),
    decreases n,
{
    if n > 0 {
        lemma_table_shrinks(tables, keys, (n - 1) as nat, key);
    }
}

/// The commands for one texture release its image, its view and its memory,
/// each once.
pub proof fn lemma_free_commands_count(
    tables: TextureModel,
    key: TextureKey,
    kind: ObjectKind,
    raw: u64,
)
    ensures
        release_count(free_commands(tables, key), kind, Handle::Known(raw)) == (match kind {
            ObjectKind::Image => if lookup(tables.images, key) == Some(raw) {
                1nat
            } else {
                0
            },
            ObjectKind::ImageView => if lookup(tables.views, key) == Some(raw) {
                1
            } else {
                0
            },
            ObjectKind::Allocation => if lookup(tables.allocations, key) == Some(raw) {
                1
            } else {
                0
            },
            _ => 0,
        }),
{
    let handle = Handle::Known(raw);
    let image = destroy_image(lookup(tables.images, key));
    let view = destroy_view(lookup(tables.views, key));
    let allocation = free_allocation(lookup(tables.allocations, key));
    lemma_release_count_add(image, view, kind, handle);
    lemma_release_count_add(image + view, allocation, kind, handle);
    reveal_with_fuel(release_count, 2);
    assert(image.len() > 0 ==> image.drop_last() =~= Seq::<Command>::empty());
    assert(view.len() > 0 ==> view.drop_last() =~= Seq::<Command>::empty());
    assert(allocation.len() > 0 ==> allocation.drop_last() =~= Seq::<Command>::empty());
}

/// Giving textures up releases no object twice, as long as no two textures
/// share one, even where a texture is listed more than once.
pub proof fn law_free_releases_no_object_twice(
    tables: TextureModel,
    keys: Seq<TextureKey>,
    n: nat,
    kind: ObjectKind,
    raw: u64,
)
    requires
        n <= keys.len(),
        tables.images.is_injective(),
        tables.views.is_injective(),
        tables.allocations.is_injective(),
    ensures
        release_count(free_script(tables, keys, n), kind, Handle::Known(raw)) <= 1,
    decreases n,
{
    if n > 0 {
        let last = (n - 1) as nat;
        let key = keys[last as int];
        let here = tables_without(tables, keys, last);
        let head = free_script(tables, keys, last);
        let tail = free_commands(here, key);
        law_free_releases_no_object_twice(tables, keys, last, kind, raw);
        lemma_release_count_add(head, tail, kind, Handle::Known(raw));
        lemma_free_commands_count(here, key, kind, raw);
        if release_count(head, kind, Handle::Known(raw)) > 0 && release_count(
            tail,
            kind,
            Handle::Known(raw),
        ) > 0 {
            lemma_counted_is_released(head, kind, Handle::Known(raw));
            law_free_releases_only_these(tables, keys, last, kind, raw);
            let i = choose|i: int|
                0 <= i < last && match kind {
                    ObjectKind::Image => lookup(tables.images, #[trigger] keys[i]) == Some(raw),
                    ObjectKind::ImageView => lookup(tables.views, keys[i]) == Some(raw),
                    ObjectKind::Allocation => lookup(tables.allocations, keys[i]) == Some(raw),
                    _ => false,
                };
            lemma_table_shrinks(tables, keys, last, key);
            law_freed_texture_is_gone(tables, keys, last, i);
            assert(keys[i] != key);
        }
    }
}

} // verus!
