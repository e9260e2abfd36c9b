//! Why the objects of a life add up: what each script creates and releases, and
//! what the renderer holds before and after.
use vstd::prelude::*;

use crate::command::{Command, Handle, ObjectKind};
use crate::config::{
    sampler_spec, setup_pipeline_spec, swapchain_pipeline_spec, Extent, PipelineConfig,
    ShaderStage, POOL_CAPACITY, PUSH_CONSTANT_BYTES,
};
use crate::integration::IntegrationModel;
use crate::integration::draw::{
    draw_script, frame_commands, primitive_commands, primitives_commands, slot_of, Primitive,
};
use crate::integration::paint::{lemma_tables_without_consistent, TextureUpdate};
use crate::integration::release::{
    destroy_buffers, destroy_images, destroy_layouts, destroy_script, destroy_views,
    free_allocations, free_commands, free_script, paired, tables_without,
};
use crate::integration::setup::{
    buffers_script, image_buffers_script, pipeline_script, setup_script, texture_layout_command,
};
use crate::integration::swapchain::swapchain_script;
use crate::integration::upload::{
    cleanup_script, delta_extent, patch_region, patch_script, register_script, transfer_script,
    upload_fate, upload_script, upload_task,
};
use crate::laws::count::{
    creation_count, end_count, lemma_counts_single, lemma_counts_start, lemma_counts_step,
    lemma_creation_count_add, lemma_end_count_add, lemma_holders_empty, lemma_holders_insert,
    lemma_holders_listed, lemma_holders_remove, lemma_known_ends, lemma_none_created,
    lemma_none_ended,
};
use crate::laws::life::{
    held_count, is_pooled, one_if, operation_created, operation_is_tidy, operation_result,
    operation_script, operation_succeeds, run_creation_count, run_end_count, run_is_tidy,
    run_result, run_succeeds, slot_count, table_count, update_operations, Life, Operation,
};
use crate::laws::lifetime::{
    law_operations_keep_the_renderer_well_formed, lemma_buffers_creations,
    lemma_image_buffers_creations, lemma_layout_creations,
};
use crate::laws::once::{
    held, law_destroy_releases_each_object_once, lemma_free_commands_count, lemma_occurrences_add,
    occurrences,
};
use crate::laws::paint::{update_succeeded, updates_succeeded, uploads_applied};
use crate::script::{creations, lemma_creations_add};
use crate::tables::{lists_values, TextureModel};
use crate::task::expected_creations;
use crate::texture::{bytes_of_pixels, ImageDelta, TextureKey};

verus! {

/// The renderer is well-formed, and its tables are finite.
pub open spec fn in_order(model: IntegrationModel) -> bool {
    model.wf() && tables_finite(model.textures)
}

proof fn lemma_transfer_counts(
    queue_family: u32,
    size: u64,
    extent: Extent,
    created: Seq<u64>,
    kind: ObjectKind,
    raw: u64,
)
    ensures
        ({
            let script = transfer_script(queue_family, size, extent);
            &&& creations(script) == 8
            &&& end_count(script, created, kind, raw) == 0
            &&& creation_count(script, created, kind, raw) == one_if(
                kind is CommandPool && created[0] == raw,
            ) + one_if(kind is CommandBuffer && created[1] == raw) + one_if(
                kind is Fence && created[2] == raw,
            ) + one_if(kind is Buffer && created[3] == raw) + one_if(
                kind is Allocation && created[4] == raw,
            ) + one_if(kind is Image && created[5] == raw) + one_if(
                kind is Allocation && created[6] == raw,
            ) + one_if(kind is ImageView && created[7] == raw)
        }),
{
    let script = transfer_script(queue_family, size, extent);
    lemma_counts_start(script, created, kind, raw);
    lemma_counts_step(script, 0, created, kind, raw);
    lemma_counts_step(script, 1, created, kind, raw);
    lemma_counts_step(script, 2, created, kind, raw);
    lemma_counts_step(script, 3, created, kind, raw);
    lemma_counts_step(script, 4, created, kind, raw);
    lemma_counts_step(script, 5, created, kind, raw);
    lemma_counts_step(script, 6, created, kind, raw);
    lemma_counts_step(script, 7, created, kind, raw);
    lemma_counts_step(script, 8, created, kind, raw);
    lemma_counts_step(script, 9, created, kind, raw);
    lemma_counts_step(script, 10, created, kind, raw);
    lemma_counts_step(script, 11, created, kind, raw);
    lemma_counts_step(script, 12, created, kind, raw);
    lemma_counts_step(script, 13, created, kind, raw);
    lemma_counts_step(script, 14, created, kind, raw);
    lemma_counts_step(script, 15, created, kind, raw);
    lemma_counts_step(script, 16, created, kind, raw);
    lemma_counts_step(script, 17, created, kind, raw);
}

/// An upload creates as many objects as its purpose calls for.
pub proof fn lemma_upload_creations(model: IntegrationModel, id: TextureKey, delta: ImageDelta)
    ensures
        creations(upload_script(model, id, delta)) == expected_creations(
            upload_task(model, id, delta).purpose,
        ),
{
    let none = Seq::<u64>::empty();
    let kind = ObjectKind::Fence;
    let transfer = transfer_script(
        model.queue_family,
        bytes_of_pixels(delta.image.pixel_seq()).len() as u64,
        delta_extent(delta),
    );
    let register = register_script(
        model.descriptor_pool,
        model.descriptor_set_layouts[0],
        model.sampler,
    );
    let patch = patch_script(model.textures.images[id], patch_region(delta, delta.pos->0));
    lemma_transfer_counts(
        model.queue_family,
        bytes_of_pixels(delta.image.pixel_seq()).len() as u64,
        delta_extent(delta),
        none,
        kind,
        0,
    );
    lemma_cleanup_counts(none, kind, 0);
    lemma_counts_start(register, none, kind, 0);
    lemma_counts_step(register, 0, none, kind, 0);
    lemma_counts_step(register, 1, none, kind, 0);
    lemma_none_created(patch, none, kind, 0);
    lemma_creations_add(transfer, register);
    lemma_creations_add(transfer + register, cleanup_script());
    lemma_creations_add(transfer, patch);
    lemma_creations_add(transfer + patch, cleanup_script());
}

proof fn lemma_cleanup_counts(created: Seq<u64>, kind: ObjectKind, raw: u64)
    ensures
        creations(cleanup_script()) == 0,
        forall|some: Seq<u64>| #[trigger] creation_count(cleanup_script(), some, kind, raw) == 0,
        end_count(cleanup_script(), created, kind, raw) == one_if(
            kind is Buffer && created[3] == raw,
        ) + one_if(kind is Allocation && created[4] == raw) + one_if(
            kind is CommandPool && created[0] == raw,
        ) + one_if(kind is Fence && created[2] == raw),
{
    let script = cleanup_script();
    assert forall|some: Seq<u64>| #[trigger] creation_count(script, some, kind, raw) == 0 by {
        lemma_none_created(script, some, kind, raw);
    }
    lemma_none_created(script, created, kind, raw);
    lemma_counts_start(script, created, kind, raw);
    lemma_counts_step(script, 0, created, kind, raw);
    lemma_counts_step(script, 1, created, kind, raw);
    lemma_counts_step(script, 2, created, kind, raw);
    lemma_counts_step(script, 3, created, kind, raw);
}

/// What an upload creates and releases: what it needs on the way both, and the
/// image with its memory and its view, which only a patch releases.
proof fn lemma_upload_counts(
    model: IntegrationModel,
    id: TextureKey,
    delta: ImageDelta,
    created: Seq<u64>,
    kind: ObjectKind,
    raw: u64,
)
    requires
        !(upload_fate(model, id, delta) is Orphan),
        created.len() == (if upload_fate(model, id, delta) is Register {
            9
        } else {
            8int
        }),
    ensures
        ({
            let script = upload_script(model, id, delta);
            let kept = one_if(kind is Image && created[5] == raw) + one_if(
                kind is Allocation && created[6] == raw,
            ) + one_if(kind is ImageView && created[7] == raw);
            let count = creation_count(script, created, kind, raw);
            let ended = end_count(script, created, kind, raw);
            if upload_fate(model, id, delta) is Register {
                count == ended + kept + one_if(kind is CommandBuffer && created[1] == raw)
                    + one_if(kind is DescriptorSet && created[8] == raw)
            } else {
                count == ended + one_if(kind is CommandBuffer && created[1] == raw)
            }
        }),
{
    let transfer = transfer_script(
        model.queue_family,
        bytes_of_pixels(delta.image.pixel_seq()).len() as u64,
        delta_extent(delta),
    );
    let register = register_script(
        model.descriptor_pool,
        model.descriptor_set_layouts[0],
        model.sampler,
    );
    let patch = patch_script(model.textures.images[id], patch_region(delta, delta.pos->0));
    let cleanup = cleanup_script();
    lemma_transfer_counts(
        model.queue_family,
        bytes_of_pixels(delta.image.pixel_seq()).len() as u64,
        delta_extent(delta),
        created,
        kind,
        raw,
    );
    lemma_cleanup_counts(created, kind, raw);
    if upload_fate(model, id, delta) is Register {
        let rest = created.skip(8);
        lemma_counts_start(register, rest, kind, raw);
        lemma_counts_step(register, 0, rest, kind, raw);
        lemma_counts_step(register, 1, rest, kind, raw);
        lemma_none_ended(register, created, kind, raw);
        lemma_creations_add(transfer, register);
        lemma_creation_count_add(transfer, register, created, kind, raw);
        lemma_end_count_add(transfer, register, created, kind, raw);
        lemma_creation_count_add(transfer + register, cleanup, created, kind, raw);
        lemma_end_count_add(transfer + register, cleanup, created, kind, raw);
    } else {
        let work = patch.take(10);
        let end = patch.skip(10);
        assert(patch =~= work + end);
        assert(end =~= seq![patch[10], patch[11], patch[12]]);
        lemma_none_created(patch, created.skip(8), kind, raw);
        lemma_none_ended(work, created, kind, raw);
        lemma_counts_start(end, created, kind, raw);
        lemma_counts_step(end, 0, created, kind, raw);
        lemma_counts_step(end, 1, created, kind, raw);
        lemma_counts_step(end, 2, created, kind, raw);
        lemma_end_count_add(work, end, created, kind, raw);
        lemma_creations_add(transfer, patch);
        lemma_creation_count_add(transfer, patch, created, kind, raw);
        lemma_end_count_add(transfer, patch, created, kind, raw);
        lemma_creation_count_add(transfer + patch, cleanup, created, kind, raw);
        lemma_end_count_add(transfer + patch, cleanup, created, kind, raw);
    }
}

proof fn lemma_pipeline_counts(
    config: PipelineConfig,
    layout: Handle,
    first: int,
    rest: Seq<u64>,
    created: Seq<u64>,
    kind: ObjectKind,
    raw: u64,
)
    requires
        0 <= first <= usize::MAX - 1,
    ensures
        ({
            let script = pipeline_script(config, layout, first);
            &&& creations(script) == 3
            &&& creation_count(script, rest, kind, raw) == one_if(
                kind is ShaderModule && rest[0] == raw,
            ) + one_if(kind is ShaderModule && rest[1] == raw) + one_if(
                kind is Pipeline && rest[2] == raw,
            )
            &&& end_count(script, created, kind, raw) == one_if(
                kind is ShaderModule && created[first] == raw,
            ) + one_if(kind is ShaderModule && created[first + 1] == raw)
        }),
{
    let script = pipeline_script(config, layout, first);
    lemma_counts_start(script, rest, kind, raw);
    lemma_counts_step(script, 0, rest, kind, raw);
    lemma_counts_step(script, 1, rest, kind, raw);
    lemma_counts_step(script, 2, rest, kind, raw);
    lemma_counts_step(script, 3, rest, kind, raw);
    lemma_counts_step(script, 4, rest, kind, raw);
    lemma_counts_start(script, created, kind, raw);
    lemma_counts_step(script, 0, created, kind, raw);
    lemma_counts_step(script, 1, created, kind, raw);
    lemma_counts_step(script, 2, created, kind, raw);
    lemma_counts_step(script, 3, created, kind, raw);
    lemma_counts_step(script, 4, created, kind, raw);
}

proof fn lemma_swapchain_balances(
    model: IntegrationModel,
    physical_width: u32,
    physical_height: u32,
    created: Seq<u64>,
    kind: ObjectKind,
    raw: u64,
)
    requires
        created.len() == 3,
    ensures
        ({
            let operation = Operation::UpdateSwapchain {
                physical_width,
                physical_height,
                created,
            };
            let script = swapchain_script(model.pipeline, model.pipeline_layout);
            creation_count(script, created, kind, raw) + held_count(model, kind, raw) == end_count(
                script,
                created,
                kind,
                raw,
            ) + held_count(operation_result(model, operation), kind, raw)
        }),
{
    let layout = Handle::Known(model.pipeline_layout);
    let head = seq![
        Command::DestroyPipeline { pipeline: Handle::Known(model.pipeline) },
        Command::GetSwapchainImages,
    ];
    let tail = pipeline_script(swapchain_pipeline_spec(), layout, 0);
    let script = swapchain_script(model.pipeline, model.pipeline_layout);
    lemma_none_created(head, created, kind, raw);
    lemma_counts_start(head, created, kind, raw);
    lemma_counts_step(head, 0, created, kind, raw);
    lemma_counts_step(head, 1, created, kind, raw);
    lemma_pipeline_counts(
        swapchain_pipeline_spec(),
        layout,
        0,
        created.skip(0),
        created,
        kind,
        raw,
    );
    lemma_creation_count_add(head, tail, created, kind, raw);
    lemma_end_count_add(head, tail, created, kind, raw);
    assert(created.skip(0) =~= created);
    lemma_occurs_in_one(model.pipeline, raw);
    lemma_occurs_in_one(created[2], raw);
}

proof fn lemma_occurs_in_one(handle: u64, raw: u64)
    ensures
        occurrences(seq![handle], raw) == one_if(handle == raw),
{
    assert(seq![handle].drop_last() =~= Seq::<u64>::empty());
    assert(occurrences(Seq::<u64>::empty(), raw) == 0);
}

/// A frame creates nothing and releases nothing.
proof fn lemma_frame_is_idle(
    model: IntegrationModel,
    image_index: usize,
    width_points: u32,
    height_points: u32,
    primitives: Seq<Primitive>,
    created: Seq<u64>,
    kind: ObjectKind,
    raw: u64,
)
    ensures
        ({
            let script = draw_script(
                model,
                image_index,
                width_points,
                height_points,
                primitives,
            );
            &&& creation_count(script, created, kind, raw) == 0
            &&& end_count(script, created, kind, raw) == 0
        }),
{
    let head = frame_commands(model, image_index, width_points, height_points);
    let tail = primitives_commands(model, image_index, primitives, primitives.len());
    let script = draw_script(model, image_index, width_points, height_points, primitives);
    lemma_primitives_are_idle(model, image_index, primitives, primitives.len());
    assert forall|i: int| 0 <= i < script.len() implies (#[trigger] script[i]).creates() is None
        && script[i].releases() is None by {
        if i < head.len() {
            assert(script[i] == head[i]);
        } else {
            assert(script[i] == tail[i - head.len()]);
        }
    }
    lemma_none_created(script, created, kind, raw);
    lemma_none_ended(script, created, kind, raw);
}

proof fn lemma_primitives_are_idle(
    model: IntegrationModel,
    image_index: usize,
    primitives: Seq<Primitive>,
    n: nat,
)
    ensures
        ({
            let script = primitives_commands(model, image_index, primitives, n);
            forall|i: int|
                0 <= i < script.len() ==> (#[trigger] script[i]).creates() is None
                    && script[i].releases() is None
        }),
    decreases n,
{
    if n > 0 {
        let last = (n - 1) as nat;
        lemma_primitives_are_idle(model, image_index, primitives, last);
        let head = primitives_commands(model, image_index, primitives, last);
        let tail = primitive_commands(model, image_index, primitives, last);
        let script = primitives_commands(model, image_index, primitives, n);
        assert forall|i: int| 0 <= i < script.len() implies (
        #[trigger] script[i]).creates() is None && script[i].releases() is None by {
            if i < head.len() {
                assert(script[i] == head[i]);
            } else {
                assert(script[i] == tail[i - head.len()]);
            }
        }
    }
}

/// The tables of what has to be released are finite.
pub open spec fn tables_finite(tables: TextureModel) -> bool {
    &&& tables.images.dom().finite()
    &&& tables.views.dom().finite()
    &&& tables.allocations.dom().finite()
}

/// Giving textures up creates nothing, and releases what the tables then hold
/// no longer.
proof fn lemma_free_balances(
    tables: TextureModel,
    keys: Seq<TextureKey>,
    n: nat,
    kind: ObjectKind,
    raw: u64,
)
    requires
        n <= keys.len(),
        tables_finite(tables),
    ensures
        tables_finite(tables_without(tables, keys, n)),
        creation_count(free_script(tables, keys, n), Seq::empty(), kind, raw) == 0,
        creations(free_script(tables, keys, n)) == 0,
        table_count(tables, kind, raw) == end_count(
            free_script(tables, keys, n),
            Seq::empty(),
            kind,
            raw,
        ) + table_count(tables_without(tables, keys, n), kind, raw),
    decreases n,
{
    if n > 0 {
        let last = (n - 1) as nat;
        let key = keys[last as int];
        let here = tables_without(tables, keys, last);
        let head = free_script(tables, keys, last);
        let tail = free_commands(here, key);
        lemma_free_balances(tables, keys, last, kind, raw);
        lemma_none_created(tail, Seq::empty(), kind, raw);
        lemma_none_created(tail, Seq::<u64>::empty().skip(0), kind, raw);
        lemma_creation_count_add(head, tail, Seq::empty(), kind, raw);
        lemma_creations_add(head, tail);
        lemma_end_count_add(head, tail, Seq::empty(), kind, raw);
        lemma_known_ends(tail, Seq::empty(), kind, raw);
        lemma_free_commands_count(here, key, kind, raw);
        lemma_holders_remove(here.images, key, raw);
        lemma_holders_remove(here.views, key, raw);
        lemma_holders_remove(here.allocations, key, raw);
    }
}

proof fn lemma_upload_balances(
    model: IntegrationModel,
    id: TextureKey,
    delta: ImageDelta,
    created: Seq<u64>,
    kind: ObjectKind,
    raw: u64,
)
    requires
        in_order(model),
        !is_pooled(kind),
        operation_succeeds(model, Operation::UpdateTexture { id, delta, created }),
        operation_is_tidy(model, Operation::UpdateTexture { id, delta, created }),
    ensures
        ({
            let script = upload_script(model, id, delta);
            let after = operation_result(model, Operation::UpdateTexture { id, delta, created });
            &&& tables_finite(after.textures)
            &&& creation_count(script, created, kind, raw) + held_count(model, kind, raw)
                == end_count(script, created, kind, raw) + held_count(after, kind, raw)
        }),
{
    lemma_upload_counts(model, id, delta, created, kind, raw);
    if upload_fate(model, id, delta) is Register {
        assert(!model.textures.images.dom().contains(id));
        assert(!model.textures.views.dom().contains(id));
        assert(!model.textures.allocations.dom().contains(id));
        lemma_holders_insert(model.textures.images, id, created[5], raw);
        lemma_holders_insert(model.textures.allocations, id, created[6], raw);
        lemma_holders_insert(model.textures.views, id, created[7], raw);
    }
}

/// In an operation, what comes to be and what was held before is what ends and
/// what is held after.
proof fn lemma_operation_balances(
    model: IntegrationModel,
    operation: Operation,
    kind: ObjectKind,
    raw: u64,
)
    requires
        in_order(model),
        !is_pooled(kind),
        operation_succeeds(model, operation),
        operation_is_tidy(model, operation),
    ensures
        ({
            let script = operation_script(model, operation);
            let created = operation_created(operation);
            let after = operation_result(model, operation);
            &&& in_order(after)
            &&& creation_count(script, created, kind, raw) + held_count(model, kind, raw)
                == end_count(script, created, kind, raw) + held_count(after, kind, raw)
        }),
{
    let script = operation_script(model, operation);
    let created = operation_created(operation);
    match operation {
        Operation::RegisterUserTexture { image_view, sampler, slot, .. } => {
            lemma_counts_start(script, created, kind, raw);
            lemma_counts_step(script, 0, created, kind, raw);
            lemma_counts_step(script, 1, created, kind, raw);
        },
        Operation::UnregisterUserTexture { .. } => {
            lemma_none_created(script, created, kind, raw);
            lemma_none_ended(script, created, kind, raw);
        },
        Operation::UpdateSwapchain { physical_width, physical_height, created } => {
            lemma_swapchain_balances(
                model,
                physical_width,
                physical_height,
                created,
                kind,
                raw,
            );
        },
        Operation::UpdateTexture { id, delta, created } => {
            lemma_upload_balances(model, id, delta, created, kind, raw);
            law_operations_keep_the_renderer_well_formed(
                model,
                0,
                0,
                0,
                Seq::empty(),
                id,
                delta,
                created,
                Seq::empty(),
            );
        },
        Operation::Record { image_index, width_points, height_points, primitives } => {
            lemma_frame_is_idle(
                model,
                image_index,
                width_points,
                height_points,
                primitives,
                created,
                kind,
                raw,
            );
        },
        Operation::FreeTextures { keys } => {
            lemma_free_balances(model.textures, keys, keys.len(), kind, raw);
            lemma_tables_without_consistent(model.textures, keys, keys.len());
        },
    }
}

pub proof fn lemma_run_balances(
    model: IntegrationModel,
    operations: Seq<Operation>,
    kind: ObjectKind,
    raw: u64,
)
    requires
        in_order(model),
        !is_pooled(kind),
        run_succeeds(model, operations),
        run_is_tidy(model, operations),
    ensures
        in_order(run_result(model, operations)),
        run_creation_count(model, operations, kind, raw) + held_count(model, kind, raw)
            == run_end_count(model, operations, kind, raw) + held_count(
            run_result(model, operations),
            kind,
            raw,
        ),
    decreases operations.len(),
{
    if operations.len() > 0 {
        let fewer = operations.drop_last();
        lemma_run_balances(model, fewer, kind, raw);
        lemma_operation_balances(run_result(model, fewer), operations.last(), kind, raw);
    }
}

proof fn lemma_layout_counts(n: nat, created: Seq<u64>, kind: ObjectKind, raw: u64)
    requires
        n <= created.len(),
    ensures
        creation_count(Seq::new(n, |i: int| texture_layout_command()), created, kind, raw) == (
        if kind is DescriptorSetLayout {
            occurrences(created.take(n as int), raw)
        } else {
            0
        }),
    decreases n,
{
    let layouts = Seq::new(n, |i: int| texture_layout_command());
    if n > 0 {
        let last = (n - 1) as nat;
        let fewer = Seq::new(last, |i: int| texture_layout_command());
        lemma_layout_counts(last, created, kind, raw);
        lemma_layout_creations(last);
        assert(layouts.drop_last() =~= fewer);
        assert(created.take(n as int).drop_last() =~= created.take(last as int));
    }
}

/// Every fourth handle, from this one on.
pub open spec fn every_fourth_from(created: Seq<u64>, n: nat, part: int) -> Seq<u64> {
    Seq::new(n, |i: int| created[4 * i + part])
}

proof fn lemma_buffers_counts(
    image_count: int,
    n: nat,
    created: Seq<u64>,
    kind: ObjectKind,
    raw: u64,
)
    requires
        4 * n <= created.len(),
    ensures
        creation_count(buffers_script(image_count, n), created, kind, raw) == (match kind {
            ObjectKind::Buffer => occurrences(every_fourth_from(created, n, 0), raw)
                + occurrences(every_fourth_from(created, n, 2), raw),
            ObjectKind::Allocation => occurrences(every_fourth_from(created, n, 1), raw)
                + occurrences(every_fourth_from(created, n, 3), raw),
            _ => 0,
        }),
    decreases n,
{
    if n > 0 {
        let last = (n - 1) as nat;
        let head = buffers_script(image_count, last);
        let tail = image_buffers_script(image_count, last as int);
        let rest = created.skip(4 * last as int);
        lemma_buffers_counts(image_count, last, created, kind, raw);
        lemma_buffers_creations(image_count, last);
        lemma_image_buffers_creations(image_count, last as int);
        lemma_creation_count_add(head, tail, created, kind, raw);
        lemma_counts_start(tail, rest, kind, raw);
        lemma_counts_step(tail, 0, rest, kind, raw);
        lemma_counts_step(tail, 1, rest, kind, raw);
        lemma_counts_step(tail, 2, rest, kind, raw);
        lemma_counts_step(tail, 3, rest, kind, raw);
        lemma_counts_step(tail, 4, rest, kind, raw);
        lemma_counts_step(tail, 5, rest, kind, raw);
        assert forall|part: int| 0 <= part < 4 implies (#[trigger] every_fourth_from(
            created,
            n,
            part,
        )).drop_last() == every_fourth_from(created, last, part) && every_fourth_from(
            created,
            n,
            part,
        ).last() == rest[part] by {
            assert(every_fourth_from(created, n, part).drop_last() =~= every_fourth_from(
                created,
                last,
                part,
            ));
        }
        assert(every_fourth_from(created, n, 0).last() == rest[0]);
        assert(every_fourth_from(created, n, 1).last() == rest[1]);
        assert(every_fourth_from(created, n, 2).last() == rest[2]);
        assert(every_fourth_from(created, n, 3).last() == rest[3]);
    }
}

proof fn lemma_buffers_release_nothing(image_count: int, n: nat)
    ensures
        forall|i: int|
            0 <= i < buffers_script(image_count, n).len() ==> (#[trigger] buffers_script(
                image_count,
                n,
            )[i]).releases() is None,
    decreases n,
{
    if n > 0 {
        let last = (n - 1) as nat;
        let head = buffers_script(image_count, last);
        let tail = image_buffers_script(image_count, last as int);
        let script = buffers_script(image_count, n);
        lemma_buffers_release_nothing(image_count, last);
        assert forall|i: int| 0 <= i < script.len() implies (
        #[trigger] script[i]).releases() is None by {
            if i < head.len() {
                assert(script[i] == head[i]);
            } else {
                assert(script[i] == tail[i - head.len()]);
            }
        }
    }
}

/// What setup creates it releases, or the renderer holds it.
#[verifier::spinoff_prover]
#[verifier::rlimit(100)]
pub proof fn lemma_setup_balances(life: Life, kind: ObjectKind, raw: u64)
    requires
        life.created.len() == 5 * life.image_count + 7,
        life.created.len() <= usize::MAX,
    ensures
        in_order(life.start()),
        creation_count(setup_script(life.image_count), life.created, kind, raw) == end_count(
            setup_script(life.image_count),
            life.created,
            kind,
            raw,
        ) + held_count(life.start(), kind, raw),
{
    let created = life.created;
    let image_count = life.image_count;
    let n = image_count as int;
    let model = life.start();
    let pool = seq![
        Command::CreateDescriptorPool {
            max_sets: POOL_CAPACITY,
            descriptor_count: POOL_CAPACITY,
            free_sets: true,
        },
    ];
    let layouts = Seq::new(image_count as nat, |i: int| texture_layout_command());
    let layout = seq![
        Command::CreatePipelineLayout {
            first_layout: 1,
            layout_count: image_count,
            push_stage: ShaderStage::Vertex,
            push_offset: 0,
            push_size: PUSH_CONSTANT_BYTES,
        },
    ];
    let pipeline_layout = Handle::Created((image_count + 1) as usize);
    let pipeline = pipeline_script(setup_pipeline_spec(), pipeline_layout, n + 2);
    let sampler = seq![Command::CreateSampler { config: sampler_spec() }];
    let buffers = buffers_script(n, image_count as nat);
    let user = seq![texture_layout_command()];
    let s2 = pool + layouts;
    let s3 = s2 + layout;
    let s4 = s3 + pipeline;
    let s5 = s4 + sampler;
    let s6 = s5 + buffers;
    let script = s6 + user;
    assert(script == setup_script(image_count));

    lemma_counts_single(pool[0], created, kind, raw);
    lemma_layout_creations(image_count as nat);
    lemma_layout_counts(image_count as nat, created.skip(1), kind, raw);
    lemma_none_ended(layouts, created, kind, raw);
    lemma_counts_single(layout[0], created.skip(n + 1), kind, raw);
    lemma_counts_single(layout[0], created, kind, raw);
    lemma_pipeline_counts(
        setup_pipeline_spec(),
        pipeline_layout,
        n + 2,
        created.skip(n + 2),
        created,
        kind,
        raw,
    );
    lemma_counts_single(sampler[0], created.skip(n + 5), kind, raw);
    lemma_counts_single(sampler[0], created, kind, raw);
    lemma_buffers_creations(n, image_count as nat);
    lemma_buffers_counts(n, image_count as nat, created.skip(n + 6), kind, raw);
    lemma_buffers_release_nothing(n, image_count as nat);
    lemma_none_ended(buffers, created, kind, raw);
    lemma_counts_single(user[0], created.skip(5 * n + 6), kind, raw);
    lemma_counts_single(user[0], created, kind, raw);
    assert(seq![pool[0]] =~= pool);
    assert(seq![layout[0]] =~= layout);
    assert(seq![sampler[0]] =~= sampler);
    assert(seq![user[0]] =~= user);

    lemma_creations_add(pool, layouts);
    lemma_creations_add(s2, layout);
    lemma_creations_add(s3, pipeline);
    lemma_creations_add(s4, sampler);
    lemma_creations_add(s5, buffers);
    lemma_creation_count_add(pool, layouts, created, kind, raw);
    lemma_creation_count_add(s2, layout, created, kind, raw);
    lemma_creation_count_add(s3, pipeline, created, kind, raw);
    lemma_creation_count_add(s4, sampler, created, kind, raw);
    lemma_creation_count_add(s5, buffers, created, kind, raw);
    lemma_creation_count_add(s6, user, created, kind, raw);
    lemma_end_count_add(pool, layouts, created, kind, raw);
    lemma_end_count_add(s2, layout, created, kind, raw);
    lemma_end_count_add(s3, pipeline, created, kind, raw);
    lemma_end_count_add(s4, sampler, created, kind, raw);
    lemma_end_count_add(s5, buffers, created, kind, raw);
    lemma_end_count_add(s6, user, created, kind, raw);

    let rest = created.skip(n + 6);
    assert(created.skip(1).take(n) =~= model.descriptor_set_layouts);
    assert(every_fourth_from(rest, image_count as nat, 0) =~= model.vertex_buffers);
    assert(every_fourth_from(rest, image_count as nat, 1) =~= model.vertex_buffer_allocations);
    assert(every_fourth_from(rest, image_count as nat, 2) =~= model.index_buffers);
    assert(every_fourth_from(rest, image_count as nat, 3) =~= model.index_buffer_allocations);
    lemma_occurs_in_one(model.descriptor_pool, raw);
    lemma_occurs_in_one(model.pipeline_layout, raw);
    lemma_occurs_in_one(model.pipeline, raw);
    lemma_occurs_in_one(model.sampler, raw);
    lemma_occurs_in_one(model.user_texture_layout, raw);
    lemma_occurrences_add(seq![model.user_texture_layout], model.descriptor_set_layouts, raw);
    lemma_occurrences_add(model.index_buffers, model.vertex_buffers, raw);
    lemma_occurrences_add(
        model.index_buffer_allocations,
        model.vertex_buffer_allocations,
        raw,
    );
    lemma_occurrences_add(
        model.index_buffer_allocations + model.vertex_buffer_allocations,
        Seq::empty(),
        raw,
    );
    assert(occurrences(Seq::<u64>::empty(), raw) == 0);
    lemma_holders_empty(raw);
    assert(model.textures.images.dom() =~= model.textures.descriptor_sets.dom());
    assert(model.textures.images.dom() =~= model.textures.allocations.dom());
    assert(model.textures.images.dom() =~= model.textures.views.dom());
}

/// Destroying the renderer ends what it holds.
pub proof fn lemma_destroy_ends_what_is_held(
    model: IntegrationModel,
    images: Seq<u64>,
    views: Seq<u64>,
    allocations: Seq<u64>,
    kind: ObjectKind,
    raw: u64,
)
    requires
        model.wf(),
        lists_values(model.textures.images, images),
        lists_values(model.textures.views, views),
        lists_values(model.textures.allocations, allocations),
    ensures
        end_count(
            destroy_script(model, images, views, allocations),
            Seq::empty(),
            kind,
            raw,
        ) == held_count(model, kind, raw),
{
    let script = destroy_script(model, images, views, allocations);
    lemma_destroy_names_known(model, images, views, allocations);
    lemma_known_ends(script, Seq::empty(), kind, raw);
    law_destroy_releases_each_object_once(model, images, views, allocations, kind, raw);
    lemma_holders_listed(model.textures.images, images, raw);
    lemma_holders_listed(model.textures.views, views, raw);
    lemma_holders_listed(model.textures.allocations, allocations, raw);
    let buffers = model.index_buffer_allocations + model.vertex_buffer_allocations;
    lemma_occurrences_add(buffers, allocations, raw);
    lemma_occurrences_add(buffers, Seq::empty(), raw);
    assert(occurrences(Seq::<u64>::empty(), raw) == 0);
}

pub proof fn lemma_destroy_names_known(
    model: IntegrationModel,
    images: Seq<u64>,
    views: Seq<u64>,
    allocations: Seq<u64>,
)
    ensures
        names_known(destroy_script(model, images, views, allocations)),
{
    let index_count = paired(model.index_buffers, model.index_buffer_allocations);
    let vertex_count = paired(model.vertex_buffers, model.vertex_buffer_allocations);
    let user_layout = seq![
        Command::DestroyDescriptorSetLayout { layout: Handle::Known(model.user_texture_layout) },
    ];
    let indices = destroy_buffers(
        model.index_buffers,
        model.index_buffer_allocations,
        index_count,
    );
    let vertices = destroy_buffers(
        model.vertex_buffers,
        model.vertex_buffer_allocations,
        vertex_count,
    );
    let middle = seq![
        Command::DestroySampler { sampler: Handle::Known(model.sampler) },
        Command::DestroyPipeline { pipeline: Handle::Known(model.pipeline) },
        Command::DestroyPipelineLayout { layout: Handle::Known(model.pipeline_layout) },
    ];
    let layouts = destroy_layouts(model.descriptor_set_layouts);
    let pool = seq![
        Command::DestroyDescriptorPool { pool: Handle::Known(model.descriptor_pool) },
    ];
    let s2 = user_layout + indices;
    let s3 = s2 + vertices;
    let s4 = s3 + middle;
    let s5 = s4 + layouts;
    let s6 = s5 + pool;
    let s7 = s6 + destroy_images(images);
    let s8 = s7 + destroy_views(views);
    lemma_buffers_name_known(model.index_buffers, model.index_buffer_allocations, index_count);
    lemma_buffers_name_known(model.vertex_buffers, model.vertex_buffer_allocations, vertex_count);
    lemma_names_known_add(user_layout, indices);
    lemma_names_known_add(s2, vertices);
    lemma_names_known_add(s3, middle);
    lemma_names_known_add(s4, layouts);
    lemma_names_known_add(s5, pool);
    lemma_names_known_add(s6, destroy_images(images));
    lemma_names_known_add(s7, destroy_views(views));
    lemma_names_known_add(s8, free_allocations(allocations));
}

/// What the script releases was there before it.
pub open spec fn names_known(script: Seq<Command>) -> bool {
    forall|i: int|
        0 <= i < script.len() && (#[trigger] script[i]).releases() is Some
            ==> script[i].releases()->0.handle is Known
}

proof fn lemma_names_known_add(first: Seq<Command>, second: Seq<Command>)
    requires
        names_known(first),
        names_known(second),
    ensures
        names_known(first + second),
{
    let both = first + second;
    assert forall|i: int|
        0 <= i < both.len() && (#[trigger] both[i]).releases() is Some implies
        both[i].releases()->0.handle is Known by {
        if i < first.len() {
            assert(both[i] == first[i]);
        } else {
            assert(both[i] == second[i - first.len()]);
        }
    }
}

proof fn lemma_buffers_name_known(buffers: Seq<u64>, allocations: Seq<u64>, n: nat)
    ensures
        names_known(destroy_buffers(buffers, allocations, n)),
    decreases n,
{
    if n > 0 {
        let last = (n - 1) as nat;
        lemma_buffers_name_known(buffers, allocations, last);
        lemma_names_known_add(
            destroy_buffers(buffers, allocations, last),
            seq![
                Command::DestroyBuffer { buffer: Handle::Known(buffers[last as int]) },
                Command::FreeAllocation { allocation: Handle::Known(allocations[last as int]) },
            ],
        );
    }
}

proof fn lemma_slot_count_update(
    slots: Seq<Option<u64>>,
    slot: int,
    value: Option<u64>,
    raw: u64,
)
    requires
        0 <= slot < slots.len(),
    ensures
        slot_count(slots.update(slot, value), raw) + one_if(slots[slot] == Some(raw))
            == slot_count(slots, raw) + one_if(value == Some(raw)),
    decreases slots.len(),
{
    let updated = slots.update(slot, value);
    if slot == slots.len() - 1 {
        assert(updated.drop_last() =~= slots.drop_last());
    } else {
        assert(updated.drop_last() =~= slots.drop_last().update(slot, value));
        lemma_slot_count_update(slots.drop_last(), slot, value, raw);
    }
}

/// In an operation, of the descriptor sets that come to be and those that user
/// textures had before, none is freed that a user texture has after, nor twice.
proof fn lemma_operation_frees_sets_once(
    model: IntegrationModel,
    operation: Operation,
    raw: u64,
)
    requires
        operation_succeeds(model, operation),
    ensures
        ({
            let kind = ObjectKind::DescriptorSet;
            let script = operation_script(model, operation);
            let created = operation_created(operation);
            let after = operation_result(model, operation);
            creation_count(script, created, kind, raw) + slot_count(model.user_textures, raw)
                >= end_count(script, created, kind, raw) + slot_count(after.user_textures, raw)
        }),
{
    let kind = ObjectKind::DescriptorSet;
    let script = operation_script(model, operation);
    let created = operation_created(operation);
    let slots = model.user_textures;
    match operation {
        Operation::RegisterUserTexture { slot, created, .. } => {
            lemma_counts_start(script, created, kind, raw);
            lemma_counts_step(script, 0, created, kind, raw);
            lemma_counts_step(script, 1, created, kind, raw);
            if slot == slots.len() {
                assert(slots.push(Some(created[0])).drop_last() =~= slots);
            } else {
                lemma_slot_count_update(slots, slot, Some(created[0]), raw);
            }
        },
        Operation::UnregisterUserTexture { texture } => {
            lemma_counts_start(script, created, kind, raw);
            if script.len() > 0 {
                lemma_counts_step(script, 0, created, kind, raw);
            }
            if texture is User {
                lemma_slot_count_update(slots, slot_of(texture->User_0) as int, None, raw);
            }
        },
        Operation::UpdateTexture { id, delta, created } => {
            lemma_upload_frees_no_set(model, id, delta, created, raw);
        },
        Operation::UpdateSwapchain { .. } => {
            lemma_none_ended(script, created, kind, raw);
        },
        Operation::Record { image_index, width_points, height_points, primitives } => {
            lemma_frame_is_idle(
                model,
                image_index,
                width_points,
                height_points,
                primitives,
                created,
                kind,
                raw,
            );
        },
        Operation::FreeTextures { keys } => {
            lemma_free_frees_no_set(model.textures, keys, keys.len(), raw);
        },
    }
}

proof fn lemma_upload_frees_no_set(
    model: IntegrationModel,
    id: TextureKey,
    delta: ImageDelta,
    created: Seq<u64>,
    raw: u64,
)
    ensures
        end_count(upload_script(model, id, delta), created, ObjectKind::DescriptorSet, raw) == 0,
{
    lemma_none_ended(upload_script(model, id, delta), created, ObjectKind::DescriptorSet, raw);
}

proof fn lemma_free_frees_no_set(
    tables: TextureModel,
    keys: Seq<TextureKey>,
    n: nat,
    raw: u64,
)
    ensures
        end_count(
            free_script(tables, keys, n),
            Seq::empty(),
            ObjectKind::DescriptorSet,
            raw,
        ) == 0,
    decreases n,
{
    if n > 0 {
        let last = (n - 1) as nat;
        let head = free_script(tables, keys, last);
        let tail = free_commands(tables_without(tables, keys, last), keys[last as int]);
        lemma_free_frees_no_set(tables, keys, last, raw);
        lemma_none_ended(tail, Seq::empty(), ObjectKind::DescriptorSet, raw);
        lemma_end_count_add(head, tail, Seq::empty(), ObjectKind::DescriptorSet, raw);
    }
}

pub proof fn lemma_run_frees_sets_once(
    model: IntegrationModel,
    operations: Seq<Operation>,
    raw: u64,
)
    requires
        run_succeeds(model, operations),
    ensures
        run_creation_count(model, operations, ObjectKind::DescriptorSet, raw) + slot_count(
            model.user_textures,
            raw,
        ) >= run_end_count(model, operations, ObjectKind::DescriptorSet, raw) + slot_count(
            run_result(model, operations).user_textures,
            raw,
        ),
    decreases operations.len(),
{
    if operations.len() > 0 {
        let fewer = operations.drop_last();
        lemma_run_frees_sets_once(model, fewer, raw);
        lemma_operation_frees_sets_once(run_result(model, fewer), operations.last(), raw);
    }
}

pub proof fn lemma_run_keeps_buffers_paired(model: IntegrationModel, operations: Seq<Operation>)
    requires
        model.buffers_paired(),
    ensures
        run_result(model, operations).buffers_paired(),
    decreases operations.len(),
{
    if operations.len() > 0 {
        lemma_run_keeps_buffers_paired(model, operations.drop_last());
    }
}

pub proof fn lemma_updates_are_a_run(
    model: IntegrationModel,
    updates: Seq<TextureUpdate>,
    replies: Seq<Seq<u64>>,
    n: nat,
)
    requires
        n <= updates.len(),
        n <= replies.len(),
        updates_succeeded(model, updates, replies),
    ensures
        run_succeeds(model, update_operations(updates, replies, n)),
        run_result(model, update_operations(updates, replies, n)) == uploads_applied(
            model,
            updates,
            replies,
            n,
        ),
    decreases n,
{
    if n > 0 {
        let last = (n - 1) as nat;
        lemma_updates_are_a_run(model, updates, replies, last);
        assert(update_operations(updates, replies, n).drop_last() =~= update_operations(
            updates,
            replies,
            last,
        ));
        assert(update_succeeded(model, updates, replies, last));
    }
}

} // verus!
