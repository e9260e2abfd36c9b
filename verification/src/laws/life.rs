//! Of the objects over a whole life: from setup, through any run of operations,
//! to the end.
use vstd::prelude::*;

use crate::command::{Command, ObjectKind};
use crate::integration::IntegrationModel;
use crate::integration::draw::{draw_error, draw_script, Primitive};
use crate::integration::paint::{next_error, next_job, next_model, PaintRequest, TextureUpdate};
use crate::integration::release::{destroy_script, free_script, tables_without};
use crate::integration::setup::{setup_model, setup_script};
use crate::integration::swapchain::{swapchain_script, NEW_PIPELINE};
use crate::integration::upload::{
    delta_extent, upload_error, upload_fate, upload_finished, upload_script, upload_started,
};
use crate::integration::user::{
    is_first_free, never_registered, unregister_script, user_texture_script, with_slot,
    without_slot,
};
use crate::laws::balance::{
    lemma_destroy_ends_what_is_held, lemma_destroy_names_known, lemma_run_balances,
    lemma_run_frees_sets_once, lemma_run_keeps_buffers_paired, lemma_setup_balances,
    lemma_updates_are_a_run,
};
use crate::laws::count::{creation_count, end_count, holders, lemma_known_ends};
use crate::laws::once::{held, law_destroy_releases_each_object_once, occurrences};
use crate::laws::paint::{after_events, law_finished_paint, painted, runs_without_error};
use crate::laws::user::is_name_of_slot;
use crate::tables::{lists_values, TextureModel};
use crate::task::{expected_creations, Event, Purpose};
use crate::texture::{ImageDelta, TextureKey};

verus! {

/// Something done to a renderer between its setup and its end, with the handles
/// that the device gave to the objects created in it.
pub enum Operation {
    /// A user texture was registered in this slot, under this name.
    RegisterUserTexture {
        image_view: u64,
        sampler: u64,
        slot: int,
        texture: TextureKey,
        created: Seq<u64>,
    },
    /// A user texture was unregistered.
    UnregisterUserTexture { texture: TextureKey },
    /// The renderer followed a new swapchain.
    UpdateSwapchain { physical_width: u32, physical_height: u32, created: Seq<u64> },
    /// An image was brought to the device.
    UpdateTexture { id: TextureKey, delta: ImageDelta, created: Seq<u64> },
    /// The meshes of a frame were recorded.
    Record {
        image_index: usize,
        width_points: u32,
        height_points: u32,
        primitives: Seq<Primitive>,
    },
    /// Textures were given up.
    FreeTextures { keys: Seq<TextureKey> },
}

/// The commands that the device performs for an operation.
pub open spec fn operation_script(model: IntegrationModel, operation: Operation) -> Seq<Command> {
    match operation {
        Operation::RegisterUserTexture { image_view, sampler, .. } => user_texture_script(
            model.descriptor_pool,
            model.user_texture_layout,
            image_view,
            sampler,
        ),
        Operation::UnregisterUserTexture { texture } => unregister_script(model, texture),
        Operation::UpdateSwapchain { .. } => swapchain_script(
            model.pipeline,
            model.pipeline_layout,
        ),
        Operation::UpdateTexture { id, delta, .. } => upload_script(model, id, delta),
        Operation::Record { image_index, width_points, height_points, primitives } => draw_script(
            model,
            image_index,
            width_points,
            height_points,
            primitives,
        ),
        Operation::FreeTextures { keys } => free_script(model.textures, keys, keys.len()),
    }
}

/// The handles of the objects created in an operation.
pub open spec fn operation_created(operation: Operation) -> Seq<u64> {
    match operation {
        Operation::RegisterUserTexture { created, .. } => created,
        Operation::UpdateSwapchain { created, .. } => created,
        Operation::UpdateTexture { created, .. } => created,
        Operation::UnregisterUserTexture { .. } => Seq::empty(),
        Operation::Record { .. } => Seq::empty(),
        Operation::FreeTextures { .. } => Seq::empty(),
    }
}

/// The renderer after an operation.
pub open spec fn operation_result(
    model: IntegrationModel,
    operation: Operation,
) -> IntegrationModel {
    match operation {
        Operation::RegisterUserTexture { slot, created, .. } => IntegrationModel {
            user_textures: with_slot(model.user_textures, slot, created[0]),
            ..model
        },
        Operation::UnregisterUserTexture { texture } => IntegrationModel {
            user_textures: without_slot(model.user_textures, texture),
            ..model
        },
        Operation::UpdateSwapchain { physical_width, physical_height, created } =>
            IntegrationModel {
            physical_width,
            physical_height,
            pipeline: created[NEW_PIPELINE as int],
            ..model
        },
        Operation::UpdateTexture { id, delta, created } => upload_finished(
            upload_started(model, id, delta),
            id,
            upload_fate(model, id, delta),
            created,
        ),
        Operation::Record { .. } => model,
        Operation::FreeTextures { keys } => IntegrationModel {
            textures: tables_without(model.textures, keys, keys.len()),
            ..model
        },
    }
}

/// The operation is not refused, and the device created all that it should.
pub open spec fn operation_succeeds(model: IntegrationModel, operation: Operation) -> bool {
    match operation {
        Operation::RegisterUserTexture { slot, texture, created, .. } => {
            &&& is_first_free(model.user_textures, slot)
            &&& is_name_of_slot(texture, slot)
            &&& created.len() == expected_creations(Purpose::UserTexture)
        },
        Operation::UnregisterUserTexture { texture } => !never_registered(
            model.user_textures,
            texture,
        ),
        Operation::UpdateSwapchain { created, .. } => created.len() == expected_creations(
            Purpose::Swapchain,
        ),
        Operation::UpdateTexture { id, delta, created } => {
            &&& upload_error(model, id, delta) is None
            &&& created.len() == expected_creations(
                Purpose::Upload {
                    id,
                    extent: delta_extent(delta),
                    fate: upload_fate(model, id, delta),
                },
            )
        },
        Operation::Record { image_index, primitives, .. } => draw_error(
            model,
            image_index,
            primitives,
        ) is None,
        Operation::FreeTextures { .. } => true,
    }
}

/// A texture is set as a whole only where there is none, and patched only where
/// there is one. Of an upload that does otherwise, objects are lost track of.
pub open spec fn operation_is_tidy(model: IntegrationModel, operation: Operation) -> bool {
    match operation {
        Operation::UpdateTexture { id, delta, .. } => delta.pos is None
            <==> !model.textures.images.contains_key(id),
        _ => true,
    }
}

/// The renderer after a run of operations.
pub open spec fn run_result(
    model: IntegrationModel,
    operations: Seq<Operation>,
) -> IntegrationModel
    decreases operations.len(),
{
    if operations.len() == 0 {
        model
    } else {
        operation_result(run_result(model, operations.drop_last()), operations.last())
    }
}

/// Every operation of a run succeeds.
pub open spec fn run_succeeds(model: IntegrationModel, operations: Seq<Operation>) -> bool
    decreases operations.len(),
{
    operations.len() == 0 || {
        &&& run_succeeds(model, operations.drop_last())
        &&& operation_succeeds(run_result(model, operations.drop_last()), operations.last())
    }
}

/// Every operation of a run is tidy.
pub open spec fn run_is_tidy(model: IntegrationModel, operations: Seq<Operation>) -> bool
    decreases operations.len(),
{
    operations.len() == 0 || {
        &&& run_is_tidy(model, operations.drop_last())
        &&& operation_is_tidy(run_result(model, operations.drop_last()), operations.last())
    }
}

/// How many objects of this kind and with this handle a run creates.
pub open spec fn run_creation_count(
    model: IntegrationModel,
    operations: Seq<Operation>,
    kind: ObjectKind,
    raw: u64,
) -> nat
    decreases operations.len(),
{
    if operations.len() == 0 {
        0
    } else {
        let last = operations.last();
        let before = run_result(model, operations.drop_last());
        run_creation_count(model, operations.drop_last(), kind, raw) + creation_count(
            operation_script(before, last),
            operation_created(last),
            kind,
            raw,
        )
    }
}

/// How often a run ends the life of an object of this kind and with this handle.
pub open spec fn run_end_count(
    model: IntegrationModel,
    operations: Seq<Operation>,
    kind: ObjectKind,
    raw: u64,
) -> nat
    decreases operations.len(),
{
    if operations.len() == 0 {
        0
    } else {
        let last = operations.last();
        let before = run_result(model, operations.drop_last());
        run_end_count(model, operations.drop_last(), kind, raw) + end_count(
            operation_script(before, last),
            operation_created(last),
            kind,
            raw,
        )
    }
}

/// The life of a renderer up to its end: how it was set up, and what was done
/// to it.
pub struct Life {
    pub context: egui::Context,
    pub physical_width: u32,
    pub physical_height: u32,
    pub queue_family: u32,
    pub image_count: usize,
    /// The handles of the objects that setup created.
    pub created: Seq<u64>,
    pub operations: Seq<Operation>,
}

impl Life {
    /// The renderer after its setup.
    pub open spec fn start(self) -> IntegrationModel {
        setup_model(
            self.context,
            self.physical_width,
            self.physical_height,
            self.queue_family,
            self.image_count as int,
            self.created,
        )
    }

    /// The renderer after all that was done to it.
    pub open spec fn result(self) -> IntegrationModel {
        run_result(self.start(), self.operations)
    }

    /// The device created all that setup needs, and every operation succeeded.
    pub open spec fn succeeds(self) -> bool {
        &&& self.created.len() == expected_creations(
            Purpose::Setup { image_count: self.image_count },
        )
        &&& self.created.len() <= usize::MAX
        &&& run_succeeds(self.start(), self.operations)
    }

    /// Every operation was tidy.
    pub open spec fn is_tidy(self) -> bool {
        run_is_tidy(self.start(), self.operations)
    }

    /// How many objects of this kind and with this handle were created.
    pub open spec fn creation_count(self, kind: ObjectKind, raw: u64) -> nat {
        creation_count(setup_script(self.image_count), self.created, kind, raw)
            + run_creation_count(self.start(), self.operations, kind, raw)
    }

    /// The device gave no two objects of this kind the same handle.
    pub open spec fn handles_differ(self, kind: ObjectKind) -> bool {
        forall|raw: u64| #[trigger] self.creation_count(kind, raw) <= 1
    }

    /// How often the life of an object of this kind and with this handle was
    /// ended.
    pub open spec fn end_count(self, kind: ObjectKind, raw: u64) -> nat {
        end_count(setup_script(self.image_count), self.created, kind, raw) + run_end_count(
            self.start(),
            self.operations,
            kind,
            raw,
        )
    }
}

/// How often the renderer holds an object of this kind and with this handle
/// that it has to release.
pub open spec fn held_count(model: IntegrationModel, kind: ObjectKind, raw: u64) -> nat {
    occurrences(held(model, Seq::empty(), Seq::empty(), Seq::empty(), kind), raw) + table_count(
        model.textures,
        kind,
        raw,
    )
}

/// How many textures have an object of this kind and with this handle.
pub open spec fn table_count(tables: TextureModel, kind: ObjectKind, raw: u64) -> nat {
    match kind {
        ObjectKind::Image => holders(tables.images, raw),
        ObjectKind::ImageView => holders(tables.views, raw),
        ObjectKind::Allocation => holders(tables.allocations, raw),
        _ => 0,
    }
}

/// Objects of this kind go with the pool that they came from.
pub open spec fn is_pooled(kind: ObjectKind) -> bool {
    kind is DescriptorSet || kind is CommandBuffer
}

/// One where it holds, none where it does not.
pub open spec fn one_if(condition: bool) -> nat {
    if condition {
        1
    } else {
        0
    }
}

/// At every point of a tidy life, an object that was created was released, or
/// the renderer holds it: of each kind but the pooled ones, and for each handle,
/// the objects created are as many as those released and those held together.
/// So nothing is lost track of, and nothing is released that is not there.
pub proof fn law_life_loses_no_object(life: Life, kind: ObjectKind, raw: u64)
    requires
        life.succeeds(),
        life.is_tidy(),
        !is_pooled(kind),
    ensures
        life.creation_count(kind, raw) == life.end_count(kind, raw) + held_count(
            life.result(),
            kind,
            raw,
        ),
{
    lemma_setup_balances(life, kind, raw);
    lemma_run_balances(life.start(), life.operations, kind, raw);
}

/// Over a whole tidy life, ended by `destroy`, every object is released as often
/// as it is created. With handles that differ, that is once. This leaves out the
/// pooled kinds, which go with their pools at the latest.
pub proof fn law_whole_life_releases_every_object_once(
    life: Life,
    images: Seq<u64>,
    views: Seq<u64>,
    allocations: Seq<u64>,
    kind: ObjectKind,
    raw: u64,
)
    requires
        life.succeeds(),
        life.is_tidy(),
        lists_values(life.result().textures.images, images),
        lists_values(life.result().textures.views, views),
        lists_values(life.result().textures.allocations, allocations),
        !is_pooled(kind),
    ensures
        ({
            let destroy = destroy_script(life.result(), images, views, allocations);
            let ended = life.end_count(kind, raw) + end_count(destroy, Seq::empty(), kind, raw);
            &&& ended == life.creation_count(kind, raw)
            &&& life.handles_differ(kind) && life.creation_count(kind, raw) > 0 ==> ended == 1
        }),
{
    law_life_loses_no_object(life, kind, raw);
    lemma_setup_balances(life, kind, raw);
    lemma_run_balances(life.start(), life.operations, kind, raw);
    lemma_destroy_ends_what_is_held(life.result(), images, views, allocations, kind, raw);
}

/// How many user textures have this descriptor set.
pub open spec fn slot_count(slots: Seq<Option<u64>>, raw: u64) -> nat
    decreases slots.len(),
{
    if slots.len() == 0 {
        0
    } else {
        slot_count(slots.drop_last(), raw) + one_if(slots.last() == Some(raw))
    }
}

/// At every point of a life, and for each handle, the descriptor sets freed and
/// those that user textures have are together no more than those created: none
/// is freed twice, or while a user texture has it. The end frees none: what is
/// left goes with the pool.
pub proof fn law_descriptor_sets_are_freed_at_most_once(
    life: Life,
    images: Seq<u64>,
    views: Seq<u64>,
    allocations: Seq<u64>,
    raw: u64,
)
    requires
        life.succeeds(),
    ensures
        life.end_count(ObjectKind::DescriptorSet, raw) + slot_count(
            life.result().user_textures,
            raw,
        ) <= life.creation_count(ObjectKind::DescriptorSet, raw),
        end_count(
            destroy_script(life.result(), images, views, allocations),
            Seq::empty(),
            ObjectKind::DescriptorSet,
            raw,
        ) == 0,
{
    let kind = ObjectKind::DescriptorSet;
    lemma_setup_balances(life, kind, raw);
    lemma_run_frees_sets_once(life.start(), life.operations, raw);
    let model = life.result();
    lemma_destroy_names_known(model, images, views, allocations);
    lemma_known_ends(
        destroy_script(model, images, views, allocations),
        Seq::empty(),
        kind,
        raw,
    );
    lemma_run_keeps_buffers_paired(life.start(), life.operations);
    law_destroy_releases_each_object_once(model, images, views, allocations, kind, raw);
    assert(occurrences(Seq::<u64>::empty(), raw) == 0);
}

/// A run of operations can be cut anywhere: the second part starts on what the
/// first one leads to.
pub proof fn law_runs_go_on(
    model: IntegrationModel,
    first: Seq<Operation>,
    second: Seq<Operation>,
)
    ensures
        ({
            let middle = run_result(model, first);
            &&& run_result(model, first + second) == run_result(middle, second)
            &&& run_succeeds(model, first + second) <==> run_succeeds(model, first)
                && run_succeeds(middle, second)
            &&& run_is_tidy(model, first + second) <==> run_is_tidy(model, first)
                && run_is_tidy(middle, second)
        }),
    decreases second.len(),
{
    let both = first + second;
    if second.len() == 0 {
        assert(both =~= first);
    } else {
        law_runs_go_on(model, first, second.drop_last());
        assert(both.drop_last() =~= first + second.drop_last());
        assert(both.last() == second.last());
    }
}

/// What a frame comes down to: each update, the meshes, and the textures given
/// up.
pub open spec fn paint_operations(
    request: PaintRequest,
    replies: Seq<Seq<u64>>,
) -> Seq<Operation> {
    update_operations(request.updates@, replies, request.updates@.len()) + seq![
        Operation::Record {
            image_index: request.image_index,
            width_points: request.width_points,
            height_points: request.height_points,
            primitives: request.primitives@,
        },
        Operation::FreeTextures { keys: request.free@ },
    ]
}

/// The first `n` updates, which led to these handles.
pub open spec fn update_operations(
    updates: Seq<TextureUpdate>,
    replies: Seq<Seq<u64>>,
    n: nat,
) -> Seq<Operation> {
    Seq::new(
        n,
        |i: int|
            Operation::UpdateTexture {
                id: updates[i].id,
                delta: updates[i].delta,
                created: replies[i],
            },
    )
}

/// A frame that was painted to the end is a run of operations that succeed. So
/// what holds of all runs holds of every row of frames.
pub proof fn law_paint_is_a_run_of_operations(
    start: IntegrationModel,
    request: PaintRequest,
    events: Seq<Event>,
)
    requires
        next_error(start, request, 0) is None,
        runs_without_error(
            next_model(start, request, 0),
            next_job(start, request, 0, Seq::empty()),
            events,
        ),
        after_events(
            next_model(start, request, 0),
            next_job(start, request, 0, Seq::empty()),
            events,
        ).1.stage is Done,
    ensures
        ({
            let now = after_events(
                next_model(start, request, 0),
                next_job(start, request, 0, Seq::empty()),
                events,
            );
            let operations = paint_operations(request, now.1.replies);
            &&& run_succeeds(start, operations)
            &&& run_result(start, operations) == now.0
        }),
{
    let now = after_events(
        next_model(start, request, 0),
        next_job(start, request, 0, Seq::empty()),
        events,
    );
    law_finished_paint(start, request, events);
    let updates = request.updates@;
    let replies = now.1.replies;
    let uploads = update_operations(updates, replies, updates.len());
    let operations = paint_operations(request, replies);
    lemma_updates_are_a_run(start, updates, replies, updates.len());
    let most = operations.drop_last();
    assert(most.drop_last() =~= uploads);
    assert(most.last() == Operation::Record {
        image_index: request.image_index,
        width_points: request.width_points,
        height_points: request.height_points,
        primitives: request.primitives@,
    });
    assert(operations.last() == Operation::FreeTextures { keys: request.free@ });
    assert(run_result(start, most) == run_result(start, uploads));
    assert(run_succeeds(start, most));
    assert(run_succeeds(start, operations));
    assert(run_result(start, operations) == painted(start, request, replies));
}

} // verus!
