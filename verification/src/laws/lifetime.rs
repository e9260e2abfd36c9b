//! Of the objects on the device, from setup to the end.
use vstd::prelude::*;

use crate::command::{Command, Handle, Object, ObjectKind};
use crate::config::{
    sampler_spec, setup_pipeline_spec, PipelineConfig, ShaderStage, POOL_CAPACITY,
    PUSH_CONSTANT_BYTES,
};
use crate::integration::IntegrationModel;
use crate::integration::paint::lemma_tables_without_consistent;
use crate::integration::release::{
    destroy_buffers, destroy_images, destroy_layouts, destroy_script, destroy_views,
    free_allocations, free_commands, free_script, paired, tables_without,
};
use crate::integration::setup::{
    buffer_number, buffers_script, image_buffers_script, pipeline_script, setup_model,
    setup_script, texture_layout_command,
};
use crate::integration::swapchain::{swapchain_script, NEW_PIPELINE};
use crate::integration::upload::{
    delta_extent, upload_fate, upload_finished, upload_started, UPLOAD_IMAGE, UPLOAD_IMAGE_MEMORY,
    UPLOAD_VIEW,
};
use crate::laws::paint::{
    law_freed_texture_is_gone, law_freed_texture_is_released, law_other_textures_stay,
    lemma_untouched,
};
use crate::laws::upload::law_upload_changes_only_its_texture;
use crate::script::{
    creations, lemma_creations_add, lemma_creations_push, lemma_releases_add, releases,
};
use crate::tables::{
    law_tables_stay_consistent, lists_values, lists_values_of, lookup, TextureModel,
};
use crate::texture::{ImageDelta, TextureKey};

verus! {

/// The map has this value under some key.
pub open spec fn holds(map: Map<TextureKey, u64>, raw: u64) -> bool {
    exists|key: TextureKey| #[trigger] map.contains_key(key) && map[key] == raw
}

/// The renderer holds an object of this kind with this handle, and has to
/// release it. (Descriptor sets go with their pool.)
pub open spec fn owns(model: IntegrationModel, kind: ObjectKind, raw: u64) -> bool {
    match kind {
        ObjectKind::DescriptorPool => raw == model.descriptor_pool,
        ObjectKind::DescriptorSetLayout => raw == model.user_texture_layout
            || model.descriptor_set_layouts.contains(raw),
        ObjectKind::PipelineLayout => raw == model.pipeline_layout,
        ObjectKind::Pipeline => raw == model.pipeline,
        ObjectKind::Sampler => raw == model.sampler,
        ObjectKind::Buffer => model.vertex_buffers.contains(raw) || model.index_buffers.contains(
            raw,
        ),
        ObjectKind::Allocation => model.vertex_buffer_allocations.contains(raw)
            || model.index_buffer_allocations.contains(raw) || holds(
            model.textures.allocations,
            raw,
        ),
        ObjectKind::Image => holds(model.textures.images, raw),
        ObjectKind::ImageView => holds(model.textures.views, raw),
        ObjectKind::DescriptorSet => false,
        ObjectKind::ShaderModule => false,
        ObjectKind::CommandPool => false,
        ObjectKind::CommandBuffer => false,
        ObjectKind::Fence => false,
    }
}

proof fn lemma_listed_iff_held(map: Map<TextureKey, u64>, values: Seq<u64>, raw: u64)
    requires
        lists_values(map, values),
    ensures
        values.contains(raw) <==> holds(map, raw),
{
    let keys = choose|keys: Seq<TextureKey>| #[trigger] lists_values_of(map, keys, values);
    if values.contains(raw) {
        let i = choose|i: int| 0 <= i < values.len() && values[i] == raw;
        assert(keys.contains(keys[i]));
        assert(map.contains_key(keys[i]));
    }
    if holds(map, raw) {
        let key = choose|key: TextureKey| #[trigger] map.contains_key(key) && map[key] == raw;
        assert(keys.contains(key));
        let i = choose|i: int| 0 <= i < keys.len() && keys[i] == key;
        assert(values[i] == raw);
    }
}

/// Some of the first `n` are this one.
spec fn among(handles: Seq<u64>, n: nat, raw: u64) -> bool {
    exists|i: int| 0 <= i < n && #[trigger] handles[i] == raw
}

proof fn lemma_buffers_released(
    buffers: Seq<u64>,
    allocations: Seq<u64>,
    n: nat,
    kind: ObjectKind,
    raw: u64,
)
    ensures
        releases(destroy_buffers(buffers, allocations, n), kind, Handle::Known(raw)) <==> (kind
            is Buffer && among(buffers, n, raw)) || (kind is Allocation && among(
            allocations,
            n,
            raw,
        )),
    decreases n,
{
    if n > 0 {
        let last = (n - 1) as nat;
        let pair = seq![
            Command::DestroyBuffer { buffer: Handle::Known(buffers[last as int]) },
            Command::FreeAllocation { allocation: Handle::Known(allocations[last as int]) },
        ];
        lemma_buffers_released(buffers, allocations, last, kind, raw);
        lemma_releases_add(
            destroy_buffers(buffers, allocations, last),
            pair,
            kind,
            Handle::Known(raw),
        );
        assert(pair[0].releases() == Some(
            Object { kind: ObjectKind::Buffer, handle: Handle::Known(buffers[last as int]) },
        ));
        assert(pair[1].releases() == Some(
            Object {
                kind: ObjectKind::Allocation,
                handle: Handle::Known(allocations[last as int]),
            },
        ));
        assert(releases(pair, kind, Handle::Known(raw)) <==> (kind is Buffer && raw
            == buffers[last as int]) || (kind is Allocation && raw == allocations[last as int]));
        assert(among(buffers, n, raw) <==> among(buffers, last, raw) || raw
            == buffers[last as int]);
        assert(among(allocations, n, raw) <==> among(allocations, last, raw) || raw
            == allocations[last as int]);
    }
}

proof fn lemma_list_released(
    script: Seq<Command>,
    handles: Seq<u64>,
    released: ObjectKind,
    kind: ObjectKind,
    raw: u64,
)
    requires
        script.len() == handles.len(),
        forall|i: int|
            0 <= i < script.len() ==> (#[trigger] script[i]).releases() == Some(
                Object { kind: released, handle: Handle::Known(handles[i]) },
            ),
    ensures
        releases(script, kind, Handle::Known(raw)) <==> kind == released && handles.contains(raw),
{
    if kind == released && handles.contains(raw) {
        let i = choose|i: int| 0 <= i < handles.len() && handles[i] == raw;
        assert(script[i].releases() == Some(Object { kind, handle: Handle::Known(raw) }));
    }
    if releases(script, kind, Handle::Known(raw)) {
        let i = choose|i: int|
            0 <= i < script.len() && (#[trigger] script[i]).releases() == Some(
                Object { kind, handle: Handle::Known(raw) },
            );
        assert(handles[i] == raw);
    }
}

/// Destroying the renderer releases exactly what it owns.
pub proof fn law_destroy_releases_what_is_owned(
    model: IntegrationModel,
    images: Seq<u64>,
    views: Seq<u64>,
    allocations: Seq<u64>,
    kind: ObjectKind,
    raw: u64,
)
    requires
        model.wf(),
        lists_values(model.textures.images, images),
        lists_values(model.textures.views, views),
        lists_values(model.textures.allocations, allocations),
    ensures
        releases(
            destroy_script(model, images, views, allocations),
            kind,
            Handle::Known(raw),
        ) <==> owns(model, kind, raw),
{
    let handle = Handle::Known(raw);
    let user_layout = seq![
        Command::DestroyDescriptorSetLayout { layout: Handle::Known(model.user_texture_layout) },
    ];
    let index_count = paired(model.index_buffers, model.index_buffer_allocations);
    let indices = destroy_buffers(
        model.index_buffers,
        model.index_buffer_allocations,
        index_count,
    );
    let vertex_count = paired(model.vertex_buffers, model.vertex_buffer_allocations);
    let vertices = destroy_buffers(
        model.vertex_buffers,
        model.vertex_buffer_allocations,
        vertex_count,
    );
    let middle = seq![
        Command::DestroySampler { sampler: Handle::Known(model.sampler) },
        Command::DestroyPipeline { pipeline: Handle::Known(model.pipeline) },
        Command::DestroyPipelineLayout { layout: Handle::Known(model.pipeline_layout) },
    ];
    let layouts = destroy_layouts(model.descriptor_set_layouts);
    let pool = seq![
        Command::DestroyDescriptorPool { pool: Handle::Known(model.descriptor_pool) },
    ];
    lemma_releases_add(user_layout, indices, kind, handle);
    let s2 = user_layout + indices;
    lemma_releases_add(s2, vertices, kind, handle);
    let s3 = s2 + vertices;
    lemma_releases_add(s3, middle, kind, handle);
    let s4 = s3 + middle;
    lemma_releases_add(s4, layouts, kind, handle);
    let s5 = s4 + layouts;
    lemma_releases_add(s5, pool, kind, handle);
    let s6 = s5 + pool;
    lemma_releases_add(s6, destroy_images(images), kind, handle);
    let s7 = s6 + destroy_images(images);
    lemma_releases_add(s7, destroy_views(views), kind, handle);
    let s8 = s7 + destroy_views(views);
    lemma_releases_add(s8, free_allocations(allocations), kind, handle);

    assert(user_layout[0].releases() == Some(
        Object {
            kind: ObjectKind::DescriptorSetLayout,
            handle: Handle::Known(model.user_texture_layout),
        },
    ));
    assert(middle[0].releases() == Some(
        Object { kind: ObjectKind::Sampler, handle: Handle::Known(model.sampler) },
    ));
    assert(middle[1].releases() == Some(
        Object { kind: ObjectKind::Pipeline, handle: Handle::Known(model.pipeline) },
    ));
    assert(middle[2].releases() == Some(
        Object { kind: ObjectKind::PipelineLayout, handle: Handle::Known(model.pipeline_layout) },
    ));
    assert(pool[0].releases() == Some(
        Object { kind: ObjectKind::DescriptorPool, handle: Handle::Known(model.descriptor_pool) },
    ));
    lemma_buffers_released(
        model.index_buffers,
        model.index_buffer_allocations,
        index_count,
        kind,
        raw,
    );
    lemma_buffers_released(
        model.vertex_buffers,
        model.vertex_buffer_allocations,
        vertex_count,
        kind,
        raw,
    );
    assert(among(model.index_buffers, index_count, raw) <==> model.index_buffers.contains(raw));
    assert(among(model.vertex_buffers, vertex_count, raw) <==> model.vertex_buffers.contains(raw));
    assert(among(model.index_buffer_allocations, index_count, raw)
        <==> model.index_buffer_allocations.contains(raw));
    assert(among(model.vertex_buffer_allocations, vertex_count, raw)
        <==> model.vertex_buffer_allocations.contains(raw));
    lemma_list_released(
        layouts,
        model.descriptor_set_layouts,
        ObjectKind::DescriptorSetLayout,
        kind,
        raw,
    );
    lemma_list_released(destroy_images(images), images, ObjectKind::Image, kind, raw);
    lemma_list_released(destroy_views(views), views, ObjectKind::ImageView, kind, raw);
    lemma_list_released(
        free_allocations(allocations),
        allocations,
        ObjectKind::Allocation,
        kind,
        raw,
    );
    lemma_listed_iff_held(model.textures.images, images, raw);
    lemma_listed_iff_held(model.textures.views, views, raw);
    lemma_listed_iff_held(model.textures.allocations, allocations, raw);
}

/// The script's command `i` creates an object of this kind, as its creation
/// number `number`.
pub open spec fn creates_at(
    script: Seq<Command>,
    i: int,
    kind: ObjectKind,
    number: nat,
) -> bool {
    &&& 0 <= i < script.len()
    &&& script[i].creates() == Some(kind)
    &&& creations(script.take(i)) == number
}

/// A creation of one script behind another is one of either.
proof fn lemma_creates_add(
    first: Seq<Command>,
    second: Seq<Command>,
    i: int,
    kind: ObjectKind,
    number: nat,
)
    requires
        creates_at(first + second, i, kind, number),
    ensures
        i < first.len() ==> creates_at(first, i, kind, number),
        i >= first.len() ==> number >= creations(first) && creates_at(
            second,
            i - first.len(),
            kind,
            (number - creations(first)) as nat,
        ),
{
    let both = first + second;
    if i < first.len() {
        assert(both.take(i) =~= first.take(i));
    } else {
        assert(both.take(i) =~= first + second.take(i - first.len()));
        lemma_creations_add(first, second.take(i - first.len()));
    }
}

proof fn lemma_single(command: Command)
    ensures
        creations(seq![command]) == (if command.creates() is Some {
            1nat
        } else {
            0
        }),
        creations(seq![command].take(0)) == 0,
{
    assert(seq![command] =~= Seq::<Command>::empty().push(command));
    lemma_creations_push(Seq::<Command>::empty(), command);
    assert(seq![command].take(0) =~= Seq::<Command>::empty());
}

pub proof fn lemma_layout_creations(n: nat)
    ensures
        creations(Seq::new(n, |i: int| texture_layout_command())) == n,
    decreases n,
{
    let layouts = Seq::new(n, |i: int| texture_layout_command());
    if n > 0 {
        lemma_layout_creations((n - 1) as nat);
        assert(layouts.drop_last() =~= Seq::new(
            (n - 1) as nat,
            |i: int| texture_layout_command(),
        ));
    }
}

pub proof fn lemma_pipeline_creations(config: PipelineConfig, layout: Handle, first: int)
    ensures
        ({
            let script = pipeline_script(config, layout, first);
            &&& creations(script.take(0)) == 0
            &&& creations(script.take(1)) == 1
            &&& creations(script.take(2)) == 2
            &&& creations(script) == 3
        }),
{
    let script = pipeline_script(config, layout, first);
    assert(script.take(0) =~= Seq::<Command>::empty());
    assert(script.take(1) =~= script.take(0).push(script[0]));
    lemma_creations_push(script.take(0), script[0]);
    assert(script.take(2) =~= script.take(1).push(script[1]));
    lemma_creations_push(script.take(1), script[1]);
    assert(script.take(3) =~= script.take(2).push(script[2]));
    lemma_creations_push(script.take(2), script[2]);
    assert(script.take(4) =~= script.take(3).push(script[3]));
    lemma_creations_push(script.take(3), script[3]);
    assert(script =~= script.take(4).push(script[4]));
    lemma_creations_push(script.take(4), script[4]);
}

pub proof fn lemma_image_buffers_creations(image_count: int, i: int)
    ensures
        ({
            let script = image_buffers_script(image_count, i);
            &&& creations(script.take(0)) == 0
            &&& creations(script.take(1)) == 1
            &&& creations(script.take(3)) == 2
            &&& creations(script.take(4)) == 3
            &&& creations(script) == 4
        }),
{
    let script = image_buffers_script(image_count, i);
    assert(script.take(0) =~= Seq::<Command>::empty());
    assert(script.take(1) =~= script.take(0).push(script[0]));
    lemma_creations_push(script.take(0), script[0]);
    assert(script.take(2) =~= script.take(1).push(script[1]));
    lemma_creations_push(script.take(1), script[1]);
    assert(script.take(3) =~= script.take(2).push(script[2]));
    lemma_creations_push(script.take(2), script[2]);
    assert(script.take(4) =~= script.take(3).push(script[3]));
    lemma_creations_push(script.take(3), script[3]);
    assert(script.take(5) =~= script.take(4).push(script[4]));
    lemma_creations_push(script.take(4), script[4]);
    assert(script =~= script.take(5).push(script[5]));
    lemma_creations_push(script.take(5), script[5]);
}

pub proof fn lemma_buffers_creations(image_count: int, n: nat)
    ensures
        creations(buffers_script(image_count, n)) == 4 * n,
    decreases n,
{
    if n > 0 {
        lemma_buffers_creations(image_count, (n - 1) as nat);
        lemma_image_buffers_creations(image_count, n - 1);
        lemma_creations_add(
            buffers_script(image_count, (n - 1) as nat),
            image_buffers_script(image_count, n - 1),
        );
    }
}

/// A creation of the buffers is that of a buffer or of its memory, of one of
/// the swapchain images.
proof fn lemma_buffers_create(
    image_count: int,
    n: nat,
    i: int,
    kind: ObjectKind,
    number: nat,
) -> (place: (int, int))
    requires
        creates_at(buffers_script(image_count, n), i, kind, number),
    ensures
        0 <= place.0 < n,
        0 <= place.1 < 4,
        number == 4 * place.0 + place.1,
        kind == (if place.1 == 0 || place.1 == 2 {
            ObjectKind::Buffer
        } else {
            ObjectKind::Allocation
        }),
    decreases n,
{
    let last = (n - 1) as nat;
    let first = buffers_script(image_count, last);
    let second = image_buffers_script(image_count, last as int);
    lemma_creates_add(first, second, i, kind, number);
    if i < first.len() {
        lemma_buffers_create(image_count, last, i, kind, number)
    } else {
        lemma_buffers_creations(image_count, last);
        lemma_image_buffers_creations(image_count, last as int);
        let k = i - first.len();
        let part: int = if k == 0 {
            0
        } else if k == 1 {
            1
        } else if k == 3 {
            2
        } else {
            3
        };
        assert(k == 0 || k == 1 || k == 3 || k == 4);
        (last as int, part)
    }
}

/// Whatever setup creates, the new renderer owns, but for the shader modules,
/// which setup itself releases.
#[verifier::spinoff_prover]
#[verifier::rlimit(60)]
pub proof fn law_setup_owns_what_it_creates(
    context: egui::Context,
    physical_width: u32,
    physical_height: u32,
    queue_family: u32,
    image_count: usize,
    created: Seq<u64>,
    i: int,
    kind: ObjectKind,
    number: nat,
)
    requires
        created.len() == 5 * image_count + 7,
        created.len() <= usize::MAX,
        creates_at(setup_script(image_count), i, kind, number),
    ensures
        number < created.len(),
        if kind is ShaderModule {
            releases(setup_script(image_count), kind, Handle::Created(number as usize))
        } else {
            owns(
                setup_model(
                    context,
                    physical_width,
                    physical_height,
                    queue_family,
                    image_count as int,
                    created,
                ),
                kind,
                created[number as int],
            )
        },
{
    let n = image_count as int;
    let model = setup_model(context, physical_width, physical_height, queue_family, n, created);
    let script = setup_script(image_count);
    let pool = seq![
        Command::CreateDescriptorPool {
            max_sets: POOL_CAPACITY,
            descriptor_count: POOL_CAPACITY,
            free_sets: true,
        },
    ];
    let layouts = Seq::new(image_count as nat, |i: int| texture_layout_command());
    let layout = seq![
        Command::CreatePipelineLayout {
            first_layout: 1,
            layout_count: image_count,
            push_stage: ShaderStage::Vertex,
            push_offset: 0,
            push_size: PUSH_CONSTANT_BYTES,
        },
    ];
    let pipeline = pipeline_script(
        setup_pipeline_spec(),
        Handle::Created((image_count + 1) as usize),
        image_count + 2,
    );
    let sampler = seq![Command::CreateSampler { config: sampler_spec() }];
    let buffers = buffers_script(n, image_count as nat);
    let user = seq![texture_layout_command()];
    let s2 = pool + layouts;
    let s3 = s2 + layout;
    let s4 = s3 + pipeline;
    let s5 = s4 + sampler;
    let s6 = s5 + buffers;
    assert(script == s6 + user);
    lemma_single(pool[0]);
    assert(seq![pool[0]] =~= pool);
    lemma_single(layout[0]);
    assert(seq![layout[0]] =~= layout);
    lemma_single(sampler[0]);
    assert(seq![sampler[0]] =~= sampler);
    lemma_single(user[0]);
    assert(seq![user[0]] =~= user);
    lemma_layout_creations(image_count as nat);
    lemma_pipeline_creations(
        setup_pipeline_spec(),
        Handle::Created((image_count + 1) as usize),
        image_count + 2,
    );
    lemma_buffers_creations(n, image_count as nat);
    lemma_creations_add(pool, layouts);
    lemma_creations_add(s2, layout);
    lemma_creations_add(s3, pipeline);
    lemma_creations_add(s4, sampler);
    lemma_creations_add(s5, buffers);
    lemma_creates_add(s6, user, i, kind, number);
    if i >= s6.len() {
        assert(number == 5 * n + 6);
    } else {
        lemma_creates_add(s5, buffers, i, kind, number);
        if i >= s5.len() {
            let (image, part) = lemma_buffers_create(
                n,
                image_count as nat,
                i - s5.len(),
                kind,
                (number - creations(s5)) as nat,
            );
            assert(number == buffer_number(n, image, part));
            if part == 0 {
                assert(model.vertex_buffers[image] == created[number as int]);
            } else if part == 1 {
                assert(model.vertex_buffer_allocations[image] == created[number as int]);
            } else if part == 2 {
                assert(model.index_buffers[image] == created[number as int]);
            } else {
                assert(model.index_buffer_allocations[image] == created[number as int]);
            }
        } else {
            lemma_creates_add(s4, sampler, i, kind, number);
            if i >= s4.len() {
                assert(number == n + 5);
            } else {
                lemma_creates_add(s3, pipeline, i, kind, number);
                if i >= s3.len() {
                    let k = i - s3.len();
                    assert(k == 0 || k == 1 || k == 2);
                    assert(number == n + 2 + k);
                    if k < 2 {
                        assert(script[s3.len() + 3 + k] == pipeline[3 + k]);
                        assert(pipeline[3 + k].releases() == Some(
                            Object { kind, handle: Handle::Created(number as usize) },
                        ));
                    }
                } else {
                    lemma_creates_add(s2, layout, i, kind, number);
                    if i >= s2.len() {
                        assert(number == n + 1);
                    } else {
                        lemma_creates_add(pool, layouts, i, kind, number);
                        if i >= pool.len() {
                            let k = i - 1;
                            assert(layouts.take(k) =~= Seq::new(
                                k as nat,
                                |i: int| texture_layout_command(),
                            ));
                            lemma_layout_creations(k as nat);
                            assert(number == 1 + k);
                            assert(model.descriptor_set_layouts[k] == created[number as int]);
                        } else {
                            assert(number == 0);
                        }
                    }
                }
            }
        }
    }
}

/// Setting a renderer up and destroying it releases everything that setup
/// created.
pub proof fn law_destroy_undoes_setup(
    context: egui::Context,
    physical_width: u32,
    physical_height: u32,
    queue_family: u32,
    image_count: usize,
    created: Seq<u64>,
    images: Seq<u64>,
    views: Seq<u64>,
    allocations: Seq<u64>,
    i: int,
    kind: ObjectKind,
    number: nat,
)
    requires
        created.len() == 5 * image_count + 7,
        created.len() <= usize::MAX,
        creates_at(setup_script(image_count), i, kind, number),
        ({
            let model = setup_model(
                context,
                physical_width,
                physical_height,
                queue_family,
                image_count as int,
                created,
            );
            &&& lists_values(model.textures.images, images)
            &&& lists_values(model.textures.views, views)
            &&& lists_values(model.textures.allocations, allocations)
        }),
    ensures
        ({
            let model = setup_model(
                context,
                physical_width,
                physical_height,
                queue_family,
                image_count as int,
                created,
            );
            ||| releases(setup_script(image_count), kind, Handle::Created(number as usize))
            ||| releases(
                destroy_script(model, images, views, allocations),
                kind,
                Handle::Known(created[number as int]),
            )
        }),
{
    let model = setup_model(
        context,
        physical_width,
        physical_height,
        queue_family,
        image_count as int,
        created,
    );
    law_setup_owns_what_it_creates(
        context,
        physical_width,
        physical_height,
        queue_family,
        image_count,
        created,
        i,
        kind,
        number,
    );
    assert(model.wf()) by {
        assert(model.textures.images.dom() =~= model.textures.descriptor_sets.dom());
        assert(model.textures.images.dom() =~= model.textures.allocations.dom());
        assert(model.textures.images.dom() =~= model.textures.views.dom());
    }
    law_destroy_releases_what_is_owned(
        model,
        images,
        views,
        allocations,
        kind,
        created[number as int],
    );
}

/// A new swapchain costs the old pipeline its life and gains the renderer the
/// new one; the shader modules that were needed for it are released, and no
/// other object changes hands.
pub proof fn law_swapchain_replaces_only_the_pipeline(
    model: IntegrationModel,
    physical_width: u32,
    physical_height: u32,
    created: Seq<u64>,
    kind: ObjectKind,
    raw: u64,
)
    ensures
        ({
            let script = swapchain_script(model.pipeline, model.pipeline_layout);
            let after = IntegrationModel {
                physical_width,
                physical_height,
                pipeline: created[NEW_PIPELINE as int],
                ..model
            };
            &&& releases(script, kind, Handle::Known(raw)) <==> kind is Pipeline && raw
                == model.pipeline
            &&& releases(script, ObjectKind::ShaderModule, Handle::Created(0))
            &&& releases(script, ObjectKind::ShaderModule, Handle::Created(1))
            &&& owns(after, ObjectKind::Pipeline, created[NEW_PIPELINE as int])
            &&& !(kind is Pipeline) ==> (owns(after, kind, raw) <==> owns(model, kind, raw))
        }),
{
    let script = swapchain_script(model.pipeline, model.pipeline_layout);
    assert(script[0] == Command::DestroyPipeline { pipeline: Handle::Known(model.pipeline) });
    assert(script[5] == Command::DestroyShaderModule { module: Handle::Created(0) });
    assert(script[6] == Command::DestroyShaderModule { module: Handle::Created(1) });
    assert(script[0].releases() == Some(
        Object { kind: ObjectKind::Pipeline, handle: Handle::Known(model.pipeline) },
    ));
    if releases(script, kind, Handle::Known(raw)) {
        let i = choose|i: int|
            0 <= i < script.len() && (#[trigger] script[i]).releases() == Some(
                Object { kind, handle: Handle::Known(raw) },
            );
        assert(i == 0);
    }
}

/// The renderer owns the image, the memory and the view of a texture that was
/// uploaded as a whole.
pub proof fn law_uploaded_texture_is_owned(
    model: IntegrationModel,
    id: TextureKey,
    delta: ImageDelta,
    created: Seq<u64>,
)
    requires
        upload_fate(model, id, delta) is Register,
        created.len() == 9,
    ensures
        ({
            let after = upload_finished(
                upload_started(model, id, delta),
                id,
                upload_fate(model, id, delta),
                created,
            );
            &&& owns(after, ObjectKind::Image, created[UPLOAD_IMAGE as int])
            &&& owns(after, ObjectKind::Allocation, created[UPLOAD_IMAGE_MEMORY as int])
            &&& owns(after, ObjectKind::ImageView, created[UPLOAD_VIEW as int])
        }),
{
    let after = upload_finished(
        upload_started(model, id, delta),
        id,
        upload_fate(model, id, delta),
        created,
    );
    assert(after.textures.images.contains_key(id));
    assert(after.textures.allocations.contains_key(id));
    assert(after.textures.views.contains_key(id));
}

/// An upload loses track of no object, unless it sets a texture as a whole that
/// is there already: the objects of that one are neither released nor owned
/// any longer.
pub proof fn law_upload_forgets_no_object(
    model: IntegrationModel,
    id: TextureKey,
    delta: ImageDelta,
    created: Seq<u64>,
    kind: ObjectKind,
    raw: u64,
)
    requires
        model.wf(),
        delta.pos is None ==> !model.textures.images.contains_key(id),
        owns(model, kind, raw),
    ensures
        owns(
            upload_finished(
                upload_started(model, id, delta),
                id,
                upload_fate(model, id, delta),
                created,
            ),
            kind,
            raw,
        ),
{
    let before = model.textures;
    let after = upload_finished(
        upload_started(model, id, delta),
        id,
        upload_fate(model, id, delta),
        created,
    ).textures;
    if upload_fate(model, id, delta) is Register {
        assert(!before.images.dom().contains(id));
        assert(!before.views.dom().contains(id));
        assert(!before.allocations.dom().contains(id));
    }
    lemma_held_in_larger(before.images, after.images, raw);
    lemma_held_in_larger(before.views, after.views, raw);
    lemma_held_in_larger(before.allocations, after.allocations, raw);
}

proof fn lemma_held_in_larger(
    smaller: Map<TextureKey, u64>,
    larger: Map<TextureKey, u64>,
    raw: u64,
)
    requires
        forall|key: TextureKey| #[trigger]
            smaller.contains_key(key) ==> larger.contains_key(key) && larger[key] == smaller[key],
    ensures
        holds(smaller, raw) ==> holds(larger, raw),
{
    if holds(smaller, raw) {
        let key = choose|key: TextureKey| #[trigger]
            smaller.contains_key(key) && smaller[key] == raw;
        assert(larger.contains_key(key) && larger[key] == raw);
    }
}

/// Giving textures up loses track of no object: what the renderer owned it
/// still owns, or it is released.
pub proof fn law_free_forgets_no_object(
    model: IntegrationModel,
    keys: Seq<TextureKey>,
    kind: ObjectKind,
    raw: u64,
)
    requires
        owns(model, kind, raw),
    ensures
        ({
            let after = IntegrationModel {
                textures: tables_without(model.textures, keys, keys.len()),
                ..model
            };
            ||| owns(after, kind, raw)
            ||| releases(
                free_script(model.textures, keys, keys.len()),
                kind,
                Handle::Known(raw),
            )
        }),
{
    let after = tables_without(model.textures, keys, keys.len());
    assert forall|key: TextureKey| keys.contains(key) implies {
        &&& model.textures.images.contains_key(key) ==> releases(
            free_script(model.textures, keys, keys.len()),
            ObjectKind::Image,
            Handle::Known(model.textures.images[key]),
        )
        &&& model.textures.views.contains_key(key) ==> releases(
            free_script(model.textures, keys, keys.len()),
            ObjectKind::ImageView,
            Handle::Known(model.textures.views[key]),
        )
        &&& model.textures.allocations.contains_key(key) ==> releases(
            free_script(model.textures, keys, keys.len()),
            ObjectKind::Allocation,
            Handle::Known(model.textures.allocations[key]),
        )
    } by {
        let i = choose|i: int| 0 <= i < keys.len() && keys[i] == key;
        law_freed_texture_is_released(model.textures, keys, keys.len(), i);
    }
    assert forall|key: TextureKey| !keys.contains(key) implies {
        &&& lookup(after.images, key) == lookup(model.textures.images, key)
        &&& lookup(after.views, key) == lookup(model.textures.views, key)
        &&& lookup(after.allocations, key) == lookup(model.textures.allocations, key)
    } by {
        law_other_textures_stay(model.textures, keys, keys.len(), key);
    }
    let held = match kind {
        ObjectKind::Image => model.textures.images,
        ObjectKind::ImageView => model.textures.views,
        _ => model.textures.allocations,
    };
    if holds(held, raw) {
        let key = choose|key: TextureKey| #[trigger] held.contains_key(key) && held[key] == raw;
        if !keys.contains(key) {
            assert(lookup(held, key) == Some(raw));
            assert(kind is Image ==> after.images.contains_key(key) && after.images[key] == raw);
            assert(kind is ImageView ==> after.views.contains_key(key) && after.views[key] == raw);
            assert(lookup(after.allocations, key) == lookup(model.textures.allocations, key));
        }
    }
}

/// Giving textures up releases nothing but what the tables held of them.
pub proof fn law_free_releases_only_these(
    tables: TextureModel,
    keys: Seq<TextureKey>,
    n: nat,
    kind: ObjectKind,
    raw: u64,
)
    requires
        n <= keys.len(),
        releases(free_script(tables, keys, n), kind, Handle::Known(raw)),
    ensures
        exists|i: int|
            0 <= i < n && match kind {
                ObjectKind::Image => lookup(tables.images, #[trigger] keys[i]) == Some(raw),
                ObjectKind::ImageView => lookup(tables.views, keys[i]) == Some(raw),
                ObjectKind::Allocation => lookup(tables.allocations, keys[i]) == Some(raw),
                _ => false,
            },
    decreases n,
{
    if n > 0 {
        let last = (n - 1) as nat;
        let here = tables_without(tables, keys, last);
        let head = free_script(tables, keys, last);
        let tail = free_commands(here, keys[last as int]);
        lemma_releases_add(head, tail, kind, Handle::Known(raw));
        if releases(head, kind, Handle::Known(raw)) {
            law_free_releases_only_these(tables, keys, last, kind, raw);
        } else {
            let key = keys[last as int];
            let at = choose|i: int|
                0 <= i < tail.len() && (#[trigger] tail[i]).releases() == Some(
                    Object { kind, handle: Handle::Known(raw) },
                );
            if keys.take(last as int).contains(key) {
                let j = choose|j: int|
                    0 <= j < last && keys.take(last as int)[j] == key;
                assert(keys[j] == key);
                law_freed_texture_is_gone(tables, keys, last, j);
                assert(tail.len() == 0);
            } else {
                assert forall|j: int| 0 <= j < last implies keys[j] != key by {
                    assert(keys.take(last as int)[j] == keys[j]);
                }
                lemma_untouched(tables, keys, last, key);
                assert(match kind {
                    ObjectKind::Image => lookup(tables.images, keys[last as int]) == Some(raw),
                    ObjectKind::ImageView => lookup(tables.views, keys[last as int]) == Some(raw),
                    ObjectKind::Allocation => lookup(tables.allocations, keys[last as int])
                        == Some(raw),
                    _ => false,
                });
            }
        }
    }
}

/// Setup binds to each buffer of a swapchain image the memory that the
/// renderer keeps beside it.
pub proof fn law_setup_binds_memory(image_count: usize, i: int)
    requires
        0 <= i < image_count,
        5 * image_count + 7 <= usize::MAX,
    ensures
        setup_script(image_count).contains(
            Command::BindBufferMemory {
                buffer: Handle::Created(buffer_number(image_count as int, i, 0) as usize),
                allocation: Handle::Created(buffer_number(image_count as int, i, 1) as usize),
            },
        ),
        setup_script(image_count).contains(
            Command::BindBufferMemory {
                buffer: Handle::Created(buffer_number(image_count as int, i, 2) as usize),
                allocation: Handle::Created(buffer_number(image_count as int, i, 3) as usize),
            },
        ),
{
    let n = image_count as int;
    let buffers = buffers_script(n, image_count as nat);
    let script = setup_script(image_count);
    let at = lemma_image_buffers_stand(n, image_count as nat, i);
    let start = script.len() - 1 - buffers.len();
    assert(script[start + at + 2] == buffers[at + 2]);
    assert(script[start + at + 5] == buffers[at + 5]);
    assert(buffers[at + 2] == image_buffers_script(n, i)[2]);
    assert(buffers[at + 5] == image_buffers_script(n, i)[5]);
}

/// Where the commands for the buffers of a swapchain image stand.
proof fn lemma_image_buffers_stand(image_count: int, n: nat, i: int) -> (at: int)
    requires
        0 <= i < n,
    ensures
        0 <= at,
        at + 6 <= buffers_script(image_count, n).len(),
        forall|k: int|
            0 <= k < 6 ==> buffers_script(image_count, n)[at + k] == #[trigger]
                image_buffers_script(image_count, i)[k],
    decreases n,
{
    let last = (n - 1) as nat;
    if i < last {
        lemma_image_buffers_stand(image_count, last, i)
    } else {
        buffers_script(image_count, last).len() as int
    }
}

/// Every operation but the last one, which gives everything up, keeps the
/// renderer well-formed: following a swapchain, registering and unregistering
/// user textures, uploading, and giving textures up.
pub proof fn law_operations_keep_the_renderer_well_formed(
    model: IntegrationModel,
    physical_width: u32,
    physical_height: u32,
    pipeline: u64,
    user_textures: Seq<Option<u64>>,
    id: TextureKey,
    delta: ImageDelta,
    created: Seq<u64>,
    keys: Seq<TextureKey>,
)
    requires
        model.wf(),
    ensures
        (IntegrationModel { physical_width, physical_height, ..model }).wf(),
        (IntegrationModel { pipeline, ..model }).wf(),
        (IntegrationModel { user_textures, ..model }).wf(),
        upload_started(model, id, delta).wf(),
        upload_finished(
            upload_started(model, id, delta),
            id,
            upload_fate(model, id, delta),
            created,
        ).wf(),
        (IntegrationModel {
            textures: tables_without(model.textures, keys, keys.len()),
            ..model
        }).wf(),
{
    law_tables_stay_consistent(model.textures, id, delta_extent(delta), 0, 0, 0, 0);
    law_upload_changes_only_its_texture(model, id, delta, created);
    lemma_tables_without_consistent(model.textures, keys, keys.len());
}

} // verus!
