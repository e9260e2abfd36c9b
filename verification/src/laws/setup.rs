//! Of what setup asks the device for, and where the renderer keeps it.
use vstd::prelude::*;

use crate::command::{Command, Handle};
use crate::config::setup_pipeline_spec;
use crate::integration::setup::{
    buffers_script, image_buffers_script, pipeline_script, setup_model, setup_script,
    texture_layout_command,
};
use crate::laws::lifetime::{
    lemma_buffers_creations, lemma_image_buffers_creations, lemma_layout_creations,
    lemma_pipeline_creations,
};
use crate::script::{creations, lemma_creations_add, lemma_creations_push};
use crate::texture::TextureKey;

verus! {

/// The buffers of each swapchain image stand behind those of the one before.
proof fn lemma_buffers_stand(image_count: int, n: nat, i: int)
    requires
        0 <= i < n,
    ensures
        buffers_script(image_count, n).len() == 6 * n,
        buffers_script(image_count, n).subrange(6 * i, 6 * i + 6) == image_buffers_script(
            image_count,
            i,
        ),
        buffers_script(image_count, n).take(6 * i) == buffers_script(image_count, i as nat),
    decreases n,
{
    let last = (n - 1) as nat;
    let head = buffers_script(image_count, last);
    let script = buffers_script(image_count, n);
    lemma_buffers_length(image_count, last);
    if i == last {
        assert(script.subrange(6 * i, 6 * i + 6) =~= image_buffers_script(image_count, i));
        assert(script.take(6 * i) =~= head);
    } else {
        lemma_buffers_stand(image_count, last, i);
        assert(script.subrange(6 * i, 6 * i + 6) =~= head.subrange(6 * i, 6 * i + 6));
        assert(script.take(6 * i) =~= head.take(6 * i));
    }
}

proof fn lemma_buffers_length(image_count: int, n: nat)
    ensures
        buffers_script(image_count, n).len() == 6 * n,
    decreases n,
{
    if n > 0 {
        lemma_buffers_length(image_count, (n - 1) as nat);
    }
}

/// The part of setup before the buffers.
spec fn before_buffers(image_count: usize) -> Seq<Command> {
    let script = setup_script(image_count);
    script.take(image_count + 8)
}

proof fn lemma_setup_parts(image_count: usize)
    ensures
        ({
            let n = image_count as int;
            let script = setup_script(image_count);
            &&& script.len() == 7 * n + 9
            &&& script =~= before_buffers(image_count) + buffers_script(n, image_count as nat)
                + seq![texture_layout_command()]
            &&& script.subrange(n + 2, n + 7) =~= pipeline_script(
                setup_pipeline_spec(),
                Handle::Created((image_count + 1) as usize),
                n + 2,
            )
        }),
{
    lemma_buffers_length(image_count as int, image_count as nat);
}

/// Setup creates a pool that hands out, and takes back, up to 1024 sets of one
/// texture each.
pub proof fn law_setup_creates_a_pool(image_count: usize)
    ensures
        setup_script(image_count)[0] matches Command::CreateDescriptorPool {
            max_sets,
            descriptor_count,
            free_sets,
        } && max_sets == 1024 && descriptor_count == 1024 && free_sets,
{
    lemma_setup_parts(image_count);
}

/// Setup creates a layout with one texture for the fragment shader for each
/// swapchain image, and one more for user textures.
pub proof fn law_setup_creates_texture_layouts(image_count: usize, i: int)
    requires
        1 <= i < image_count + 1 || i == 7 * image_count + 8,
    ensures
        setup_script(image_count)[i] matches Command::CreateDescriptorSetLayout {
            binding,
            descriptor_count,
            stage,
        } && binding == 0 && descriptor_count == 1 && stage is Fragment,
{
    lemma_setup_parts(image_count);
}

/// Setup creates a pipeline layout over the layouts of all swapchain images,
/// with room for two floats for the vertex shader.
pub proof fn law_setup_creates_a_pipeline_layout(image_count: usize)
    ensures
        setup_script(image_count)[image_count + 1] matches Command::CreatePipelineLayout {
            first_layout,
            layout_count,
            push_stage,
            push_offset,
            push_size,
        } && first_layout == 1 && layout_count == image_count && push_stage is Vertex
            && push_offset == 0 && push_size == 8,
{
    lemma_setup_parts(image_count);
}

/// Setup creates the pipeline with a vertex and a fragment shader, in their
/// places, on the pipeline layout, and destroys both shaders afterwards.
pub proof fn law_setup_creates_the_pipeline_from_two_shaders(image_count: usize)
    requires
        5 * image_count + 7 <= usize::MAX,
    ensures
        ({
            let n = image_count as int;
            let script = setup_script(image_count);
            &&& script[n + 2] matches Command::CreateShaderModule { stage: first }
            &&& script[n + 3] matches Command::CreateShaderModule { stage: second }
            &&& script[n + 4] matches Command::CreateGraphicsPipeline {
                vertex_module,
                fragment_module,
                layout,
                ..
            }
            &&& script[n + 5] matches Command::DestroyShaderModule { module: third }
            &&& script[n + 6] matches Command::DestroyShaderModule { module: fourth }
            &&& first is Vertex && second is Fragment
            &&& vertex_module is Created && vertex_module->Created_0 == n + 2
            &&& fragment_module is Created && fragment_module->Created_0 == n + 3
            &&& layout is Created && layout->Created_0 == n + 1
            &&& third == vertex_module && fourth == fragment_module
        }),
{
    let n = image_count as int;
    let script = setup_script(image_count);
    lemma_setup_parts(image_count);
    let part = script.subrange(n + 2, n + 7);
    assert(script[n + 2] == part[0]);
    assert(script[n + 3] == part[1]);
    assert(script[n + 4] == part[2]);
    assert(script[n + 5] == part[3]);
    assert(script[n + 6] == part[4]);
}

/// The pipeline that setup creates fills triangles of either winding, blends
/// them with premultiplied alpha over all four channels, reads position, texture
/// coordinate and colour from the vertex buffer, and ignores depth.
#[verifier::spinoff_prover]
#[verifier::rlimit(60)]
pub proof fn law_setup_pipeline_fills_triangles(image_count: usize, i: int)
    requires
        0 <= i < setup_script(image_count).len(),
    ensures
        setup_script(image_count)[i] matches Command::CreateGraphicsPipeline { config, .. } ==> {
            &&& config.topology is TriangleList
            &&& config.raster.polygon_mode is Fill
            &&& config.raster.cull_mode is NoCulling
            &&& config.raster.front_face is CounterClockwise
            &&& !config.raster.discard
            &&& !config.raster.depth_clamp
            &&& !config.raster.depth_bias
            &&& config.blend.enabled
            &&& config.blend.src_color_factor is One
            &&& config.blend.dst_color_factor is OneMinusSrcAlpha
            &&& config.blend.write_red && config.blend.write_green
            &&& config.blend.write_blue && config.blend.write_alpha
            &&& config.viewport_count == 1 && config.dynamic_viewport
            &&& config.scissor_count == 1 && config.dynamic_scissor
            &&& config.samples == 1
            &&& !config.depth_stencil.depth_bounds_test
            &&& !config.depth_stencil.stencil_test
            &&& config.depth_stencil.stencil_fail is Keep
            &&& config.depth_stencil.stencil_pass is Keep
            &&& config.depth_stencil.stencil_comparison is Always
            &&& config.vertex_input.binding == 0 && config.vertex_input.stride == 20
            &&& config.vertex_input.position.binding == 0
            &&& config.vertex_input.position.location == 0
            &&& config.vertex_input.position.offset == 0
            &&& config.vertex_input.position.format is R32G32Sfloat
            &&& config.vertex_input.uv.binding == 0
            &&& config.vertex_input.uv.location == 1
            &&& config.vertex_input.uv.offset == 8
            &&& config.vertex_input.uv.format is R32G32Sfloat
            &&& config.vertex_input.color.binding == 0
            &&& config.vertex_input.color.location == 2
            &&& config.vertex_input.color.offset == 16
            &&& config.vertex_input.color.format is R8G8B8A8Unorm
            &&& !config.depth_stencil.depth_test && !config.depth_stencil.depth_write
            &&& config.depth_stencil.depth_comparison is Always
        },
{
    lemma_only_pipeline(image_count, i);
    lemma_setup_parts(image_count);
    let n = image_count as int;
    let script = setup_script(image_count);
    assert(script[n + 4] == script.subrange(n + 2, n + 7)[2]);
}

/// Setup creates one pipeline.
proof fn lemma_only_pipeline(image_count: usize, i: int)
    requires
        0 <= i < setup_script(image_count).len(),
    ensures
        setup_script(image_count)[i] is CreateGraphicsPipeline ==> i == image_count + 4,
{
    let n = image_count as int;
    let script = setup_script(image_count);
    lemma_setup_parts(image_count);
    if n + 8 <= i < 7 * n + 8 {
        let k = (i - n - 8) / 6;
        let part = (i - n - 8) % 6;
        let buffers = buffers_script(n, image_count as nat);
        lemma_buffers_stand(n, image_count as nat, k);
        assert(script[i] == buffers[i - n - 8]);
        assert(buffers[i - n - 8] == buffers.subrange(6 * k, 6 * k + 6)[part]);
    } else if n + 2 <= i < n + 7 {
        assert(script[i] == script.subrange(n + 2, n + 7)[i - n - 2]);
    }
}

/// Setup creates a sampler that clamps at the edges and filters linearly.
pub proof fn law_setup_creates_a_sampler(image_count: usize)
    ensures
        setup_script(image_count)[image_count + 7] matches Command::CreateSampler { config } && {
            &&& config.address_mode_u is ClampToEdge
            &&& config.address_mode_v is ClampToEdge
            &&& config.address_mode_w is ClampToEdge
            &&& !config.anisotropy
            &&& config.min_filter is Linear
            &&& config.mag_filter is Linear
            &&& config.mipmap_mode is Linear
        },
{
    lemma_setup_parts(image_count);
}

/// For each swapchain image, setup creates a vertex buffer of four megabytes and
/// an index buffer of two, and binds to each its own memory, which the host can
/// write.
#[verifier::spinoff_prover]
#[verifier::rlimit(60)]
pub proof fn law_setup_creates_buffers(image_count: usize, i: int)
    requires
        0 <= i < image_count,
        5 * image_count + 7 <= usize::MAX,
    ensures
        ({
            let n = image_count as int;
            let script = setup_script(image_count);
            let at = n + 8 + 6 * i;
            let first = n + 6 + 4 * i;
            &&& script[at] matches Command::CreateBuffer { size: vertex_size, usage: vertex_usage }
            &&& script[at + 1] matches Command::AllocateForBuffer {
                buffer: vertices,
                location: vertex_location,
                linear: vertex_linear,
            }
            &&& script[at + 2] matches Command::BindBufferMemory {
                buffer: bound_vertices,
                allocation: vertex_memory,
            }
            &&& script[at + 3] matches Command::CreateBuffer {
                size: index_size,
                usage: index_usage,
            }
            &&& script[at + 4] matches Command::AllocateForBuffer {
                buffer: indices,
                location: index_location,
                linear: index_linear,
            }
            &&& script[at + 5] matches Command::BindBufferMemory {
                buffer: bound_indices,
                allocation: index_memory,
            }
            &&& vertex_size == 4194304 && vertex_usage is Vertex
            &&& index_size == 2097152 && index_usage is Index
            &&& vertex_location is CpuToGpu && vertex_linear
            &&& index_location is CpuToGpu && index_linear
            &&& vertices is Created && vertices->Created_0 == first
            &&& vertex_memory is Created && vertex_memory->Created_0 == first + 1
            &&& indices is Created && indices->Created_0 == first + 2
            &&& index_memory is Created && index_memory->Created_0 == first + 3
            &&& bound_vertices == vertices && bound_indices == indices
        }),
{
    let n = image_count as int;
    let script = setup_script(image_count);
    let at = n + 8 + 6 * i;
    lemma_setup_buffers_stand(image_count, i);
    let part = script.subrange(at, at + 6);
    assert(script[at] == part[0]);
    assert(script[at + 1] == part[1]);
    assert(script[at + 2] == part[2]);
    assert(script[at + 3] == part[3]);
    assert(script[at + 4] == part[4]);
    assert(script[at + 5] == part[5]);
}

/// Which creations of setup the objects are that all swapchain images share.
#[verifier::spinoff_prover]
#[verifier::rlimit(60)]
pub proof fn law_setup_numbers_its_creations(image_count: usize)
    ensures
        ({
            let n = image_count as int;
            let script = setup_script(image_count);
            &&& script.len() == 7 * n + 9
            &&& creations(script.take(0)) == 0
            &&& creations(script.take(n + 1)) == n + 1
            &&& creations(script.take(n + 2)) == n + 2
            &&& creations(script.take(n + 3)) == n + 3
            &&& creations(script.take(n + 4)) == n + 4
            &&& creations(script.take(n + 7)) == n + 5
            &&& creations(script.take(n + 8)) == n + 6
            &&& creations(script.take(7 * n + 8)) == 5 * n + 6
        }),
{
    let n = image_count as int;
    let script = setup_script(image_count);
    lemma_setup_parts(image_count);
    let layouts = Seq::new(image_count as nat, |k: int| texture_layout_command());
    let pipeline = script.subrange(n + 2, n + 7);
    lemma_prefix_of_layouts(image_count, n);
    assert(script.take(0) =~= Seq::empty());
    assert(script.take(n + 2) =~= script.take(n + 1).push(script[n + 1]));
    lemma_creations_push(script.take(n + 1), script[n + 1]);
    lemma_pipeline_creations(
        setup_pipeline_spec(),
        Handle::Created((image_count + 1) as usize),
        n + 2,
    );
    assert(script.take(n + 3) =~= script.take(n + 2) + pipeline.take(1));
    lemma_creations_add(script.take(n + 2), pipeline.take(1));
    assert(script.take(n + 4) =~= script.take(n + 2) + pipeline.take(2));
    lemma_creations_add(script.take(n + 2), pipeline.take(2));
    assert(script.take(n + 7) =~= script.take(n + 2) + pipeline);
    lemma_creations_add(script.take(n + 2), pipeline);
    assert(script.take(n + 8) =~= script.take(n + 7).push(script[n + 7]));
    lemma_creations_push(script.take(n + 7), script[n + 7]);
    let head = script.take(n + 8);
    let buffers = buffers_script(n, image_count as nat);
    lemma_buffers_creations(n, image_count as nat);
    assert(script.take(7 * n + 8) =~= head + buffers);
    lemma_creations_add(head, buffers);
}

/// The first commands of setup create the pool and then the layouts.
proof fn lemma_prefix_of_layouts(image_count: usize, i: int)
    requires
        0 <= i <= image_count,
    ensures
        creations(setup_script(image_count).take(1 + i)) == 1 + i,
{
    let script = setup_script(image_count);
    let some = Seq::new(i as nat, |k: int| texture_layout_command());
    lemma_setup_parts(image_count);
    lemma_layout_creations(i as nat);
    lemma_creations_push(Seq::empty(), script[0]);
    assert(script.take(1 + i) =~= Seq::empty().push(script[0]) + some);
    lemma_creations_add(Seq::empty().push(script[0]), some);
}

/// Which creations of setup the layout and the buffers of a swapchain image are.
pub proof fn law_setup_numbers_the_objects_of_each_image(image_count: usize, i: int)
    requires
        0 <= i < image_count,
    ensures
        ({
            let n = image_count as int;
            let script = setup_script(image_count);
            let at = n + 8 + 6 * i;
            let first = n + 6 + 4 * i;
            &&& creations(script.take(1 + i)) == 1 + i
            &&& creations(script.take(at)) == first
            &&& creations(script.take(at + 1)) == first + 1
            &&& creations(script.take(at + 3)) == first + 2
            &&& creations(script.take(at + 4)) == first + 3
        }),
{
    let n = image_count as int;
    let script = setup_script(image_count);
    let at = n + 8 + 6 * i;
    let part = image_buffers_script(n, i);
    law_setup_numbers_its_creations(image_count);
    lemma_prefix_of_layouts(image_count, i);
    lemma_buffers_creations(n, i as nat);
    lemma_image_buffers_creations(n, i);
    lemma_setup_buffers_stand(image_count, i);
    lemma_creations_of_part(script, n + 8, buffers_script(n, i as nat));
    lemma_creations_of_start(script, at, part, 1);
    lemma_creations_of_start(script, at, part, 3);
    lemma_creations_of_start(script, at, part, 4);
    assert(part.take(0) =~= Seq::empty());
}

proof fn lemma_setup_buffers_stand(image_count: usize, i: int)
    requires
        0 <= i < image_count,
    ensures
        ({
            let n = image_count as int;
            let script = setup_script(image_count);
            let at = n + 8 + 6 * i;
            &&& at + 6 <= script.len()
            &&& buffers_script(n, i as nat).len() == 6 * i
            &&& script.subrange(n + 8, at) == buffers_script(n, i as nat)
            &&& script.subrange(at, at + 6) == image_buffers_script(n, i)
        }),
{
    let n = image_count as int;
    let at = n + 8 + 6 * i;
    let buffers = buffers_script(n, image_count as nat);
    let head = before_buffers(image_count);
    lemma_setup_parts(image_count);
    lemma_buffers_stand(n, image_count as nat, i);
    lemma_buffers_length(n, i as nat);
    let script = head + buffers + seq![texture_layout_command()];
    assert(script.subrange(n + 8, at) =~= buffers.take(6 * i));
    assert(script.subrange(at, at + 6) =~= buffers.subrange(6 * i, 6 * i + 6));
}

proof fn lemma_creations_of_part(script: Seq<Command>, at: int, part: Seq<Command>)
    requires
        0 <= at,
        at + part.len() <= script.len(),
        script.subrange(at, at + part.len()) == part,
    ensures
        creations(script.take(at + part.len())) == creations(script.take(at)) + creations(part),
{
    assert(script.take(at + part.len()) =~= script.take(at) + script.subrange(
        at,
        at + part.len(),
    ));
    lemma_creations_add(script.take(at), part);
}

proof fn lemma_creations_of_start(script: Seq<Command>, at: int, part: Seq<Command>, k: int)
    requires
        0 <= at,
        0 <= k <= part.len(),
        at + part.len() <= script.len(),
        script.subrange(at, at + part.len()) == part,
    ensures
        creations(script.take(at + k)) == creations(script.take(at)) + creations(part.take(k)),
{
    assert(script.subrange(at, at + k) =~= script.subrange(at, at + part.len()).take(k));
    lemma_creations_of_part(script, at, part.take(k));
}

/// A new renderer keeps what it was given, knows no texture, and keeps each
/// object that setup created in the place where it belongs.
pub proof fn law_new_renderer_keeps_what_setup_created(
    context: egui::Context,
    physical_width: u32,
    physical_height: u32,
    queue_family: u32,
    image_count: int,
    created: Seq<u64>,
    i: int,
)
    requires
        0 <= image_count,
        created.len() == 5 * image_count + 7,
    ensures
        ({
            let model = setup_model(
                context,
                physical_width,
                physical_height,
                queue_family,
                image_count,
                created,
            );
            &&& model.context == context
            &&& model.physical_width == physical_width
            &&& model.physical_height == physical_height
            &&& model.queue_family == queue_family
            &&& model.descriptor_pool == created[0]
            &&& model.descriptor_set_layouts.len() == image_count
            &&& 0 <= i < image_count ==> model.descriptor_set_layouts[i] == created[1 + i]
            &&& model.pipeline_layout == created[image_count + 1]
            &&& model.pipeline == created[image_count + 4]
            &&& model.sampler == created[image_count + 5]
            &&& model.vertex_buffers.len() == image_count
            &&& model.vertex_buffer_allocations.len() == image_count
            &&& model.index_buffers.len() == image_count
            &&& model.index_buffer_allocations.len() == image_count
            &&& 0 <= i < image_count ==> {
                let first = image_count + 6 + 4 * i;
                &&& model.vertex_buffers[i] == created[first]
                &&& model.vertex_buffer_allocations[i] == created[first + 1]
                &&& model.index_buffers[i] == created[first + 2]
                &&& model.index_buffer_allocations[i] == created[first + 3]
            }
            &&& model.user_texture_layout == created[5 * image_count + 6]
            &&& model.user_textures.len() == 0
            &&& model.textures.images == Map::<TextureKey, u64>::empty()
            &&& model.textures.views == Map::<TextureKey, u64>::empty()
            &&& model.textures.allocations == Map::<TextureKey, u64>::empty()
            &&& model.textures.descriptor_sets == Map::<TextureKey, u64>::empty()
        }),
{
}

} // verus!
