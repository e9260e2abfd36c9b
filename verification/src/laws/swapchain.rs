//! Of following a new swapchain.
use vstd::prelude::*;

use crate::command::{Command, Handle};
use crate::integration::swapchain::{swapchain_script, NEW_PIPELINE};
use crate::script::{creations, lemma_creations_push};

verus! {

/// A new swapchain costs the pipeline its life, and another one takes its place:
/// made from a vertex and a fragment shader, in their places, on the layout that
/// is there. Both shaders are destroyed afterwards.
pub proof fn law_swapchain_replaces_the_pipeline(pipeline: u64, pipeline_layout: u64)
    ensures
        ({
            let script = swapchain_script(pipeline, pipeline_layout);
            &&& script.len() == 7
            &&& script[0] matches Command::DestroyPipeline { pipeline: old_pipeline }
            &&& script[1] is GetSwapchainImages
            &&& script[2] matches Command::CreateShaderModule { stage: first }
            &&& script[3] matches Command::CreateShaderModule { stage: second }
            &&& script[4] matches Command::CreateGraphicsPipeline {
                vertex_module,
                fragment_module,
                layout,
                ..
            }
            &&& script[5] matches Command::DestroyShaderModule { module: third }
            &&& script[6] matches Command::DestroyShaderModule { module: fourth }
            &&& old_pipeline == Handle::Known(pipeline)
            &&& first is Vertex && second is Fragment
            &&& vertex_module == Handle::Created(0)
            &&& fragment_module == Handle::Created(1)
            &&& layout == Handle::Known(pipeline_layout)
            &&& third == vertex_module && fourth == fragment_module
        }),
{
}

/// The handle that is kept is that of the new pipeline.
pub proof fn law_swapchain_keeps_the_new_pipeline(pipeline: u64, pipeline_layout: u64)
    ensures
        ({
            let script = swapchain_script(pipeline, pipeline_layout);
            &&& script[4] is CreateGraphicsPipeline
            &&& creations(script.take(2)) == 0
            &&& creations(script.take(3)) == 1
            &&& creations(script.take(4)) == NEW_PIPELINE
            &&& NEW_PIPELINE == 2
        }),
{
    let script = swapchain_script(pipeline, pipeline_layout);
    assert(script.take(0) =~= Seq::empty());
    assert(script.take(1) =~= script.take(0).push(script[0]));
    lemma_creations_push(script.take(0), script[0]);
    assert(script.take(2) =~= script.take(1).push(script[1]));
    lemma_creations_push(script.take(1), script[1]);
    assert(script.take(3) =~= script.take(2).push(script[2]));
    lemma_creations_push(script.take(2), script[2]);
    assert(script.take(4) =~= script.take(3).push(script[3]));
    lemma_creations_push(script.take(3), script[3]);
}

/// The pipeline that a new swapchain gets fills triangles of either winding,
/// blends them with premultiplied alpha over all four channels, reads position,
/// texture coordinate and colour from the vertex buffer, and tests and writes
/// depth.
pub proof fn law_swapchain_pipeline_fills_triangles(
    pipeline: u64,
    pipeline_layout: u64,
    i: int,
)
    requires
        0 <= i < swapchain_script(pipeline, pipeline_layout).len(),
    ensures
        swapchain_script(pipeline, pipeline_layout)[i] matches Command::CreateGraphicsPipeline {
            config,
            ..
        } ==> {
            &&& config.topology is TriangleList
            &&& config.raster.polygon_mode is Fill
            &&& config.raster.cull_mode is NoCulling
            &&& config.raster.front_face is CounterClockwise
            &&& !config.raster.discard
            &&& !config.raster.depth_clamp
            &&& !config.raster.depth_bias
            &&& config.blend.enabled
            &&& config.blend.src_color_factor is One
            &&& config.blend.dst_color_factor is OneMinusSrcAlpha
            &&& config.blend.write_red && config.blend.write_green
            &&& config.blend.write_blue && config.blend.write_alpha
            &&& config.viewport_count == 1 && config.dynamic_viewport
            &&& config.scissor_count == 1 && config.dynamic_scissor
            &&& config.samples == 1
            &&& !config.depth_stencil.depth_bounds_test
            &&& !config.depth_stencil.stencil_test
            &&& config.depth_stencil.stencil_fail is Keep
            &&& config.depth_stencil.stencil_pass is Keep
            &&& config.depth_stencil.stencil_comparison is Always
            &&& config.vertex_input.binding == 0 && config.vertex_input.stride == 20
            &&& config.vertex_input.position.binding == 0
            &&& config.vertex_input.position.location == 0
            &&& config.vertex_input.position.offset == 0
            &&& config.vertex_input.position.format is R32G32Sfloat
            &&& config.vertex_input.uv.binding == 0
            &&& config.vertex_input.uv.location == 1
            &&& config.vertex_input.uv.offset == 8
            &&& config.vertex_input.uv.format is R32G32Sfloat
            &&& config.vertex_input.color.binding == 0
            &&& config.vertex_input.color.location == 2
            &&& config.vertex_input.color.offset == 16
            &&& config.vertex_input.color.format is R8G8B8A8Unorm
            &&& config.depth_stencil.depth_test && config.depth_stencil.depth_write
            &&& config.depth_stencil.depth_comparison is LessOrEqual
        },
{
}

} // verus!
