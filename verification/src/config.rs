//! The fixed choices of the renderer: buffer sizes, the vertex layout, and the
//! state of the graphics pipelines, images and samplers it asks the device for.
use vstd::prelude::*;

verus! {

/// Bytes that one vertex occupies: position and texture coordinate as two
/// 32-bit floats each, and a colour of four bytes.
pub const VERTEX_SIZE: usize = 20;

/// Bytes that one index occupies.
pub const INDEX_SIZE: usize = 4;

/// Bytes in the vertex buffer of each swapchain image.
pub const VERTEX_BUFFER_BYTES: u64 = 4194304;

/// Bytes in the index buffer of each swapchain image.
pub const INDEX_BUFFER_BYTES: u64 = 2097152;

/// Descriptor sets, and descriptors, that the pool can hand out.
pub const POOL_CAPACITY: u32 = 1024;

/// Bytes of push constants: the screen's width and height as 32-bit floats.
pub const PUSH_CONSTANT_BYTES: u32 = 8;

#[derive(Clone, Copy, Debug, PartialEq, Eq, Structural)]
pub enum ShaderStage {
    Vertex,
    Fragment,
}

#[derive(Clone, Copy, Debug, PartialEq, Eq, Structural)]
pub enum Format {
    R32G32Sfloat,
    R8G8B8A8Unorm,
}

#[derive(Clone, Copy, Debug, PartialEq, Eq, Structural)]
pub enum BufferUsage {
    Vertex,
    Index,
    TransferSource,
}

/// Where an allocation lives.
#[derive(Clone, Copy, Debug, PartialEq, Eq, Structural)]
pub enum MemoryLocation {
    /// Written by the host, read by the device.
    CpuToGpu,
    /// Only the device reads and writes it.
    GpuOnly,
}

#[derive(Clone, Copy, Debug, PartialEq, Eq, Structural)]
pub enum ImageLayout {
    Undefined,
    TransferDst,
    TransferSrc,
    ShaderReadOnly,
}

#[derive(Clone, Copy, Debug, PartialEq, Eq, Structural)]
pub enum Access {
    NoAccess,
    TransferWrite,
    TransferRead,
    ShaderRead,
}

#[derive(Clone, Copy, Debug, PartialEq, Eq, Structural)]
pub enum PipelineStage {
    Host,
    Transfer,
    VertexShader,
    FragmentShader,
}

/// What an image memory barrier orders and which layouts it moves between.
#[derive(Clone, Copy, Debug, PartialEq, Eq, Structural)]
pub struct Transition {
    pub src_access: Access,
    pub dst_access: Access,
    pub old_layout: ImageLayout,
    pub new_layout: ImageLayout,
    pub src_stage: PipelineStage,
    pub dst_stage: PipelineStage,
}

#[derive(Clone, Copy, Debug, PartialEq, Eq, Structural)]
pub struct Extent {
    pub width: u32,
    pub height: u32,
    pub depth: u32,
}

#[derive(Clone, Copy, Debug, PartialEq, Eq, Structural)]
pub struct Offset {
    pub x: i32,
    pub y: i32,
    pub z: i32,
}

/// A copy from a buffer into an image.
#[derive(Clone, Copy, Debug, PartialEq, Eq, Structural)]
pub struct CopyRegion {
    pub buffer_offset: u64,
    pub buffer_row_length: u32,
    pub buffer_image_height: u32,
    pub image_offset: Offset,
    pub image_extent: Extent,
}

/// A copy from a box of one image to a box of another.
#[derive(Clone, Copy, Debug, PartialEq, Eq, Structural)]
pub struct BlitRegion {
    pub src_from: Offset,
    pub src_to: Offset,
    pub dst_from: Offset,
    pub dst_to: Offset,
}

#[derive(Clone, Copy, Debug, PartialEq, Eq, Structural)]
pub enum Tiling {
    Optimal,
    Linear,
}

/// A two-dimensional image for one queue family.
#[derive(Clone, Copy, Debug, PartialEq, Eq, Structural)]
pub struct ImageConfig {
    pub extent: Extent,
    pub format: Format,
    pub mip_levels: u32,
    pub array_layers: u32,
    pub samples: u32,
    pub tiling: Tiling,
    pub initial_layout: ImageLayout,
    pub sampled: bool,
    pub transfer_dst: bool,
    pub transfer_src: bool,
}

#[derive(Clone, Copy, Debug, PartialEq, Eq, Structural)]
pub enum Filter {
    Nearest,
    Linear,
}

#[derive(Clone, Copy, Debug, PartialEq, Eq, Structural)]
pub enum AddressMode {
    Repeat,
    ClampToEdge,
}

#[derive(Clone, Copy, Debug, PartialEq, Eq, Structural)]
pub struct SamplerConfig {
    pub address_mode_u: AddressMode,
    pub address_mode_v: AddressMode,
    pub address_mode_w: AddressMode,
    pub anisotropy: bool,
    pub min_filter: Filter,
    pub mag_filter: Filter,
    pub mipmap_mode: Filter,
}

#[derive(Clone, Copy, Debug, PartialEq, Eq, Structural)]
pub struct VertexAttribute {
    pub binding: u32,
    pub location: u32,
    pub offset: u32,
    pub format: Format,
}

/// How the vertex shader reads the vertex buffer.
#[derive(Clone, Copy, Debug, PartialEq, Eq, Structural)]
pub struct VertexInput {
    pub binding: u32,
    pub stride: u32,
    pub position: VertexAttribute,
    pub uv: VertexAttribute,
    pub color: VertexAttribute,
}

#[derive(Clone, Copy, Debug, PartialEq, Eq, Structural)]
pub enum Topology {
    PointList,
    LineList,
    TriangleList,
}

#[derive(Clone, Copy, Debug, PartialEq, Eq, Structural)]
pub enum PolygonMode {
    Fill,
    Line,
}

#[derive(Clone, Copy, Debug, PartialEq, Eq, Structural)]
pub enum CullMode {
    NoCulling,
    Front,
    Back,
}

#[derive(Clone, Copy, Debug, PartialEq, Eq, Structural)]
pub enum FrontFace {
    Clockwise,
    CounterClockwise,
}

#[derive(Clone, Copy, Debug, PartialEq, Eq, Structural)]
pub struct RasterState {
    pub depth_clamp: bool,
    pub discard: bool,
    pub polygon_mode: PolygonMode,
    pub cull_mode: CullMode,
    pub front_face: FrontFace,
    pub depth_bias: bool,
}

#[derive(Clone, Copy, Debug, PartialEq, Eq, Structural)]
pub enum Comparison {
    Always,
    LessOrEqual,
}

#[derive(Clone, Copy, Debug, PartialEq, Eq, Structural)]
pub enum StencilAction {
    Keep,
    Zero,
}

#[derive(Clone, Copy, Debug, PartialEq, Eq, Structural)]
pub struct DepthStencilState {
    pub depth_test: bool,
    pub depth_write: bool,
    pub depth_comparison: Comparison,
    pub depth_bounds_test: bool,
    pub stencil_test: bool,
    pub stencil_fail: StencilAction,
    pub stencil_pass: StencilAction,
    pub stencil_comparison: Comparison,
}

#[derive(Clone, Copy, Debug, PartialEq, Eq, Structural)]
pub enum BlendFactor {
    Zero,
    One,
    OneMinusSrcAlpha,
}

/// Blending of the one colour attachment.
#[derive(Clone, Copy, Debug, PartialEq, Eq, Structural)]
pub struct BlendState {
    pub enabled: bool,
    pub src_color_factor: BlendFactor,
    pub dst_color_factor: BlendFactor,
    pub write_red: bool,
    pub write_green: bool,
    pub write_blue: bool,
    pub write_alpha: bool,
}

#[derive(Clone, Copy, Debug, PartialEq, Eq, Structural)]
pub struct PipelineConfig {
    pub vertex_input: VertexInput,
    pub topology: Topology,
    pub viewport_count: u32,
    pub scissor_count: u32,
    pub dynamic_viewport: bool,
    pub dynamic_scissor: bool,
    pub raster: RasterState,
    pub samples: u32,
    pub depth_stencil: DepthStencilState,
    pub blend: BlendState,
}

/// Bytes that a vertex attribute of this format occupies.
pub open spec fn format_size(format: Format) -> nat {
    match format {
        Format::R32G32Sfloat => 8,
        Format::R8G8B8A8Unorm => 4,
    }
}

/// Position, texture coordinate and colour, one after the other.
pub open spec fn vertex_input_spec() -> VertexInput {
    VertexInput {
        binding: 0,
        stride: 20,
        position: VertexAttribute {
            binding: 0,
            location: 0,
            offset: 0,
            format: Format::R32G32Sfloat,
        },
        uv: VertexAttribute { binding: 0, location: 1, offset: 8, format: Format::R32G32Sfloat },
        color: VertexAttribute {
            binding: 0,
            location: 2,
            offset: 16,
            format: Format::R8G8B8A8Unorm,
        },
    }
}

/// The pipeline with the given use of the depth buffer. Everything else is the
/// same in every pipeline: filled triangles of either winding, premultiplied
/// alpha blending, viewport and scissor set while recording.
pub open spec fn pipeline_with_depth(
    depth_test: bool,
    depth_write: bool,
    depth_comparison: Comparison,
) -> PipelineConfig {
    PipelineConfig {
        vertex_input: vertex_input_spec(),
        topology: Topology::TriangleList,
        viewport_count: 1,
        scissor_count: 1,
        dynamic_viewport: true,
        dynamic_scissor: true,
        raster: RasterState {
            depth_clamp: false,
            discard: false,
            polygon_mode: PolygonMode::Fill,
            cull_mode: CullMode::NoCulling,
            front_face: FrontFace::CounterClockwise,
            depth_bias: false,
        },
        samples: 1,
        depth_stencil: DepthStencilState {
            depth_test,
            depth_write,
            depth_comparison,
            depth_bounds_test: false,
            stencil_test: false,
            stencil_fail: StencilAction::Keep,
            stencil_pass: StencilAction::Keep,
            stencil_comparison: Comparison::Always,
        },
        blend: BlendState {
            enabled: true,
            src_color_factor: BlendFactor::One,
            dst_color_factor: BlendFactor::OneMinusSrcAlpha,
            write_red: true,
            write_green: true,
            write_blue: true,
            write_alpha: true,
        },
    }
}

/// The pipeline that setup creates: it ignores depth.
pub open spec fn setup_pipeline_spec() -> PipelineConfig {
    pipeline_with_depth(false, false, Comparison::Always)
}

/// The pipeline that a new swapchain gets: it tests and writes depth.
pub open spec fn swapchain_pipeline_spec() -> PipelineConfig {
    pipeline_with_depth(true, true, Comparison::LessOrEqual)
}

/// Clamped at the edges, filtered linearly.
pub open spec fn sampler_spec() -> SamplerConfig {
    SamplerConfig {
        address_mode_u: AddressMode::ClampToEdge,
        address_mode_v: AddressMode::ClampToEdge,
        address_mode_w: AddressMode::ClampToEdge,
        anisotropy: false,
        min_filter: Filter::Linear,
        mag_filter: Filter::Linear,
        mipmap_mode: Filter::Linear,
    }
}

/// An image that holds a texture, or a patch on its way into one.
pub open spec fn texture_image_spec(extent: Extent) -> ImageConfig {
    ImageConfig {
        extent,
        format: Format::R8G8B8A8Unorm,
        mip_levels: 1,
        array_layers: 1,
        samples: 1,
        tiling: Tiling::Optimal,
        initial_layout: ImageLayout::Undefined,
        sampled: true,
        transfer_dst: true,
        transfer_src: true,
    }
}

/// How vertices lie in the vertex buffer.
pub fn vertex_input() -> (input: VertexInput)
    ensures
        input == vertex_input_spec(),
{
    VertexInput {
        binding: 0,
        stride: 20,
        position: VertexAttribute {
            binding: 0,
            location: 0,
            offset: 0,
            format: Format::R32G32Sfloat,
        },
        uv: VertexAttribute { binding: 0, location: 1, offset: 8, format: Format::R32G32Sfloat },
        color: VertexAttribute {
            binding: 0,
            location: 2,
            offset: 16,
            format: Format::R8G8B8A8Unorm,
        },
    }
}

/// A pipeline with the given use of the depth buffer.
fn pipeline(depth_test: bool, depth_write: bool, depth_comparison: Comparison) -> (config:
    PipelineConfig)
    ensures
        config == pipeline_with_depth(depth_test, depth_write, depth_comparison),
{
    PipelineConfig {
        vertex_input: vertex_input(),
        topology: Topology::TriangleList,
        viewport_count: 1,
        scissor_count: 1,
        dynamic_viewport: true,
        dynamic_scissor: true,
        raster: RasterState {
            depth_clamp: false,
            discard: false,
            polygon_mode: PolygonMode::Fill,
            cull_mode: CullMode::NoCulling,
            front_face: FrontFace::CounterClockwise,
            depth_bias: false,
        },
        samples: 1,
        depth_stencil: DepthStencilState {
            depth_test,
            depth_write,
            depth_comparison,
            depth_bounds_test: false,
            stencil_test: false,
            stencil_fail: StencilAction::Keep,
            stencil_pass: StencilAction::Keep,
            stencil_comparison: Comparison::Always,
        },
        blend: BlendState {
            enabled: true,
            src_color_factor: BlendFactor::One,
            dst_color_factor: BlendFactor::OneMinusSrcAlpha,
            write_red: true,
            write_green: true,
            write_blue: true,
            write_alpha: true,
        },
    }
}

/// The pipeline that setup creates.
pub fn setup_pipeline() -> (config: PipelineConfig)
    ensures
        config == setup_pipeline_spec(),
{
    pipeline(false, false, Comparison::Always)
}

/// The pipeline that a new swapchain gets.
pub fn swapchain_pipeline() -> (config: PipelineConfig)
    ensures
        config == swapchain_pipeline_spec(),
{
    pipeline(true, true, Comparison::LessOrEqual)
}

/// The sampler of every managed texture.
pub fn sampler() -> (config: SamplerConfig)
    ensures
        config == sampler_spec(),
{
    SamplerConfig {
        address_mode_u: AddressMode::ClampToEdge,
        address_mode_v: AddressMode::ClampToEdge,
        address_mode_w: AddressMode::ClampToEdge,
        anisotropy: false,
        min_filter: Filter::Linear,
        mag_filter: Filter::Linear,
        mipmap_mode: Filter::Linear,
    }
}

/// The image that an upload creates.
pub fn texture_image(extent: Extent) -> (config: ImageConfig)
    ensures
        config == texture_image_spec(extent),
{
    ImageConfig {
        extent,
        format: Format::R8G8B8A8Unorm,
        mip_levels: 1,
        array_layers: 1,
        samples: 1,
        tiling: Tiling::Optimal,
        initial_layout: ImageLayout::Undefined,
        sampled: true,
        transfer_dst: true,
        transfer_src: true,
    }
}

/// Both pipelines read the vertex buffer in the same way: the attributes lie
/// one behind the other, fill a vertex exactly, and the stride is the size by
/// which vertices are written.
pub proof fn law_pipelines_read_what_is_written(config: PipelineConfig)
    requires
        config == setup_pipeline_spec() || config == swapchain_pipeline_spec(),
    ensures
        config.vertex_input.stride == VERTEX_SIZE,
        config.vertex_input.position.offset == 0,
        config.vertex_input.uv.offset == format_size(config.vertex_input.position.format),
        config.vertex_input.color.offset == config.vertex_input.uv.offset + format_size(
            config.vertex_input.uv.format,
        ),
        config.vertex_input.stride == config.vertex_input.color.offset + format_size(
            config.vertex_input.color.format,
        ),
{
}

/// A new swapchain changes nothing in the pipeline but its use of depth.
pub proof fn law_pipelines_differ_in_depth_only()
    ensures
        swapchain_pipeline_spec() == (PipelineConfig {
            depth_stencil: DepthStencilState {
                depth_test: true,
                depth_write: true,
                depth_comparison: Comparison::LessOrEqual,
                ..setup_pipeline_spec().depth_stencil
            },
            ..setup_pipeline_spec()
        }),
{
}

} // verus!
