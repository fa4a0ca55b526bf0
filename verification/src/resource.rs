//! Plain values that name the provider's resources and describe what is asked of it.
//!
//! Nothing here touches a graphics device. A [`Handle`] stands for a resource
//! that the capability provider keeps; the descriptors say how a resource is
//! to be made. The functions of this module fix the descriptors that the
//! lifecycle uses.

use vstd::prelude::*;

verus! {

/// Names one resource that the capability provider holds, or one native window.
///
/// The provider chooses the number when it makes the resource and finds the
/// resource again by it.
#[derive(Clone, Copy, Debug, PartialEq, Eq, Structural)]
pub struct Handle {
    pub id: u64,
}

impl Handle {
    /// The handle with the given number.
    pub fn new(id: u64) -> (handle: Handle)
        ensures
            handle.id == id,
    {
        Handle { id }
    }
}

/// Pixel format of a texture.
#[derive(Clone, Copy, Debug, PartialEq, Eq, Structural)]
pub enum TextureFormat {
    R8Unorm,
    R8Snorm,
    R8Uint,
    R8Sint,
    R16Uint,
    R16Sint,
    R16Float,
    Rg8Unorm,
    Rg8Snorm,
    Rg8Uint,
    Rg8Sint,
    R32Uint,
    R32Sint,
    R32Float,
    Rg16Uint,
    Rg16Sint,
    Rg16Float,
    Rgba8Unorm,
    Rgba8UnormSrgb,
    Rgba8Snorm,
    Rgba8Uint,
    Rgba8Sint,
    Bgra8Unorm,
    Bgra8UnormSrgb,
    Rgb10a2Unorm,
    Rg11b10Float,
    Rg32Uint,
    Rg32Sint,
    Rg32Float,
    Rgba16Uint,
    Rgba16Sint,
    Rgba16Float,
    Rgba32Uint,
    Rgba32Sint,
    Rgba32Float,
    Depth32Float,
    Depth24Plus,
    Depth24PlusStencil8,
    Bc1RgbaUnorm,
    Bc1RgbaUnormSrgb,
    Bc2RgbaUnorm,
    Bc2RgbaUnormSrgb,
    Bc3RgbaUnorm,
    Bc3RgbaUnormSrgb,
    Bc4RUnorm,
    Bc4RSnorm,
    Bc5RgUnorm,
    Bc5RgSnorm,
    Bc6hRgbUfloat,
    Bc6hRgbSfloat,
    Bc7RgbaUnorm,
    Bc7RgbaUnormSrgb,
}

/// How frames of a swap chain reach the screen.
#[derive(Clone, Copy, Debug, PartialEq, Eq, Structural)]
pub enum PresentMode {
    Immediate,
    Mailbox,
    Fifo,
}

/// What a texture may be used for.
#[derive(Clone, Copy, Debug, PartialEq, Eq, Structural)]
pub struct TextureUsage {
    pub copy_src: bool,
    pub copy_dst: bool,
    pub sampled: bool,
    pub storage: bool,
    pub output_attachment: bool,
}

/// Describes a swap chain: the ring of images that a surface presents.
#[derive(Clone, Copy, Debug, PartialEq, Eq, Structural)]
pub struct SwapChainDescriptor {
    pub usage: TextureUsage,
    pub format: TextureFormat,
    pub width: u32,
    pub height: u32,
    pub present_mode: PresentMode,
}

/// Which adapter to prefer where several fit.
#[derive(Clone, Copy, Debug, PartialEq, Eq, Structural)]
pub enum PowerPreference {
    Default,
    LowPower,
    HighPerformance,
}

/// What an adapter must satisfy.
#[derive(Clone, Copy, Debug, PartialEq, Eq, Structural)]
pub struct RequestAdapterOptions {
    pub power_preference: PowerPreference,
    /// The surface that the adapter must be able to render to.
    pub compatible_surface: Option<Handle>,
}

/// The optional features that a device is asked to support.
#[derive(Clone, Copy, Debug, PartialEq, Eq, Structural)]
pub enum Features {
    /// No optional feature.
    Empty,
}

/// The limits that a device is asked to support.
#[derive(Clone, Copy, Debug, PartialEq, Eq, Structural)]
pub enum Limits {
    /// The limits that every adapter grants.
    Default,
}

/// Describes a logical device.
#[derive(Clone, Copy, Debug, PartialEq, Eq, Structural)]
pub struct DeviceDescriptor {
    pub features: Features,
    pub limits: Limits,
    pub shader_validation: bool,
}

/// The pipeline stage that a shader module is for.
#[derive(Clone, Copy, Debug, PartialEq, Eq, Structural)]
pub enum ShaderStage {
    Vertex,
    Fragment,
}

/// Describes a pipeline layout by the number of its parts.
#[derive(Clone, Copy, Debug, PartialEq, Eq, Structural)]
pub struct PipelineLayoutDescriptor {
    pub bind_group_layouts: u32,
    pub push_constant_ranges: u32,
}

/// How vertices are assembled into primitives.
#[derive(Clone, Copy, Debug, PartialEq, Eq, Structural)]
pub enum PrimitiveTopology {
    PointList,
    LineList,
    LineStrip,
    TriangleList,
    TriangleStrip,
}

/// Width of the indices of an index buffer.
#[derive(Clone, Copy, Debug, PartialEq, Eq, Structural)]
pub enum IndexFormat {
    Uint16,
    Uint32,
}

/// Describes a render pipeline with one color target.
///
/// Both shader stages are entered at [`shader_entry_point`]. The rasterizer
/// state is the provider's default (no culling, no depth bias); the color
/// target replaces what it covers and writes every channel.
#[derive(Clone, Copy, Debug, PartialEq, Eq, Structural)]
pub struct RenderPipelineDescriptor {
    pub layout: Handle,
    pub vertex_module: Handle,
    pub fragment_module: Handle,
    pub primitive_topology: PrimitiveTopology,
    /// Format of the one color target.
    pub color_format: TextureFormat,
    /// Whether the pipeline has a depth and stencil state.
    pub depth_stencil: bool,
    pub index_format: IndexFormat,
    /// Number of vertex buffers bound.
    pub vertex_buffers: u32,
    pub sample_count: u32,
    pub sample_mask: u32,
    pub alpha_to_coverage_enabled: bool,
}

/// A color by name.
#[derive(Clone, Copy, Debug, PartialEq, Eq, Structural)]
pub enum Color {
    Transparent,
    Black,
    White,
    Red,
    Green,
    Blue,
}

/// The commands of one frame: a single render pass with a single draw call.
///
/// The pass has one color attachment and no depth or stencil attachment. The
/// attachment is cleared to `clear`, and what is drawn is stored. The draw
/// call covers the vertices `first_vertex .. end_vertex` and the instances
/// `first_instance .. end_instance`; no vertex or index buffer is bound.
#[derive(Clone, Copy, Debug, PartialEq, Eq, Structural)]
pub struct RenderPass {
    /// The frame to draw to.
    pub attachment: Handle,
    pub clear: Color,
    pub store: bool,
    pub pipeline: Handle,
    pub first_vertex: u32,
    pub end_vertex: u32,
    pub first_instance: u32,
    pub end_instance: u32,
}

/// The usage of a texture that is only rendered to.
pub open spec fn output_attachment_usage() -> TextureUsage {
    TextureUsage {
        copy_src: false,
        copy_dst: false,
        sampled: false,
        storage: false,
        output_attachment: true,
    }
}

/// The adapter that the lifecycle asks for: any that can render to `surface`.
pub open spec fn adapter_options_for(surface: Handle) -> RequestAdapterOptions {
    RequestAdapterOptions {
        power_preference: PowerPreference::Default,
        compatible_surface: Some(surface),
    }
}

/// The device that the lifecycle asks for: no optional feature, default
/// limits, shaders validated.
pub open spec fn plain_device() -> DeviceDescriptor {
    DeviceDescriptor { features: Features::Empty, limits: Limits::Default, shader_validation: true }
}

/// The pipeline layout that the lifecycle asks for: it binds nothing.
pub open spec fn empty_layout() -> PipelineLayoutDescriptor {
    PipelineLayoutDescriptor { bind_group_layouts: 0, push_constant_ranges: 0 }
}

/// The pipeline that the lifecycle asks for: a list of triangles whose
/// vertices the vertex stage generates, drawn to one target of `format`.
pub open spec fn triangle_pipeline(
    layout: Handle,
    vertex_module: Handle,
    fragment_module: Handle,
    format: TextureFormat,
) -> RenderPipelineDescriptor {
    RenderPipelineDescriptor {
        layout,
        vertex_module,
        fragment_module,
        primitive_topology: PrimitiveTopology::TriangleList,
        color_format: format,
        depth_stencil: false,
        index_format: IndexFormat::Uint16,
        vertex_buffers: 0,
        sample_count: 1,
        sample_mask: u32::MAX,
        alpha_to_coverage_enabled: false,
    }
}

/// The swap chain that the lifecycle asks for: rendered to only, of the given
/// format and size, presented by mailbox.
pub open spec fn window_swap_chain(format: TextureFormat, width: u32, height: u32) -> SwapChainDescriptor {
    SwapChainDescriptor {
        usage: output_attachment_usage(),
        format,
        width,
        height,
        present_mode: PresentMode::Mailbox,
    }
}

/// `descriptor` with its size replaced.
pub open spec fn resized(descriptor: SwapChainDescriptor, width: u32, height: u32) -> SwapChainDescriptor {
    SwapChainDescriptor { width, height, ..descriptor }
}

/// The commands of a frame: clear `frame` to green and draw one instance of
/// three vertices with `pipeline`.
pub open spec fn triangle_pass(frame: Handle, pipeline: Handle) -> RenderPass {
    RenderPass {
        attachment: frame,
        clear: Color::Green,
        store: true,
        pipeline,
        first_vertex: 0,
        end_vertex: 3,
        first_instance: 0,
        end_instance: 1,
    }
}

/// Computes [`adapter_options_for`].
pub fn adapter_options(surface: Handle) -> (options: RequestAdapterOptions)
    ensures
        options == adapter_options_for(surface),
{
    RequestAdapterOptions {
        power_preference: PowerPreference::Default,
        compatible_surface: Some(surface),
    }
}

/// Computes [`plain_device`].
pub fn device_descriptor() -> (descriptor: DeviceDescriptor)
    ensures
        descriptor == plain_device(),
{
    DeviceDescriptor { features: Features::Empty, limits: Limits::Default, shader_validation: true }
}

/// Computes [`empty_layout`].
pub fn pipeline_layout_descriptor() -> (descriptor: PipelineLayoutDescriptor)
    ensures
        descriptor == empty_layout(),
{
    PipelineLayoutDescriptor { bind_group_layouts: 0, push_constant_ranges: 0 }
}

/// Computes [`triangle_pipeline`].
pub fn render_pipeline_descriptor(
    layout: Handle,
    vertex_module: Handle,
    fragment_module: Handle,
    format: TextureFormat,
) -> (descriptor: RenderPipelineDescriptor)
    ensures
        descriptor == triangle_pipeline(layout, vertex_module, fragment_module, format),
{
    RenderPipelineDescriptor {
        layout,
        vertex_module,
        fragment_module,
        primitive_topology: PrimitiveTopology::TriangleList,
        color_format: format,
        depth_stencil: false,
        index_format: IndexFormat::Uint16,
        vertex_buffers: 0,
        sample_count: 1,
        sample_mask: u32::MAX,
        alpha_to_coverage_enabled: false,
    }
}

/// Computes [`window_swap_chain`].
pub fn swap_chain_descriptor(format: TextureFormat, width: u32, height: u32) -> (descriptor:
    SwapChainDescriptor)
    ensures
        descriptor == window_swap_chain(format, width, height),
{
    SwapChainDescriptor {
        usage: TextureUsage {
            copy_src: false,
            copy_dst: false,
            sampled: false,
            storage: false,
            output_attachment: true,
        },
        format,
        width,
        height,
        present_mode: PresentMode::Mailbox,
    }
}

/// Computes [`resized`].
pub fn with_size(descriptor: SwapChainDescriptor, width: u32, height: u32) -> (sized:
    SwapChainDescriptor)
    ensures
        sized == resized(descriptor, width, height),
{
    SwapChainDescriptor {
        usage: descriptor.usage,
        format: descriptor.format,
        width,
        height,
        present_mode: descriptor.present_mode,
    }
}

/// Computes [`triangle_pass`].
pub fn render_pass(frame: Handle, pipeline: Handle) -> (pass: RenderPass)
    ensures
        pass == triangle_pass(frame, pipeline),
{
    RenderPass {
        attachment: frame,
        clear: Color::Green,
        store: true,
        pipeline,
        first_vertex: 0,
        end_vertex: 3,
        first_instance: 0,
        end_instance: 1,
    }
}

/// The name of the function at which each shader module is entered.
pub fn shader_entry_point() -> (name: &'static str)
    ensures
        name@ == seq!['m', 'a', 'i', 'n'],
{
    proof {
        reveal_strlit("main");
    }
    "main"
}

} // verus!
