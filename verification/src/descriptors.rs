//! The user-facing descriptor structs: the language-agnostic configuration a
//! caller hands to a builder, before it is marshaled into the native
//! library's descriptor representation.

use vstd::prelude::*;

use crate::enums::{
    AdapterType, AddressMode, BackendType, BlendFactor, BlendOperation, CompareFunction, CullMode,
    FilterMode, FrontFace, IndexFormat, InputStepMode, LoadOp, PresentMode, PrimitiveTopology,
    StencilOperation, StoreOp, TextureAspect, TextureComponentType, TextureDimension,
    TextureFormat, TextureViewDimension, VertexFormat,
};
use crate::flags::{BufferUsage, ColorWrite, ShaderStage, TextureUsage};
use crate::handles::{
    BindGroupLayout, Buffer, PipelineLayout, Sampler, ShaderModule, Texture, TextureView,
};

verus! {

/// An IEEE 754 single-precision value carried as its raw bit pattern.  This
/// layer never computes with such values: it only moves them between the
/// caller and the native descriptor structs, so the bits are all it needs.
#[derive(Debug, Copy, Clone, PartialEq, Eq, Hash, Structural)]
pub struct F32Bits {
    pub bits: u32,
}

/// What one physical adapter reports about itself.
#[derive(Debug, Clone, PartialEq, Eq, Hash)]
pub struct AdapterProperties {
    pub name: String,
    pub adapter_type: AdapterType,
    pub backend_type: BackendType,
    pub vendor_id: u32,
    pub device_id: u32,
}

#[derive(Debug, Clone, Default)]
pub struct DeviceDescriptor<'a> {
    pub required_extensions: Option<&'a [&'a str]>,
    pub force_enabled_toggles: Option<&'a [&'a str]>,
    pub force_disabled_toggles: Option<&'a [&'a str]>,
}

/// <https://gpuweb.github.io/gpuweb/#dictdef-gpubufferbinding>
#[derive(Debug, Clone)]
pub struct BufferBinding<'a> {
    pub buffer: &'a Buffer,
    pub offset: u64,
    pub size: u64,
}

/// <https://gpuweb.github.io/gpuweb/#typedefdef-gpubindingresource>
#[derive(Debug, Clone)]
pub enum BindingResource<'a> {
    Sampler(&'a Sampler),
    TextureView(&'a TextureView),
    BufferBinding(BufferBinding<'a>),
}

/// <https://gpuweb.github.io/gpuweb/#dictdef-gpubindgroupentry>
#[derive(Debug, Clone)]
pub struct BindGroupEntry<'a> {
    pub binding: u32,
    pub resource: BindingResource<'a>,
}

/// How a resource is exposed to shaders.  This tagged union is flattened
/// into the native library's narrower binding enumeration plus auxiliary
/// flags when a bind group layout is marshaled.
#[derive(Debug, Copy, Clone, PartialEq, Eq, Hash, Structural)]
pub enum BindingType {
    UniformBuffer { dynamic: bool },
    StorageBuffer { dynamic: bool, readonly: bool },
    Sampler { comparison: bool },
    SampledTexture {
        dimension: TextureViewDimension,
        component_type: TextureComponentType,
        multisampled: bool,
    },
    StorageTexture {
        dimension: TextureViewDimension,
        component_type: TextureComponentType,
        format: TextureFormat,
        readonly: bool,
        writeonly: bool,
    },
}

/// <https://gpuweb.github.io/gpuweb/#dictdef-gpubindgrouplayoutentry>
#[derive(Debug, Copy, Clone, PartialEq, Eq, Hash, Structural)]
pub struct BindGroupLayoutEntry {
    pub binding: u32,
    pub visibility: ShaderStage,
    pub ty: BindingType,
}

#[derive(Debug, Copy, Clone, PartialEq, Eq, Hash, Structural)]
pub struct BlendDescriptor {
    pub operation: BlendOperation,
    pub src_factor: BlendFactor,
    pub dst_factor: BlendFactor,
}

#[derive(Debug, Copy, Clone)]
pub struct BufferCopyView<'a> {
    pub buffer: &'a Buffer,
    pub offset: u64,
    pub bytes_per_row: u32,
    pub rows_per_image: u32,
}

#[derive(Debug, Copy, Clone)]
pub struct BufferDescriptor<'a> {
    pub label: Option<&'a str>,
    pub usage: BufferUsage,
    pub size: u64,
}

#[derive(Debug, Copy, Clone, PartialEq, Eq, Hash, Structural)]
pub struct Color {
    pub r: F32Bits,
    pub g: F32Bits,
    pub b: F32Bits,
    pub a: F32Bits,
}

#[derive(Debug, Copy, Clone, Default)]
pub struct CommandBufferDescriptor<'a> {
    pub label: Option<&'a str>,
}

#[derive(Debug, Copy, Clone, Default)]
pub struct CommandEncoderDescriptor<'a> {
    pub label: Option<&'a str>,
}

#[derive(Debug, Copy, Clone)]
pub struct ComputePassDescriptor<'a> {
    pub label: Option<&'a str>,
}

/// Optional feature capabilities of a device.
#[derive(Debug, Copy, Clone, PartialEq, Eq, Hash, Structural)]
pub struct DeviceProperties {
    pub texture_compression_bc: bool,
}

pub type Extensions = DeviceProperties;

#[derive(Debug, Copy, Clone, PartialEq, Eq, Hash, Structural)]
pub struct Extent3d {
    pub width: u32,
    pub height: u32,
    pub depth: u32,
}

#[derive(Debug, Copy, Clone)]
pub struct FenceDescriptor<'a> {
    pub initial_value: u64,
    pub label: Option<&'a str>,
}

#[derive(Debug, Copy, Clone)]
pub struct InstanceDescriptor {}

#[derive(Debug, Copy, Clone, PartialEq, Eq, Hash, Structural)]
pub struct Origin3d {
    pub x: u32,
    pub y: u32,
    pub z: u32,
}

#[derive(Debug, Copy, Clone)]
pub struct PipelineLayoutDescriptor<'a> {
    pub label: Option<&'a str>,
    pub bind_group_layouts: &'a [BindGroupLayout],
}

#[derive(Debug, Copy, Clone)]
pub struct ProgrammableStageDescriptor<'a> {
    pub module: &'a ShaderModule,
    pub entry_point: &'a str,
}

#[derive(Debug, Copy, Clone)]
pub struct RasterizationStateDescriptor {
    pub front_face: FrontFace,
    pub cull_mode: CullMode,
    pub depth_bias: i32,
    pub depth_bias_slope_scale: F32Bits,
    pub depth_bias_clamp: F32Bits,
}

#[derive(Debug, Copy, Clone)]
pub struct RenderBundleDescriptor<'a> {
    pub label: Option<&'a str>,
}

#[derive(Debug, Copy, Clone)]
pub struct RenderBundleEncoderDescriptor<'a> {
    pub label: Option<&'a str>,
    pub color_formats: &'a [TextureFormat],
    pub depth_stencil_format: TextureFormat,
    pub sample_count: u32,
}

#[derive(Debug, Copy, Clone)]
pub struct RenderPassDepthStencilAttachmentDescriptor<'a> {
    pub attachment: &'a TextureView,
    pub depth_load_op: LoadOp,
    pub depth_store_op: StoreOp,
    pub clear_depth: F32Bits,
    pub stencil_load_op: LoadOp,
    pub stencil_store_op: StoreOp,
    pub clear_stencil: u32,
}

#[derive(Debug, Copy, Clone)]
pub struct SamplerDescriptor<'a> {
    pub label: Option<&'a str>,
    pub address_mode_u: AddressMode,
    pub address_mode_v: AddressMode,
    pub address_mode_w: AddressMode,
    pub mag_filter: FilterMode,
    pub min_filter: FilterMode,
    pub mipmap_filter: FilterMode,
    pub lod_min_clamp: F32Bits,
    pub lod_max_clamp: F32Bits,
    pub compare: CompareFunction,
}

#[derive(Debug, Copy, Clone)]
pub struct ShaderModuleDescriptor<'a> {
    pub label: Option<&'a str>,
    pub code: &'a [u32],
}

#[derive(Debug, Copy, Clone, PartialEq, Eq, Hash, Structural)]
pub struct StencilStateFaceDescriptor {
    pub compare: CompareFunction,
    pub fail_op: StencilOperation,
    pub depth_fail_op: StencilOperation,
    pub pass_op: StencilOperation,
}

#[derive(Debug, Copy, Clone)]
pub struct SwapChainDescriptor<'a> {
    pub label: Option<&'a str>,
    pub usage: TextureUsage,
    pub format: TextureFormat,
    pub width: u32,
    pub height: u32,
    pub present_mode: PresentMode,
    pub implementation: u64,
}

#[derive(Debug, Copy, Clone)]
pub struct TextureViewDescriptor<'a> {
    pub label: Option<&'a str>,
    pub format: TextureFormat,
    pub dimension: TextureViewDimension,
    pub base_mip_level: u32,
    pub mip_level_count: u32,
    pub base_array_layer: u32,
    pub array_layer_count: u32,
    pub aspect: TextureAspect,
}

#[derive(Debug, Copy, Clone, PartialEq, Eq, Hash, Structural)]
pub struct VertexAttributeDescriptor {
    pub format: VertexFormat,
    pub offset: u64,
    pub shader_location: u32,
}

#[derive(Debug, Copy, Clone)]
pub struct BindGroupDescriptor<'a> {
    pub label: Option<&'a str>,
    pub layout: &'a BindGroupLayout,
    pub entries: &'a [BindGroupEntry<'a>],
}

#[derive(Debug, Copy, Clone)]
pub struct BindGroupLayoutDescriptor<'a> {
    pub label: Option<&'a str>,
    pub entries: &'a [BindGroupLayoutEntry],
}

#[derive(Debug, Copy, Clone, PartialEq, Eq, Hash, Structural)]
pub struct ColorStateDescriptor {
    pub format: TextureFormat,
    pub alpha_blend: BlendDescriptor,
    pub color_blend: BlendDescriptor,
    pub write_mask: ColorWrite,
}

#[derive(Debug, Copy, Clone)]
pub struct ComputePipelineDescriptor<'a> {
    pub label: Option<&'a str>,
    pub layout: &'a PipelineLayout,
    pub compute_stage: ProgrammableStageDescriptor<'a>,
}

#[derive(Debug, Copy, Clone, PartialEq, Eq, Hash, Structural)]
pub struct DepthStencilStateDescriptor {
    pub format: TextureFormat,
    pub depth_write_enabled: bool,
    pub depth_compare: CompareFunction,
    pub stencil_front: StencilStateFaceDescriptor,
    pub stencil_back: StencilStateFaceDescriptor,
    pub stencil_read_mask: u32,
    pub stencil_write_mask: u32,
}

#[derive(Debug, Copy, Clone)]
pub struct RenderPassColorAttachmentDescriptor<'a> {
    pub attachment: &'a TextureView,
    pub resolve_target: Option<&'a TextureView>,
    pub load_op: LoadOp,
    pub store_op: StoreOp,
    pub clear_color: Color,
}

#[derive(Debug, Copy, Clone)]
pub struct TextureCopyView<'a> {
    pub texture: &'a Texture,
    pub mip_level: u32,
    pub array_layer: u32,
    pub origin: Origin3d,
}

#[derive(Debug, Copy, Clone)]
pub struct TextureDescriptor<'a> {
    pub label: Option<&'a str>,
    pub usage: TextureUsage,
    pub dimension: TextureDimension,
    pub size: Extent3d,
    pub array_layer_count: u32,
    pub format: TextureFormat,
    pub mip_level_count: u32,
    pub sample_count: u32,
}

#[derive(Debug, Copy, Clone)]
pub struct VertexBufferLayoutDescriptor<'a> {
    pub array_stride: u64,
    pub step_mode: InputStepMode,
    pub attributes: &'a [VertexAttributeDescriptor],
}

#[derive(Debug, Copy, Clone)]
pub struct RenderPassDescriptor<'a> {
    pub label: Option<&'a str>,
    pub color_attachments: &'a [RenderPassColorAttachmentDescriptor<'a>],
    pub depth_stencil_attachment: Option<&'a RenderPassDepthStencilAttachmentDescriptor<'a>>,
}

#[derive(Debug, Copy, Clone)]
pub struct VertexStateDescriptor<'a> {
    pub index_format: IndexFormat,
    pub vertex_buffers: &'a [VertexBufferLayoutDescriptor<'a>],
}

#[derive(Debug, Copy, Clone)]
pub struct RenderPipelineDescriptor<'a> {
    pub label: Option<&'a str>,
    pub layout: &'a PipelineLayout,
    pub vertex_stage: ProgrammableStageDescriptor<'a>,
    pub fragment_stage: Option<ProgrammableStageDescriptor<'a>>,
    pub vertex_state: &'a VertexStateDescriptor<'a>,
    pub primitive_topology: PrimitiveTopology,
    pub rasterization_state: Option<&'a RasterizationStateDescriptor>,
    pub sample_count: u32,
    pub depth_stencil_state: Option<&'a DepthStencilStateDescriptor>,
    pub color_states: &'a [ColorStateDescriptor],
    pub sample_mask: u32,
    pub alpha_to_coverage_enabled: bool,
}

} // verus!
