//! The native descriptor representation: the plain-value image of the C
//! structs the proc-table entry points receive.  Handles appear as their raw
//! values (`0` standing for null), names as null-terminated byte buffers, and
//! nested slices in the flattened layout the native library expects.

use vstd::prelude::*;

use crate::descriptors::{
    Color, ColorStateDescriptor, DepthStencilStateDescriptor, Extent3d, F32Bits, Origin3d,
    VertexAttributeDescriptor,
};
use crate::enums::{
    AddressMode, CompareFunction, CullMode, FilterMode, FrontFace, IndexFormat, InputStepMode,
    LoadOp, PresentMode, PrimitiveTopology, StoreOp, TextureAspect, TextureComponentType,
    TextureDimension, TextureFormat, TextureViewDimension,
};

verus! {

/// The native library's flat binding enumeration.  The user-facing
/// [`crate::descriptors::BindingType`] union is flattened onto this space
/// plus the auxiliary fields of [`NativeBindGroupLayoutBinding`].
#[derive(Debug, Copy, Clone, PartialEq, Eq, Hash, Structural)]
pub enum NativeBindingType {
    UniformBuffer,
    StorageBuffer,
    ReadonlyStorageBuffer,
    Sampler,
    SampledTexture,
    StorageTexture,
    ReadonlyStorageTexture,
    WriteonlyStorageTexture,
}

#[derive(Debug, Clone, PartialEq, Eq)]
pub struct NativeDeviceDescriptor {
    pub required_extensions: Vec<Vec<u8>>,
    pub force_enabled_toggles: Vec<Vec<u8>>,
    pub force_disabled_toggles: Vec<Vec<u8>>,
}

/// The backend-specific platform parameters a native swap chain is built
/// from: a window handle for the D3D12 backend, a surface object for the
/// Vulkan backend.  Carried as plain address-sized values.
#[derive(Debug, Copy, Clone, PartialEq, Eq, Hash, Structural)]
pub enum NativeSwapChainSurfaceParams {
    D3D12 { hwnd: u64 },
    Vulkan { surface: u64 },
}

/// The backend-tagged chained struct handed to surface creation.
#[derive(Debug, Copy, Clone, PartialEq, Eq, Hash, Structural)]
pub enum NativeSurfaceChain {
    Windows { hinstance: u64, hwnd: u64 },
    Xlib { display: u64, window: u32 },
}

#[derive(Debug, Copy, Clone, PartialEq, Eq, Hash, Structural)]
pub struct NativeBindGroupLayoutBinding {
    pub binding: u32,
    pub visibility: i32,
    pub binding_type: NativeBindingType,
    pub has_dynamic_offset: bool,
    pub multisampled: bool,
    pub texture_dimension: TextureViewDimension,
    pub texture_component_type: TextureComponentType,
    pub storage_texture_format: TextureFormat,
}

#[derive(Debug, Clone, PartialEq, Eq)]
pub struct NativeBindGroupLayoutDescriptor {
    pub label: Vec<u8>,
    pub bindings: Vec<NativeBindGroupLayoutBinding>,
}

#[derive(Debug, Copy, Clone, PartialEq, Eq, Hash, Structural)]
pub struct NativeBindGroupBinding {
    pub binding: u32,
    pub buffer: usize,
    pub offset: u64,
    pub size: u64,
    pub sampler: usize,
    pub texture_view: usize,
}

#[derive(Debug, Clone, PartialEq, Eq)]
pub struct NativeBindGroupDescriptor {
    pub label: Vec<u8>,
    pub layout: usize,
    pub bindings: Vec<NativeBindGroupBinding>,
}

#[derive(Debug, Clone, PartialEq, Eq)]
pub struct NativePipelineLayoutDescriptor {
    pub label: Vec<u8>,
    pub bind_group_layouts: Vec<usize>,
}

#[derive(Debug, Clone, PartialEq, Eq)]
pub struct NativeProgrammableStageDescriptor {
    pub module: usize,
    pub entry_point: Vec<u8>,
}

#[derive(Debug, Clone, PartialEq, Eq)]
pub struct NativeComputePipelineDescriptor {
    pub label: Vec<u8>,
    pub layout: usize,
    pub compute_stage: NativeProgrammableStageDescriptor,
}

#[derive(Debug, Copy, Clone, PartialEq, Eq, Hash, Structural)]
pub struct NativeRasterizationStateDescriptor {
    pub front_face: FrontFace,
    pub cull_mode: CullMode,
    pub depth_bias: i32,
    pub depth_bias_slope_scale: F32Bits,
    pub depth_bias_clamp: F32Bits,
}

/// One vertex-buffer slot after flattening: its attributes live in the
/// shared attribute vector of [`NativeVertexStateDescriptor`], starting at
/// `attributes_offset`.
#[derive(Debug, Copy, Clone, PartialEq, Eq, Hash, Structural)]
pub struct NativeVertexBufferLayout {
    pub array_stride: u64,
    pub step_mode: InputStepMode,
    pub attribute_count: u32,
    pub attributes_offset: usize,
}

#[derive(Debug, Clone, PartialEq, Eq)]
pub struct NativeVertexStateDescriptor {
    pub index_format: IndexFormat,
    pub vertex_buffers: Vec<NativeVertexBufferLayout>,
    /// All attributes of all vertex buffers, flattened into one contiguous
    /// allocation in slot order.
    pub vertex_attributes: Vec<VertexAttributeDescriptor>,
}

#[derive(Debug, Clone, PartialEq, Eq)]
pub struct NativeRenderPipelineDescriptor {
    pub label: Vec<u8>,
    pub layout: usize,
    pub vertex_stage: NativeProgrammableStageDescriptor,
    pub fragment_stage: Option<NativeProgrammableStageDescriptor>,
    pub vertex_state: NativeVertexStateDescriptor,
    pub primitive_topology: PrimitiveTopology,
    pub rasterization_state: Option<NativeRasterizationStateDescriptor>,
    pub sample_count: u32,
    pub depth_stencil_state: Option<DepthStencilStateDescriptor>,
    pub color_states: Vec<ColorStateDescriptor>,
    pub sample_mask: u32,
    pub alpha_to_coverage_enabled: bool,
}

#[derive(Debug, Clone, PartialEq, Eq)]
pub struct NativeTextureDescriptor {
    pub label: Vec<u8>,
    pub usage: i32,
    pub dimension: TextureDimension,
    pub size: Extent3d,
    pub array_layer_count: u32,
    pub format: TextureFormat,
    pub mip_level_count: u32,
    pub sample_count: u32,
}

#[derive(Debug, Clone, PartialEq, Eq)]
pub struct NativeSamplerDescriptor {
    pub label: Vec<u8>,
    pub address_mode_u: AddressMode,
    pub address_mode_v: AddressMode,
    pub address_mode_w: AddressMode,
    pub mag_filter: FilterMode,
    pub min_filter: FilterMode,
    pub mipmap_filter: FilterMode,
    pub lod_min_clamp: F32Bits,
    pub lod_max_clamp: F32Bits,
    pub compare: CompareFunction,
}

#[derive(Debug, Clone, PartialEq, Eq)]
pub struct NativeTextureViewDescriptor {
    pub label: Vec<u8>,
    pub format: TextureFormat,
    pub dimension: TextureViewDimension,
    pub base_mip_level: u32,
    pub mip_level_count: u32,
    pub base_array_layer: u32,
    pub array_layer_count: u32,
    pub aspect: TextureAspect,
}

#[derive(Debug, Clone, PartialEq, Eq)]
pub struct NativeSwapChainDescriptor {
    pub label: Vec<u8>,
    pub usage: i32,
    pub format: TextureFormat,
    pub width: u32,
    pub height: u32,
    pub present_mode: PresentMode,
    pub implementation: u64,
}

#[derive(Debug, Copy, Clone, PartialEq, Eq, Hash, Structural)]
pub struct NativeRenderPassColorAttachment {
    pub attachment: usize,
    pub resolve_target: usize,
    pub load_op: LoadOp,
    pub store_op: StoreOp,
    pub clear_color: Color,
}

#[derive(Debug, Copy, Clone, PartialEq, Eq, Hash, Structural)]
pub struct NativeRenderPassDepthStencilAttachment {
    pub attachment: usize,
    pub depth_load_op: LoadOp,
    pub depth_store_op: StoreOp,
    pub clear_depth: F32Bits,
    pub stencil_load_op: LoadOp,
    pub stencil_store_op: StoreOp,
    pub clear_stencil: u32,
}

#[derive(Debug, Clone, PartialEq, Eq)]
pub struct NativeRenderPassDescriptor {
    pub label: Vec<u8>,
    pub color_attachments: Vec<NativeRenderPassColorAttachment>,
    pub depth_stencil_attachment: Option<NativeRenderPassDepthStencilAttachment>,
}

#[derive(Debug, Copy, Clone, PartialEq, Eq, Hash, Structural)]
pub struct NativeBufferCopyView {
    pub buffer: usize,
    pub offset: u64,
    pub row_pitch: u32,
    pub image_height: u32,
}

#[derive(Debug, Copy, Clone, PartialEq, Eq, Hash, Structural)]
pub struct NativeTextureCopyView {
    pub texture: usize,
    pub mip_level: u32,
    pub array_layer: u32,
    pub origin: Origin3d,
}

} // verus!
