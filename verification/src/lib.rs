//! A safety-oriented binding layer exposing a WebGPU-style native GPU API.
//!
//! The crate lets callers enumerate graphics adapters, create logical
//! devices, allocate GPU resources (buffers, textures, pipelines) and record
//! and submit command buffers, while the underlying native implementation
//! performs the real GPU work.  Its core is the resource-lifetime and
//! handle-ownership model: every GPU object is an opaque native handle that
//! is reference-counted against the native object graph, kept alive exactly
//! as long as needed, and released exactly once.
//!
//! All native calls are routed through a procedure table held by a
//! [`registry::Registry`].  The native library keeps that table (and the
//! object graph behind it) process-global; this crate instead passes the
//! registry explicitly, so that exclusive (`&mut`) access serializes every
//! native call and a test can substitute its own mock table and observe the
//! exact sequence of calls made through it.

use vstd::prelude::*;

pub mod bundle;
pub mod command;
pub mod convert;
pub mod descriptors;
pub mod device;
pub mod enums;
pub mod flags;
pub mod handles;
pub mod indirect;
pub mod instance;
pub mod laws;
pub mod marshal;
pub mod native_desc;
pub mod native_swap_chain;
pub mod queue;
pub mod registry;
pub mod resources;
pub mod scratch;
pub mod swap_chain;
pub mod util;

pub use convert::Label;
pub use descriptors::{
    AdapterProperties, BindGroupDescriptor, BindGroupEntry, BindGroupLayoutDescriptor,
    BindGroupLayoutEntry, BindingResource, BindingType, BlendDescriptor, BufferBinding,
    BufferCopyView, BufferDescriptor, Color, ColorStateDescriptor, CommandBufferDescriptor,
    CommandEncoderDescriptor, ComputePassDescriptor, ComputePipelineDescriptor,
    DepthStencilStateDescriptor, DeviceDescriptor, DeviceProperties, Extensions, Extent3d, F32Bits,
    FenceDescriptor, InstanceDescriptor, Origin3d, PipelineLayoutDescriptor,
    ProgrammableStageDescriptor, RasterizationStateDescriptor, RenderBundleDescriptor,
    RenderBundleEncoderDescriptor, RenderPassColorAttachmentDescriptor,
    RenderPassDepthStencilAttachmentDescriptor, RenderPassDescriptor, RenderPipelineDescriptor,
    SamplerDescriptor, ShaderModuleDescriptor, StencilStateFaceDescriptor, SwapChainDescriptor,
    TextureCopyView, TextureDescriptor, TextureViewDescriptor, VertexAttributeDescriptor,
    VertexBufferLayoutDescriptor, VertexStateDescriptor,
};
pub use device::{CreateBufferMapped, ErrorCallback};
pub use enums::{
    AdapterType, AddressMode, BackendType, BlendFactor, BlendOperation, CompareFunction, CullMode,
    ErrorFilter, ErrorType, FenceCompletionStatus, FilterMode, FrontFace, IndexFormat,
    InputStepMode, LoadOp, PresentMode, PrimitiveTopology, StencilOperation, StoreOp,
    TextureAspect, TextureComponentType, TextureDimension, TextureFormat, TextureViewDimension,
    VertexFormat,
};
pub use flags::{BufferUsage, ColorWrite, ShaderStage, TextureUsage};
pub use handles::{
    Adapter, BindGroup, BindGroupLayout, Buffer, CommandBuffer, CommandEncoder,
    ComputePassEncoder, ComputePipeline, Device, Fence, Instance, PipelineLayout, Queue,
    RenderBundle, RenderBundleEncoder, RenderPassEncoder, RenderPipeline, Sampler, ShaderModule,
    Surface, Texture, TextureView,
};
pub use instance::SurfaceParams;
pub use registry::{
    AdapterInfo, BufferCopy, EncodeOp, ErrorReport, HandleKind, NativeCall, NativeObject,
    ProcTable, Registry, SharedDevice,
};
pub use swap_chain::SwapChain;

verus! {

/// A buffer size that indicates the remaining buffer.
pub const WHOLE_SIZE: u64 = 0xffff_ffff_ffff_ffff;

pub const DEFAULT_MAX_BIND_GROUPS: usize = 4;

pub const DEFAULT_MAX_DYNAMIC_UNIFORM_BUFFERS_PER_PIPELINE_LAYOUT: usize = 8;

pub const DEFAULT_MAX_DYNAMIC_STORAGE_BUFFERS_PER_PIPELINE_LAYOUT: usize = 4;

pub const DEFAULT_MAX_SAMPLED_TEXTURES_PER_SHADER_STAGE: usize = 16;

pub const DEFAULT_MAX_SAMPLERS_PER_SHADER_STAGE: usize = 16;

pub const DEFAULT_MAX_STORAGE_BUFFERS_PER_SHADER_STAGE: usize = 4;

pub const DEFAULT_MAX_STORAGE_TEXTURES_PER_SHADER_STAGE: usize = 4;

pub const DEFAULT_MAX_UNIFORM_BUFFERS_PER_SHADER_STAGE: usize = 12;

} // verus!
