//! The plain enumerations of the user-facing API, mirroring the native
//! library's enumeration spaces one for one.

use vstd::prelude::*;

verus! {

#[derive(Debug, Copy, Clone, PartialEq, Eq, Hash, Structural)]
pub enum AdapterType {
    DiscreteGPU,
    IntegratedGPU,
    CPU,
    Unknown,
}

#[derive(Debug, Copy, Clone, PartialEq, Eq, Hash, Structural)]
pub enum AddressMode {
    ClampToEdge,
    Repeat,
    MirrorRepeat,
}

#[derive(Debug, Copy, Clone, PartialEq, Eq, Hash, Structural)]
pub enum BackendType {
    Vulkan,
    Metal,
    D3D12,
    D3D11,
    OpenGL,
    OpenGLES,
    Null,
}

#[derive(Debug, Copy, Clone, PartialEq, Eq, Hash, Structural)]
pub enum BlendFactor {
    Zero,
    One,
    SrcColor,
    OneMinusSrcColor,
    SrcAlpha,
    OneMinusSrcAlpha,
    DstColor,
    OneMinusDstColor,
    DstAlpha,
    OneMinusDstAlpha,
    SrcAlphaSaturated,
    BlendColor,
    OneMinusBlendColor,
}

#[derive(Debug, Copy, Clone, PartialEq, Eq, Hash, Structural)]
pub enum BlendOperation {
    Add,
    Subtract,
    ReverseSubtract,
    Min,
    Max,
}

#[derive(Debug, Copy, Clone, PartialEq, Eq, Hash, Structural)]
pub enum CompareFunction {
    Never,
    Less,
    LessEqual,
    Greater,
    GreaterEqual,
    Equal,
    NotEqual,
    Always,
}

#[derive(Debug, Copy, Clone, PartialEq, Eq, Hash, Structural)]
pub enum CullMode {
    NoCulling,
    Front,
    Back,
}

#[derive(Debug, Copy, Clone, PartialEq, Eq, Hash, Structural)]
pub enum ErrorFilter {
    NoFilter,
    Validation,
    OutOfMemory,
}

#[derive(Debug, Copy, Clone, PartialEq, Eq, Hash, Structural)]
pub enum ErrorType {
    NoError,
    Validation,
    OutOfMemory,
    Unknown,
    DeviceLost,
}

#[derive(Debug, Copy, Clone, PartialEq, Eq, Hash, Structural)]
pub enum FenceCompletionStatus {
    Success,
    Error,
    Unknown,
    DeviceLost,
}

#[derive(Debug, Copy, Clone, PartialEq, Eq, Hash, Structural)]
pub enum FilterMode {
    Nearest,
    Linear,
}

#[derive(Debug, Copy, Clone, PartialEq, Eq, Hash, Structural)]
pub enum FrontFace {
    Ccw,
    Cw,
}

#[derive(Debug, Copy, Clone, PartialEq, Eq, Hash, Structural)]
pub enum IndexFormat {
    Uint16,
    Uint32,
}

#[derive(Debug, Copy, Clone, PartialEq, Eq, Hash, Structural)]
pub enum InputStepMode {
    Vertex,
    Instance,
}

/// <https://gpuweb.github.io/gpuweb/#enumdef-gpuloadop>
#[derive(Debug, Copy, Clone, PartialEq, Eq, Hash, Structural)]
pub enum LoadOp {
    Clear,
    Load,
}

#[derive(Debug, Copy, Clone, PartialEq, Eq, Hash, Structural)]
pub enum PresentMode {
    Immediate,
    Mailbox,
    Fifo,
}

/// <https://gpuweb.github.io/gpuweb/#enumdef-gpuprimitivetopology>
#[derive(Debug, Copy, Clone, PartialEq, Eq, Hash, Structural)]
pub enum PrimitiveTopology {
    PointList,
    LineList,
    LineStrip,
    TriangleList,
    TriangleStrip,
}

/// <https://gpuweb.github.io/gpuweb/#enumdef-gpustenciloperation>
#[derive(Debug, Copy, Clone, PartialEq, Eq, Hash, Structural)]
pub enum StencilOperation {
    Keep,
    Zero,
    Replace,
    Invert,
    IncrementClamp,
    DecrementClamp,
    IncrementWrap,
    DecrementWrap,
}

/// <https://gpuweb.github.io/gpuweb/#enumdef-gpustoreop>
#[derive(Debug, Copy, Clone, PartialEq, Eq, Hash, Structural)]
pub enum StoreOp {
    Store,
    Clear,
}

/// <https://gpuweb.github.io/gpuweb/#enumdef-gputextureaspect>
#[derive(Debug, Copy, Clone, PartialEq, Eq, Hash, Structural)]
pub enum TextureAspect {
    All,
    StencilOnly,
    DepthOnly,
}

/// <https://gpuweb.github.io/gpuweb/#enumdef-gputexturecomponenttype>
#[derive(Debug, Copy, Clone, PartialEq, Eq, Hash, Structural)]
pub enum TextureComponentType {
    Float,
    Sint,
    Uint,
}

/// <https://gpuweb.github.io/gpuweb/#enumdef-gputexturedimension>
#[derive(Debug, Copy, Clone, PartialEq, Eq, Hash, Structural)]
pub enum TextureDimension {
    D1,
    D2,
    D3,
}

/// <https://gpuweb.github.io/gpuweb/#enumdef-gputextureformat>
#[derive(Debug, Copy, Clone, PartialEq, Eq, Hash, Structural)]
pub enum TextureFormat {
    Undefined,
    R8Unorm,
    R8Snorm,
    R8Uint,
    R8Sint,
    R16Uint,
    R16Sint,
    R16Float,
    RG8Unorm,
    RG8Snorm,
    RG8Uint,
    RG8Sint,
    R32Float,
    R32Uint,
    R32Sint,
    RG16Uint,
    RG16Sint,
    RG16Float,
    RGBA8Unorm,
    RGBA8UnormSrgb,
    RGBA8Snorm,
    RGBA8Uint,
    RGBA8Sint,
    BGRA8Unorm,
    BGRA8UnormSrgb,
    RGB10A2Unorm,
    RG11B10Float,
    RG32Float,
    RG32Uint,
    RG32Sint,
    RGBA16Uint,
    RGBA16Sint,
    RGBA16Float,
    RGBA32Float,
    RGBA32Uint,
    RGBA32Sint,
    Depth32Float,
    Depth24Plus,
    Depth24PlusStencil8,
    BC1RGBAUnorm,
    BC1RGBAUnormSrgb,
    BC2RGBAUnorm,
    BC2RGBAUnormSrgb,
    BC3RGBAUnorm,
    BC3RGBAUnormSrgb,
    BC4RUnorm,
    BC4RSnorm,
    BC5RGUnorm,
    BC5RGSnorm,
    BC6HRGBUfloat,
    BC6HRGBSfloat,
    BC7RGBAUnorm,
    BC7RGBAUnormSrgb,
}

/// <https://gpuweb.github.io/gpuweb/#enumdef-gputextureviewdimension>
#[derive(Debug, Copy, Clone, PartialEq, Eq, Hash, Structural)]
pub enum TextureViewDimension {
    Undefined,
    D1,
    D2,
    D2Array,
    Cube,
    CubeArray,
    D3,
}

/// <https://gpuweb.github.io/gpuweb/#enumdef-gpuvertexformat>
#[derive(Debug, Copy, Clone, PartialEq, Eq, Hash, Structural)]
pub enum VertexFormat {
    UChar2,
    UChar4,
    Char2,
    Char4,
    UChar2Norm,
    UChar4Norm,
    Char2Norm,
    Char4Norm,
    UShort2,
    UShort4,
    Short2,
    Short4,
    UShort2Norm,
    UShort4Norm,
    Short2Norm,
    Short4Norm,
    Half2,
    Half4,
    Float,
    Float2,
    Float3,
    Float4,
    UInt,
    UInt2,
    UInt3,
    UInt4,
    Int,
    Int2,
    Int3,
    Int4,
}

} // verus!
