//! Bit-flag types of the user-facing API.  Each is a transparent wrapper
//! around the native `i32` mask; the named constructors build the individual
//! flags and `union` combines them.

use vstd::prelude::*;

verus! {

/// <https://gpuweb.github.io/gpuweb/#typedefdef-gpubufferusage>
#[derive(Debug, Copy, Clone, PartialEq, Eq, Hash, Structural)]
pub struct BufferUsage {
    pub bits: i32,
}

impl BufferUsage {
    /// `other` is a subset of the flags set in `self`.
    pub open spec fn spec_contains(self, other: BufferUsage) -> bool {
        self.bits & other.bits == other.bits
    }

    pub fn empty() -> (r: BufferUsage)
        ensures
            r.bits == 0,
    {
        BufferUsage { bits: 0 }
    }

    pub fn map_read() -> (r: BufferUsage)
        ensures
            r.bits == 1,
    {
        BufferUsage { bits: 1 }
    }

    pub fn map_write() -> (r: BufferUsage)
        ensures
            r.bits == 2,
    {
        BufferUsage { bits: 2 }
    }

    pub fn copy_src() -> (r: BufferUsage)
        ensures
            r.bits == 4,
    {
        BufferUsage { bits: 4 }
    }

    pub fn copy_dst() -> (r: BufferUsage)
        ensures
            r.bits == 8,
    {
        BufferUsage { bits: 8 }
    }

    pub fn index() -> (r: BufferUsage)
        ensures
            r.bits == 16,
    {
        BufferUsage { bits: 16 }
    }

    pub fn vertex() -> (r: BufferUsage)
        ensures
            r.bits == 32,
    {
        BufferUsage { bits: 32 }
    }

    pub fn uniform() -> (r: BufferUsage)
        ensures
            r.bits == 64,
    {
        BufferUsage { bits: 64 }
    }

    pub fn storage() -> (r: BufferUsage)
        ensures
            r.bits == 128,
    {
        BufferUsage { bits: 128 }
    }

    pub fn indirect() -> (r: BufferUsage)
        ensures
            r.bits == 256,
    {
        BufferUsage { bits: 256 }
    }

    pub fn from_bits(bits: i32) -> (r: BufferUsage)
        ensures
            r.bits == bits,
    {
        BufferUsage { bits }
    }

    pub fn union(self, other: BufferUsage) -> (r: BufferUsage)
        ensures
            r.bits == self.bits | other.bits,
    {
        BufferUsage { bits: self.bits | other.bits }
    }

    pub fn contains(self, other: BufferUsage) -> (r: bool)
        ensures
            r == self.spec_contains(other),
    {
        self.bits & other.bits == other.bits
    }
}

/// <https://gpuweb.github.io/gpuweb/#typedefdef-gpucolorwriteflags>
#[derive(Debug, Copy, Clone, PartialEq, Eq, Hash, Structural)]
pub struct ColorWrite {
    pub bits: i32,
}

impl ColorWrite {
    /// `other` is a subset of the flags set in `self`.
    pub open spec fn spec_contains(self, other: ColorWrite) -> bool {
        self.bits & other.bits == other.bits
    }

    pub fn empty() -> (r: ColorWrite)
        ensures
            r.bits == 0,
    {
        ColorWrite { bits: 0 }
    }

    pub fn red() -> (r: ColorWrite)
        ensures
            r.bits == 1,
    {
        ColorWrite { bits: 1 }
    }

    pub fn green() -> (r: ColorWrite)
        ensures
            r.bits == 2,
    {
        ColorWrite { bits: 2 }
    }

    pub fn blue() -> (r: ColorWrite)
        ensures
            r.bits == 4,
    {
        ColorWrite { bits: 4 }
    }

    pub fn alpha() -> (r: ColorWrite)
        ensures
            r.bits == 8,
    {
        ColorWrite { bits: 8 }
    }

    pub fn all() -> (r: ColorWrite)
        ensures
            r.bits == 15,
    {
        ColorWrite { bits: 15 }
    }

    pub fn from_bits(bits: i32) -> (r: ColorWrite)
        ensures
            r.bits == bits,
    {
        ColorWrite { bits }
    }

    pub fn union(self, other: ColorWrite) -> (r: ColorWrite)
        ensures
            r.bits == self.bits | other.bits,
    {
        ColorWrite { bits: self.bits | other.bits }
    }

    pub fn contains(self, other: ColorWrite) -> (r: bool)
        ensures
            r == self.spec_contains(other),
    {
        self.bits & other.bits == other.bits
    }
}

/// <https://gpuweb.github.io/gpuweb/#typedefdef-gpushaderstage>
#[derive(Debug, Copy, Clone, PartialEq, Eq, Hash, Structural)]
pub struct ShaderStage {
    pub bits: i32,
}

impl ShaderStage {
    /// `other` is a subset of the flags set in `self`.
    pub open spec fn spec_contains(self, other: ShaderStage) -> bool {
        self.bits & other.bits == other.bits
    }

    pub fn empty() -> (r: ShaderStage)
        ensures
            r.bits == 0,
    {
        ShaderStage { bits: 0 }
    }

    pub fn vertex() -> (r: ShaderStage)
        ensures
            r.bits == 1,
    {
        ShaderStage { bits: 1 }
    }

    pub fn fragment() -> (r: ShaderStage)
        ensures
            r.bits == 2,
    {
        ShaderStage { bits: 2 }
    }

    pub fn compute() -> (r: ShaderStage)
        ensures
            r.bits == 4,
    {
        ShaderStage { bits: 4 }
    }

    pub fn from_bits(bits: i32) -> (r: ShaderStage)
        ensures
            r.bits == bits,
    {
        ShaderStage { bits }
    }

    pub fn union(self, other: ShaderStage) -> (r: ShaderStage)
        ensures
            r.bits == self.bits | other.bits,
    {
        ShaderStage { bits: self.bits | other.bits }
    }

    pub fn contains(self, other: ShaderStage) -> (r: bool)
        ensures
            r == self.spec_contains(other),
    {
        self.bits & other.bits == other.bits
    }
}

/// <https://gpuweb.github.io/gpuweb/#typedefdef-gputextureusage>
#[derive(Debug, Copy, Clone, PartialEq, Eq, Hash, Structural)]
pub struct TextureUsage {
    pub bits: i32,
}

impl TextureUsage {
    /// `other` is a subset of the flags set in `self`.
    pub open spec fn spec_contains(self, other: TextureUsage) -> bool {
        self.bits & other.bits == other.bits
    }

    pub fn empty() -> (r: TextureUsage)
        ensures
            r.bits == 0,
    {
        TextureUsage { bits: 0 }
    }

    pub fn copy_src() -> (r: TextureUsage)
        ensures
            r.bits == 1,
    {
        TextureUsage { bits: 1 }
    }

    pub fn copy_dst() -> (r: TextureUsage)
        ensures
            r.bits == 2,
    {
        TextureUsage { bits: 2 }
    }

    pub fn sampled() -> (r: TextureUsage)
        ensures
            r.bits == 4,
    {
        TextureUsage { bits: 4 }
    }

    pub fn storage() -> (r: TextureUsage)
        ensures
            r.bits == 8,
    {
        TextureUsage { bits: 8 }
    }

    pub fn output_attachment() -> (r: TextureUsage)
        ensures
            r.bits == 16,
    {
        TextureUsage { bits: 16 }
    }

    pub fn present() -> (r: TextureUsage)
        ensures
            r.bits == 32,
    {
        TextureUsage { bits: 32 }
    }

    pub fn from_bits(bits: i32) -> (r: TextureUsage)
        ensures
            r.bits == bits,
    {
        TextureUsage { bits }
    }

    pub fn union(self, other: TextureUsage) -> (r: TextureUsage)
        ensures
            r.bits == self.bits | other.bits,
    {
        TextureUsage { bits: self.bits | other.bits }
    }

    pub fn contains(self, other: TextureUsage) -> (r: bool)
        ensures
            r == self.spec_contains(other),
    {
        self.bits & other.bits == other.bits
    }
}

} // verus!
