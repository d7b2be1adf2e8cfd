//! Conversions between the user-facing types and their native representation:
//! numeric adapter/backend codes and the [`Label`] text annotation.

use vstd::prelude::*;
use vstd::string::StrSliceExecFns;
use vstd::string::StringSliceAdditionalSpecFns;

use crate::enums::{AdapterType, BackendType};

verus! {

// 30 + 1 byte for len + 1 byte for discriminant = 32 bytes for Label::Inline
pub const LABEL_MAX_INLINE_WITH_NULL_LEN: usize = 30;

/// A short textual annotation attached to native objects for debugging.
///
/// Stored either inline (a fixed small buffer, to avoid an allocation for
/// typical short names) or on a heap-allocated null-terminated buffer for
/// longer names.  The inline representation is exactly one machine word pair
/// (discriminant plus small buffer), so it is cheap to construct per call.
pub enum Label {
    Inline { len: u8, data: [u8; 30] },
    Heap(Vec<u8>),
    Empty,
}

impl Label {
    /// The null-terminated byte sequence this label hands to the native
    /// library; empty when the label stands for an absent (null) name.
    pub open spec fn c_bytes(&self) -> Seq<u8> {
        match self {
            Label::Inline { len, data } => data@.take(*len as int + 1),
            Label::Heap(v) => v@,
            Label::Empty => Seq::empty(),
        }
    }

    /// An absent label marshals as a null pointer rather than as a buffer.
    pub open spec fn is_null(&self) -> bool {
        self is Empty
    }

    pub open spec fn wf(&self) -> bool {
        match self {
            Label::Inline { len, data } => *len as int + 1 < LABEL_MAX_INLINE_WITH_NULL_LEN
                && data@[*len as int] == 0,
            Label::Heap(v) => v@.len() >= 1 && v@[v@.len() - 1] == 0,
            Label::Empty => true,
        }
    }

    /// An optional label: `None` marshals as a null name.
    pub fn from(label: Option<&str>) -> (r: Label)
        requires
            label is Some ==> label->0.spec_bytes().len() < usize::MAX,
            (label is Some && label->0.spec_bytes().len() + 1 >= LABEL_MAX_INLINE_WITH_NULL_LEN)
                ==> (forall|i: int|
                0 <= i < label->0.spec_bytes().len() ==> label->0.spec_bytes()[i] != 0),
        ensures
            match label {
                Some(s) => r.wf() && !r.is_null() && r.c_bytes() == s.spec_bytes().push(0u8) && (
                (r is Inline) <==> s.spec_bytes().len() + 1 < LABEL_MAX_INLINE_WITH_NULL_LEN),
                None => r is Empty,
            },
    {
        match label {
            Some(label) => Label::from_str(label),
            None => Label::Empty,
        }
    }

    /// Builds the null-terminated form of `label`, inline when it fits in the
    /// small buffer and on the heap otherwise.  A string sent down the heap
    /// path must hold no interior null byte (the native library would cut the
    /// name short there, so such a name is rejected by this binding layer's
    /// precondition rather than silently truncated).
    pub fn from_str(label: &str) -> (r: Label)
        requires
            label.spec_bytes().len() < usize::MAX,
            label.spec_bytes().len() + 1 >= LABEL_MAX_INLINE_WITH_NULL_LEN ==> (forall|i: int|
                0 <= i < label.spec_bytes().len() ==> label.spec_bytes()[i] != 0),
        ensures
            r.wf(),
            !r.is_null(),
            r.c_bytes() == label.spec_bytes().push(0u8),
            (r is Inline) <==> label.spec_bytes().len() + 1 < LABEL_MAX_INLINE_WITH_NULL_LEN,
    {
        let bytes = label.as_bytes();
        if label.len() < LABEL_MAX_INLINE_WITH_NULL_LEN - 1 {
            let mut data = [0u8; 30];
            let mut i: usize = 0;
            while i < bytes.len()
                invariant
                    bytes@ == label.spec_bytes(),
                    bytes@.len() + 1 < LABEL_MAX_INLINE_WITH_NULL_LEN,
                    i <= bytes@.len(),
                    data@.len() == 30,
                    forall|k: int| 0 <= k < i ==> data@[k] == bytes@[k],
                    forall|k: int| i <= k < 30 ==> data@[k] == 0,
                decreases bytes@.len() - i,
            {
                data[i] = bytes[i];
                i = i + 1;
            }
            let r = Label::Inline { data, len: bytes.len() as u8 };
            proof {
                assert(r.c_bytes() =~= label.spec_bytes().push(0u8));
            }
            r
        } else {
            let mut v = label.as_bytes_vec();
            v.push(0);
            let r = Label::Heap(v);
            proof {
                assert(r.c_bytes() =~= label.spec_bytes().push(0u8));
            }
            r
        }
    }

    /// A copy of the null-terminated bytes behind the pointer this label
    /// presents to the native library; empty for a null (absent) name.
    pub fn to_c_bytes(&self) -> (r: Vec<u8>)
        requires
            self.wf(),
        ensures
            r@ == self.c_bytes(),
    {
        match self {
            Label::Inline { len, data } => {
                let n = *len as usize;
                let mut r: Vec<u8> = Vec::new();
                let mut i: usize = 0;
                while i <= n
                    invariant
                        n < 30,
                        data@.len() == 30,
                        i <= n + 1,
                        r@ =~= data@.take(i as int),
                    decreases n + 1 - i,
                {
                    r.push(data[i]);
                    i = i + 1;
                }
                proof {
                    assert(r@ =~= self.c_bytes());
                }
                r
            },
            Label::Heap(v) => {
                let mut r: Vec<u8> = Vec::new();
                let mut i: usize = 0;
                while i < v.len()
                    invariant
                        i <= v@.len(),
                        r@ =~= v@.take(i as int),
                    decreases v@.len() - i,
                {
                    r.push(v[i]);
                    i = i + 1;
                }
                proof {
                    assert(r@ =~= self.c_bytes());
                }
                r
            },
            Label::Empty => Vec::new(),
        }
    }
}

/// Builds the native name annotation for an optional label string.
pub fn label(name: Option<&str>) -> (r: Label)
    requires
        name is Some ==> name->0.spec_bytes().len() < usize::MAX,
        (name is Some && name->0.spec_bytes().len() + 1 >= LABEL_MAX_INLINE_WITH_NULL_LEN) ==> (
        forall|i: int| 0 <= i < name->0.spec_bytes().len() ==> name->0.spec_bytes()[i] != 0),
    ensures
        match name {
            Some(s) => r.wf() && !r.is_null() && r.c_bytes() == s.spec_bytes().push(0u8),
            None => r is Empty,
        },
{
    Label::from(name)
}

/// The numeric adapter-type code used by the native adapter properties.
pub open spec fn spec_adapter_type_code(t: AdapterType) -> i32 {
    match t {
        AdapterType::DiscreteGPU => 0,
        AdapterType::IntegratedGPU => 1,
        AdapterType::CPU => 2,
        AdapterType::Unknown => 3,
    }
}

/// The numeric backend-type code used by the native adapter properties.
pub open spec fn spec_backend_type_code(t: BackendType) -> i32 {
    match t {
        BackendType::Null => 0,
        BackendType::D3D11 => 1,
        BackendType::D3D12 => 2,
        BackendType::Metal => 3,
        BackendType::Vulkan => 4,
        BackendType::OpenGL => 5,
        BackendType::OpenGLES => 6,
    }
}

pub open spec fn is_adapter_type_code(v: i32) -> bool {
    exists|t: AdapterType| spec_adapter_type_code(t) == v
}

pub open spec fn is_backend_type_code(v: i32) -> bool {
    exists|t: BackendType| spec_backend_type_code(t) == v
}

/// Decodes a native adapter-type code; any other value is a native-side
/// protocol violation and is excluded by precondition.
pub fn adapter_type(v: i32) -> (t: AdapterType)
    requires
        is_adapter_type_code(v),
    ensures
        spec_adapter_type_code(t) == v,
{
    if v == 0 {
        AdapterType::DiscreteGPU
    } else if v == 1 {
        AdapterType::IntegratedGPU
    } else if v == 2 {
        AdapterType::CPU
    } else {
        proof {
            let t = choose|t: AdapterType| spec_adapter_type_code(t) == v;
            assert(spec_adapter_type_code(t) == v);
        }
        AdapterType::Unknown
    }
}

/// Decodes a native backend-type code; any other value is a native-side
/// protocol violation and is excluded by precondition.
pub fn backend_type(v: i32) -> (t: BackendType)
    requires
        is_backend_type_code(v),
    ensures
        spec_backend_type_code(t) == v,
{
    if v == 0 {
        BackendType::Null
    } else if v == 1 {
        BackendType::D3D11
    } else if v == 2 {
        BackendType::D3D12
    } else if v == 3 {
        BackendType::Metal
    } else if v == 4 {
        BackendType::Vulkan
    } else if v == 5 {
        BackendType::OpenGL
    } else {
        proof {
            let t = choose|t: BackendType| spec_backend_type_code(t) == v;
            assert(spec_backend_type_code(t) == v);
        }
        BackendType::OpenGLES
    }
}

} // verus!
