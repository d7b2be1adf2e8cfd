//! Structures for indirect draw and dispatch.

use vstd::prelude::*;

verus! {

/// The argument block an indirect draw reads from a buffer.
#[derive(Clone, Copy, Debug, PartialEq, Eq, Hash, Structural)]
pub struct DrawIndirectCommand {
    pub vertex_count: u32,
    pub instance_count: u32,
    pub first_vertex: u32,
    pub first_instance: i32,
}

/// The argument block an indirect indexed draw reads from a buffer.
#[derive(Clone, Copy, Debug, PartialEq, Eq, Hash, Structural)]
pub struct DrawIndexedIndirectCommand {
    pub vertex_count: u32,
    pub instance_count: u32,
    pub first_vertex: u32,
    pub base_vertex: i32,
    pub first_instance: i32,
}

/// The argument block an indirect compute dispatch reads from a buffer.
#[derive(Clone, Copy, Debug, PartialEq, Eq, Hash, Structural)]
pub struct DispatchIndirectCommand {
    pub x: u32,
    pub y: u32,
    pub z: u32,
}

} // verus!
