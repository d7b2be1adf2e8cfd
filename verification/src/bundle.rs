//! Render bundles: a bundle encoder records draw state once; finishing it
//! yields a reusable bundle that a render pass can execute.

use vstd::prelude::*;
use vstd::slice::slice_to_vec;

use crate::handles::{BindGroup, Buffer, RenderBundle, RenderBundleEncoder, RenderPipeline};
use crate::marshal::{marshal_c_str, marshal_label, spec_c_str};
use crate::registry::{log_only_step, EncodeOp, HandleKind, NativeCall, Registry};

verus! {

impl RenderBundleEncoder {

    pub fn draw(&mut self, reg: &mut Registry, vertex_count: usize, instance_count: usize, first_vertex: usize, first_instance: usize)
        requires
            old(self).wf(*old(reg)),
            vertex_count <= u32::MAX,
            instance_count <= u32::MAX,
            first_vertex <= u32::MAX,
            first_instance <= u32::MAX,
        ensures
            *final(self) == *old(self),
            log_only_step(
                *old(reg),
                *final(reg),
                (NativeCall::Encode { target: old(self).raw(), op: (EncodeOp::Draw { vertex_count: vertex_count as u32, instance_count: instance_count as u32, first_vertex: first_vertex as u32, first_instance: first_instance as u32 }) }),
            ),
    {
        reg.log_call(NativeCall::Encode { target: self.raw, op: (EncodeOp::Draw { vertex_count: vertex_count as u32, instance_count: instance_count as u32, first_vertex: first_vertex as u32, first_instance: first_instance as u32 }) });
    }

    pub fn draw_indexed(&mut self, reg: &mut Registry, index_count: usize, instance_count: usize, first_index: usize, base_vertex: isize, first_instance: usize)
        requires
            old(self).wf(*old(reg)),
            index_count <= u32::MAX,
            instance_count <= u32::MAX,
            first_index <= u32::MAX,
            i32::MIN <= base_vertex <= i32::MAX,
            first_instance <= u32::MAX,
        ensures
            *final(self) == *old(self),
            log_only_step(
                *old(reg),
                *final(reg),
                (NativeCall::Encode { target: old(self).raw(), op: (EncodeOp::DrawIndexed { index_count: index_count as u32, instance_count: instance_count as u32, first_index: first_index as u32, base_vertex: base_vertex as i32, first_instance: first_instance as u32 }) }),
            ),
    {
        reg.log_call(NativeCall::Encode { target: self.raw, op: (EncodeOp::DrawIndexed { index_count: index_count as u32, instance_count: instance_count as u32, first_index: first_index as u32, base_vertex: base_vertex as i32, first_instance: first_instance as u32 }) });
    }

    pub fn draw_indirect(&mut self, reg: &mut Registry, indirect_buffer: &Buffer, indirect_offset: usize)
        requires
            old(self).wf(*old(reg)),
        ensures
            *final(self) == *old(self),
            log_only_step(
                *old(reg),
                *final(reg),
                (NativeCall::Encode { target: old(self).raw(), op: (EncodeOp::DrawIndirect { buffer: indirect_buffer.raw(), offset: indirect_offset as u64 }) }),
            ),
    {
        reg.log_call(NativeCall::Encode { target: self.raw, op: (EncodeOp::DrawIndirect { buffer: indirect_buffer.raw, offset: indirect_offset as u64 }) });
    }

    pub fn draw_indexed_indirect(&mut self, reg: &mut Registry, indirect_buffer: &Buffer, indirect_offset: usize)
        requires
            old(self).wf(*old(reg)),
        ensures
            *final(self) == *old(self),
            log_only_step(
                *old(reg),
                *final(reg),
                (NativeCall::Encode { target: old(self).raw(), op: (EncodeOp::DrawIndexedIndirect { buffer: indirect_buffer.raw(), offset: indirect_offset as u64 }) }),
            ),
    {
        reg.log_call(NativeCall::Encode { target: self.raw, op: (EncodeOp::DrawIndexedIndirect { buffer: indirect_buffer.raw, offset: indirect_offset as u64 }) });
    }

    pub fn insert_debug_marker(&mut self, reg: &mut Registry, group_label: &str)
        requires
            old(self).wf(*old(reg)),
            crate::marshal::c_str_ok(group_label),
        ensures
            *final(self) == *old(self),
            final(reg).objects == old(reg).objects,
            final(reg).shared_devices == old(reg).shared_devices,
            final(reg).table == old(reg).table,
            final(reg).errors == old(reg).errors,
            final(reg).calls@.len() == old(reg).calls@.len() + 1,
            final(reg).calls@.subrange(0, old(reg).calls@.len() as int) == old(reg).calls@,
            (final(reg).calls@.last() matches NativeCall::Encode { target, op } && target == old(
                self,
            ).raw() && (op matches EncodeOp::InsertDebugMarker { label } && label@ == spec_c_str(group_label))),
    {
        let label = marshal_c_str(group_label);
        reg.log_call(NativeCall::Encode { target: self.raw, op: (EncodeOp::InsertDebugMarker { label }) });
        proof {
            assert(reg.calls@.subrange(0, old(reg).calls@.len() as int) =~= old(reg).calls@);
        }
    }

    pub fn push_debug_group(&mut self, reg: &mut Registry, group_label: &str)
        requires
            old(self).wf(*old(reg)),
            crate::marshal::c_str_ok(group_label),
        ensures
            *final(self) == *old(self),
            final(reg).objects == old(reg).objects,
            final(reg).shared_devices == old(reg).shared_devices,
            final(reg).table == old(reg).table,
            final(reg).errors == old(reg).errors,
            final(reg).calls@.len() == old(reg).calls@.len() + 1,
            final(reg).calls@.subrange(0, old(reg).calls@.len() as int) == old(reg).calls@,
            (final(reg).calls@.last() matches NativeCall::Encode { target, op } && target == old(
                self,
            ).raw() && (op matches EncodeOp::PushDebugGroup { label } && label@ == spec_c_str(group_label))),
    {
        let label = marshal_c_str(group_label);
        reg.log_call(NativeCall::Encode { target: self.raw, op: (EncodeOp::PushDebugGroup { label }) });
        proof {
            assert(reg.calls@.subrange(0, old(reg).calls@.len() as int) =~= old(reg).calls@);
        }
    }

    pub fn pop_debug_group(&mut self, reg: &mut Registry)
        requires
            old(self).wf(*old(reg)),
        ensures
            *final(self) == *old(self),
            log_only_step(
                *old(reg),
                *final(reg),
                (NativeCall::Encode { target: old(self).raw(), op: (EncodeOp::PopDebugGroup) }),
            ),
    {
        reg.log_call(NativeCall::Encode { target: self.raw, op: (EncodeOp::PopDebugGroup) });
    }

    pub fn set_bind_group(&mut self, reg: &mut Registry, group_index: usize, bind_group: &BindGroup, dynamic_offsets: &[u32])
        requires
            old(self).wf(*old(reg)),
            group_index <= u32::MAX,
        ensures
            *final(self) == *old(self),
            final(reg).objects == old(reg).objects,
            final(reg).shared_devices == old(reg).shared_devices,
            final(reg).table == old(reg).table,
            final(reg).errors == old(reg).errors,
            final(reg).calls@.len() == old(reg).calls@.len() + 1,
            final(reg).calls@.subrange(0, old(reg).calls@.len() as int) == old(reg).calls@,
            (final(reg).calls@.last() matches NativeCall::Encode { target, op } && target == old(
                self,
            ).raw() && (op matches EncodeOp::SetBindGroup { index, group, dynamic_offsets: offs } && index == group_index as u32 && group == bind_group.raw() && offs@ == dynamic_offsets@)),
    {
        let offs = slice_to_vec(dynamic_offsets);
        reg.log_call(
            NativeCall::Encode {
                target: self.raw,
                op: (EncodeOp::SetBindGroup {
                    index: group_index as u32,
                    group: bind_group.raw,
                    dynamic_offsets: offs,
                }),
            },
        );
        proof {
            assert(reg.calls@.subrange(0, old(reg).calls@.len() as int) =~= old(reg).calls@);
        }
    }

    pub fn set_index_buffer(&mut self, reg: &mut Registry, index_buffer: &Buffer, offset: usize)
        requires
            old(self).wf(*old(reg)),
        ensures
            *final(self) == *old(self),
            log_only_step(
                *old(reg),
                *final(reg),
                (NativeCall::Encode { target: old(self).raw(), op: (EncodeOp::SetIndexBuffer { buffer: index_buffer.raw(), offset: offset as u64 }) }),
            ),
    {
        reg.log_call(NativeCall::Encode { target: self.raw, op: (EncodeOp::SetIndexBuffer { buffer: index_buffer.raw, offset: offset as u64 }) });
    }

    pub fn set_pipeline(&mut self, reg: &mut Registry, pipeline: &RenderPipeline)
        requires
            old(self).wf(*old(reg)),
        ensures
            *final(self) == *old(self),
            log_only_step(
                *old(reg),
                *final(reg),
                (NativeCall::Encode { target: old(self).raw(), op: (EncodeOp::SetPipeline { pipeline: pipeline.raw() }) }),
            ),
    {
        reg.log_call(NativeCall::Encode { target: self.raw, op: (EncodeOp::SetPipeline { pipeline: pipeline.raw }) });
    }

    pub fn set_vertex_buffer(&mut self, reg: &mut Registry, slot: usize, vertex_buffer: &Buffer, offset: usize)
        requires
            old(self).wf(*old(reg)),
            slot <= u32::MAX,
        ensures
            *final(self) == *old(self),
            log_only_step(
                *old(reg),
                *final(reg),
                (NativeCall::Encode { target: old(self).raw(), op: (EncodeOp::SetVertexBuffer { slot: slot as u32, buffer: vertex_buffer.raw(), offset: offset as u64 }) }),
            ),
    {
        reg.log_call(NativeCall::Encode { target: self.raw, op: (EncodeOp::SetVertexBuffer { slot: slot as u32, buffer: vertex_buffer.raw, offset: offset as u64 }) });
    }

    /// Finishes the recording: the encoder is consumed, released exactly
    /// once, and an immutable render bundle is returned.
    pub fn finish(self, reg: &mut Registry) -> (rb: RenderBundle)
        requires
            self.wf(*old(reg)),
            old(reg).objects@.len() < usize::MAX,
        ensures
            rb.wf(*final(reg)),
            rb.device_cell() == self.device_cell(),
            rb.raw() == old(reg).objects@.len() + 1,
            final(reg).objects@.len() == old(reg).objects@.len() + 1,
            final(reg).objects@.subrange(0, old(reg).objects@.len() as int) == old(
                reg,
            ).objects@.update(self.raw() - 1, old(reg).object(self.raw()).released()),
            final(reg).object(rb.raw()).kind == HandleKind::RenderBundle,
            final(reg).object(rb.raw()).refcount == 1,
            final(reg).calls@.len() == old(reg).calls@.len() + 2,
            final(reg).calls@.subrange(0, old(reg).calls@.len() as int) == old(reg).calls@,
            (final(reg).calls@[old(reg).calls@.len() as int] matches NativeCall::FinishBundle {
                encoder,
                label,
            } && encoder == self.raw() && label@ == Seq::<u8>::empty()),
            final(reg).calls@[old(reg).calls@.len() as int + 1] == (NativeCall::Release {
                handle: self.raw(),
            }),
            final(reg).shared_devices == old(reg).shared_devices,
            final(reg).table == old(reg).table,
            final(reg).errors == old(reg).errors,
    {
        let label = marshal_label(None);
        let raw = reg.raw_create(
            HandleKind::RenderBundle,
            false,
            Vec::new(),
            Vec::new(),
            NativeCall::FinishBundle { encoder: self.raw, label },
        );
        reg.release(self.raw);
        proof {
            assert(reg.calls@.subrange(0, old(reg).calls@.len() as int) =~= old(reg).calls@);
            assert(reg.objects@.subrange(0, old(reg).objects@.len() as int) =~= old(
                reg,
            ).objects@.update(self.raw() - 1, old(reg).object(self.raw()).released()));
        }
        RenderBundle { raw, device: self.device }
    }
}

} // verus!
