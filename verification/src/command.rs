//! Command recording: a command encoder accumulates operations against a
//! device; a render or compute pass owns the encoder while it is open, so
//! the encoder cannot be used or finished until the pass has ended; `finish`
//! consumes the encoder and yields an immutable command buffer.  The state
//! machine (recording, pass open, finished) is enforced by ownership alone:
//! every transition consumes the value it leaves.

use vstd::prelude::*;
use vstd::slice::slice_to_vec;

use crate::descriptors::{
    BufferCopyView, Color, ComputePassDescriptor, Extent3d, F32Bits, RenderPassDescriptor,
    TextureCopyView,
};
use crate::handles::{
    BindGroup, Buffer, CommandBuffer, CommandEncoder, ComputePassEncoder, ComputePipeline,
    RenderBundle, RenderPassEncoder, RenderPipeline,
};
use crate::marshal::{
    label_ok, marshal_c_str, marshal_label, marshal_render_pass, render_pass_marshals, spec_c_str,
    spec_label_bytes,
};
use crate::native_desc::{NativeBufferCopyView, NativeTextureCopyView};
use crate::registry::{
    create_step, log_only_step, BufferCopy, EncodeOp, HandleKind, NativeCall, Registry,
};

verus! {

/// The native image of a buffer-side copy endpoint.
pub open spec fn spec_buffer_copy_view(v: BufferCopyView) -> NativeBufferCopyView {
    NativeBufferCopyView {
        buffer: v.buffer.raw(),
        offset: v.offset,
        row_pitch: v.bytes_per_row,
        image_height: v.rows_per_image,
    }
}

/// The native image of a texture-side copy endpoint.
pub open spec fn spec_texture_copy_view(v: TextureCopyView) -> NativeTextureCopyView {
    NativeTextureCopyView {
        texture: v.texture.raw(),
        mip_level: v.mip_level,
        array_layer: v.array_layer,
        origin: v.origin,
    }
}

fn marshal_buffer_copy_view(v: &BufferCopyView) -> (r: NativeBufferCopyView)
    ensures
        r == spec_buffer_copy_view(*v),
{
    NativeBufferCopyView {
        buffer: v.buffer.raw,
        offset: v.offset,
        row_pitch: v.bytes_per_row,
        image_height: v.rows_per_image,
    }
}

fn marshal_texture_copy_view(v: &TextureCopyView) -> (r: NativeTextureCopyView)
    ensures
        r == spec_texture_copy_view(*v),
{
    NativeTextureCopyView {
        texture: v.texture.raw,
        mip_level: v.mip_level,
        array_layer: v.array_layer,
        origin: v.origin,
    }
}

impl CommandEncoder {
    /// Opens a compute pass.  The pass owns this encoder until `end_pass`.
    pub fn begin_compute_pass(self, reg: &mut Registry, descriptor: &ComputePassDescriptor) -> (p:
        ComputePassEncoder)
        requires
            self.wf(*old(reg)),
            old(reg).objects@.len() < usize::MAX,
            label_ok(descriptor.label),
        ensures
            p.wf(*final(reg)),
            p.parent_raw() == self.raw(),
            p.device_cell() == self.device_cell(),
            create_step(*old(reg), *final(reg), p.raw()),
            final(reg).object(p.raw()).kind == HandleKind::ComputePass,
            (final(reg).calls@.last() matches NativeCall::BeginComputePass { encoder, label }
                && encoder == self.raw() && label@ == spec_label_bytes(descriptor.label)),
    {
        let label = marshal_label(descriptor.label);
        let raw = reg.raw_create(
            HandleKind::ComputePass,
            false,
            Vec::new(),
            Vec::new(),
            NativeCall::BeginComputePass { encoder: self.raw, label },
        );
        ComputePassEncoder { raw, parent: self }
    }

    /// Opens a render pass.  The pass owns this encoder until `end_pass`.
    pub fn begin_render_pass(self, reg: &mut Registry, descriptor: &RenderPassDescriptor) -> (p:
        RenderPassEncoder)
        requires
            self.wf(*old(reg)),
            old(reg).objects@.len() < usize::MAX,
            label_ok(descriptor.label),
        ensures
            p.wf(*final(reg)),
            p.parent_raw() == self.raw(),
            p.device_cell() == self.device_cell(),
            create_step(*old(reg), *final(reg), p.raw()),
            final(reg).object(p.raw()).kind == HandleKind::RenderPass,
            (final(reg).calls@.last() matches NativeCall::BeginRenderPass { encoder, descriptor: nd }
                && encoder == self.raw() && render_pass_marshals(nd, *descriptor)),
    {
        let nd = marshal_render_pass(descriptor);
        let raw = reg.raw_create(
            HandleKind::RenderPass,
            false,
            Vec::new(),
            Vec::new(),
            NativeCall::BeginRenderPass { encoder: self.raw, descriptor: nd },
        );
        RenderPassEncoder { raw, parent: self }
    }

    /// Records a buffer-to-buffer copy, replayed at submission.
    pub fn copy_buffer_to_buffer(
        &mut self,
        reg: &mut Registry,
        source: &Buffer,
        source_offset: usize,
        destination: &Buffer,
        destination_offset: usize,
        size: usize,
    )
        requires
            old(self).wf(*old(reg)),
        ensures
            *final(self) == *old(self),
            final(reg).objects@.len() == old(reg).objects@.len(),
            forall|k: int|
                0 <= k < old(reg).objects@.len() && k != old(self).raw() - 1
                    ==> final(reg).objects@[k] == old(reg).objects@[k],
            final(reg).object(old(self).raw()).commands@ == old(reg).object(
                old(self).raw(),
            ).commands@.push(
                (BufferCopy {
                    source: source.raw(),
                    source_offset: source_offset as u64,
                    destination: destination.raw(),
                    destination_offset: destination_offset as u64,
                    size: size as u64,
                }),
            ),
            final(reg).object(old(self).raw()).kind == old(reg).object(old(self).raw()).kind,
            final(reg).object(old(self).raw()).refcount == old(reg).object(
                old(self).raw(),
            ).refcount,
            final(reg).calls@ == old(reg).calls@.push(
                NativeCall::Encode {
                    target: old(self).raw(),
                    op: (EncodeOp::CopyBufferToBuffer {
                        copy: BufferCopy {
                            source: source.raw(),
                            source_offset: source_offset as u64,
                            destination: destination.raw(),
                            destination_offset: destination_offset as u64,
                            size: size as u64,
                        },
                    }),
                },
            ),
            final(reg).shared_devices == old(reg).shared_devices,
            final(reg).table == old(reg).table,
            final(reg).errors == old(reg).errors,
    {
        let copy = BufferCopy {
            source: source.raw,
            source_offset: source_offset as u64,
            destination: destination.raw,
            destination_offset: destination_offset as u64,
            size: size as u64,
        };
        reg.record_command(self.raw, copy);
    }

    /// Finishes the recording: the encoder is consumed and its recorded
    /// operations become an immutable command buffer, ready for submission.
    pub fn finish(self, reg: &mut Registry) -> (cb: CommandBuffer)
        requires
            self.wf(*old(reg)),
            old(reg).objects@.len() < usize::MAX,
        ensures
            cb.wf(*final(reg)),
            cb.device_cell() == self.device_cell(),
            cb.raw() == old(reg).objects@.len() + 1,
            final(reg).objects@.len() == old(reg).objects@.len() + 1,
            final(reg).objects@.subrange(0, old(reg).objects@.len() as int) == old(
                reg,
            ).objects@.update(self.raw() - 1, old(reg).object(self.raw()).released()),
            final(reg).object(cb.raw()).kind == HandleKind::CommandBuffer,
            final(reg).object(cb.raw()).refcount == 1,
            final(reg).object(cb.raw()).commands@ == old(reg).object(self.raw()).commands@,
            final(reg).calls@.len() == old(reg).calls@.len() + 2,
            final(reg).calls@.subrange(0, old(reg).calls@.len() as int) == old(reg).calls@,
            (final(reg).calls@[old(reg).calls@.len() as int] matches NativeCall::FinishEncoder {
                encoder,
                label,
            } && encoder == self.raw() && label@ == Seq::<u8>::empty()),
            final(reg).calls@[old(reg).calls@.len() as int + 1] == (NativeCall::Release {
                handle: self.raw(),
            }),
            final(reg).shared_devices == old(reg).shared_devices,
            final(reg).table == old(reg).table,
            final(reg).errors == old(reg).errors,
    {
        let commands = read_commands(reg, self.raw);
        let label = marshal_label(None);
        let raw = reg.raw_create(
            HandleKind::CommandBuffer,
            false,
            Vec::new(),
            commands,
            NativeCall::FinishEncoder { encoder: self.raw, label },
        );
        reg.release(self.raw);
        proof {
            assert(reg.calls@.subrange(0, old(reg).calls@.len() as int) =~= old(reg).calls@);
            assert(reg.objects@.subrange(0, old(reg).objects@.len() as int) =~= old(
                reg,
            ).objects@.update(self.raw() - 1, old(reg).object(self.raw()).released()));
        }
        CommandBuffer { raw, device: self.device }
    }
}

/// A copy of the command list of the object `h`.
fn read_commands(reg: &Registry, h: usize) -> (r: Vec<BufferCopy>)
    requires
        reg.is_handle(h),
    ensures
        r@ == reg.object(h).commands@,
{
    let mut r: Vec<BufferCopy> = Vec::new();
    let source = &reg.objects[h - 1];
    let mut i: usize = 0;
    while i < source.commands.len()
        invariant
            i <= source.commands@.len(),
            r@ =~= source.commands@.take(i as int),
        decreases source.commands@.len() - i,
    {
        r.push(source.commands[i]);
        i = i + 1;
    }
    proof {
        assert(r@ =~= reg.object(h).commands@);
    }
    r
}
impl CommandEncoder {
    pub fn copy_buffer_to_texture(
        &mut self,
        reg: &mut Registry,
        source: &BufferCopyView<'_>,
        destination: &TextureCopyView<'_>,
        copy_size: &Extent3d,
    )
        requires
            old(self).wf(*old(reg)),
        ensures
            *final(self) == *old(self),
            log_only_step(
                *old(reg),
                *final(reg),
                (NativeCall::Encode {
                    target: old(self).raw(),
                    op: (EncodeOp::CopyBufferToTexture {
                        source: spec_buffer_copy_view(*source),
                        destination: spec_texture_copy_view(*destination),
                        copy_size: *copy_size,
                    }),
                }),
            ),
    {
        let raw_source = marshal_buffer_copy_view(source);
        let raw_destination = marshal_texture_copy_view(destination);
        reg.log_call(
            NativeCall::Encode {
                target: self.raw,
                op: (EncodeOp::CopyBufferToTexture {
                    source: raw_source,
                    destination: raw_destination,
                    copy_size: *copy_size,
                }),
            },
        );
    }

    pub fn copy_texture_to_buffer(
        &mut self,
        reg: &mut Registry,
        source: &TextureCopyView<'_>,
        destination: &BufferCopyView<'_>,
        copy_size: &Extent3d,
    )
        requires
            old(self).wf(*old(reg)),
        ensures
            *final(self) == *old(self),
            log_only_step(
                *old(reg),
                *final(reg),
                (NativeCall::Encode {
                    target: old(self).raw(),
                    op: (EncodeOp::CopyTextureToBuffer {
                        source: spec_texture_copy_view(*source),
                        destination: spec_buffer_copy_view(*destination),
                        copy_size: *copy_size,
                    }),
                }),
            ),
    {
        let raw_source = marshal_texture_copy_view(source);
        let raw_destination = marshal_buffer_copy_view(destination);
        reg.log_call(
            NativeCall::Encode {
                target: self.raw,
                op: (EncodeOp::CopyTextureToBuffer {
                    source: raw_source,
                    destination: raw_destination,
                    copy_size: *copy_size,
                }),
            },
        );
    }

    pub fn copy_texture_to_texture(
        &mut self,
        reg: &mut Registry,
        source: &TextureCopyView<'_>,
        destination: &TextureCopyView<'_>,
        copy_size: &Extent3d,
    )
        requires
            old(self).wf(*old(reg)),
        ensures
            *final(self) == *old(self),
            log_only_step(
                *old(reg),
                *final(reg),
                (NativeCall::Encode {
                    target: old(self).raw(),
                    op: (EncodeOp::CopyTextureToTexture {
                        source: spec_texture_copy_view(*source),
                        destination: spec_texture_copy_view(*destination),
                        copy_size: *copy_size,
                    }),
                }),
            ),
    {
        let raw_source = marshal_texture_copy_view(source);
        let raw_destination = marshal_texture_copy_view(destination);
        reg.log_call(
            NativeCall::Encode {
                target: self.raw,
                op: (EncodeOp::CopyTextureToTexture {
                    source: raw_source,
                    destination: raw_destination,
                    copy_size: *copy_size,
                }),
            },
        );
    }
}

impl ComputePassEncoder {
    pub open(crate) spec fn raw(self) -> usize {
        self.raw
    }

    pub open(crate) spec fn parent_raw(self) -> usize {
        self.parent.raw()
    }

    pub open(crate) spec fn device_cell(self) -> usize {
        self.parent.device_cell()
    }

    /// The command encoder this pass exclusively owns while it is open.
    pub open(crate) spec fn parent_enc(self) -> CommandEncoder {
        self.parent
    }

    pub open spec fn wf(self, reg: Registry) -> bool {
        &&& reg.live_as(self.raw(), HandleKind::ComputePass)
        &&& self.parent_enc().wf(reg)
    }

    pub fn dispatch(&mut self, reg: &mut Registry, x: u32, y: u32, z: u32)
        requires
            old(self).wf(*old(reg)),
        ensures
            *final(self) == *old(self),
            log_only_step(
                *old(reg),
                *final(reg),
                (NativeCall::Encode { target: old(self).raw(), op: (EncodeOp::Dispatch { x, y, z }) }),
            ),
    {
        reg.log_call(NativeCall::Encode { target: self.raw, op: (EncodeOp::Dispatch { x, y, z }) });
    }

    pub fn dispatch_indirect(&mut self, reg: &mut Registry, indirect_buffer: &Buffer, indirect_offset: usize)
        requires
            old(self).wf(*old(reg)),
        ensures
            *final(self) == *old(self),
            log_only_step(
                *old(reg),
                *final(reg),
                (NativeCall::Encode { target: old(self).raw(), op: (EncodeOp::DispatchIndirect { buffer: indirect_buffer.raw(), offset: indirect_offset as u64 }) }),
            ),
    {
        reg.log_call(NativeCall::Encode { target: self.raw, op: (EncodeOp::DispatchIndirect { buffer: indirect_buffer.raw, offset: indirect_offset as u64 }) });
    }

    /// Ends the pass: the pass encoder is consumed, the native pass object
    /// is released exactly once, and the parent command encoder is returned
    /// to the caller, usable again.
    pub fn end_pass(self, reg: &mut Registry) -> (e: CommandEncoder)
        requires
            self.wf(*old(reg)),
        ensures
            e.raw() == self.parent_raw(),
            e.device_cell() == self.device_cell(),
            e.wf(*final(reg)),
            final(reg).objects@ == old(reg).objects@.update(
                self.raw() - 1,
                old(reg).object(self.raw()).released(),
            ),
            final(reg).calls@ == old(reg).calls@.push(NativeCall::EndPass { pass: self.raw() }).push(
                NativeCall::Release { handle: self.raw() },
            ),
            final(reg).shared_devices == old(reg).shared_devices,
            final(reg).table == old(reg).table,
            final(reg).errors == old(reg).errors,
    {
        reg.log_call(NativeCall::EndPass { pass: self.raw });
        reg.release(self.raw);
        self.parent
    }

    pub fn insert_debug_marker(&mut self, reg: &mut Registry, group_label: &str)
        requires
            old(self).wf(*old(reg)),
            crate::marshal::c_str_ok(group_label),
        ensures
            *final(self) == *old(self),
            final(reg).objects == old(reg).objects,
            final(reg).shared_devices == old(reg).shared_devices,
            final(reg).table == old(reg).table,
            final(reg).errors == old(reg).errors,
            final(reg).calls@.len() == old(reg).calls@.len() + 1,
            final(reg).calls@.subrange(0, old(reg).calls@.len() as int) == old(reg).calls@,
            (final(reg).calls@.last() matches NativeCall::Encode { target, op } && target == old(
                self,
            ).raw() && (op matches EncodeOp::InsertDebugMarker { label } && label@ == spec_c_str(group_label))),
    {
        let label = marshal_c_str(group_label);
        reg.log_call(NativeCall::Encode { target: self.raw, op: (EncodeOp::InsertDebugMarker { label }) });
        proof {
            assert(reg.calls@.subrange(0, old(reg).calls@.len() as int) =~= old(reg).calls@);
        }
    }

    pub fn push_debug_group(&mut self, reg: &mut Registry, group_label: &str)
        requires
            old(self).wf(*old(reg)),
            crate::marshal::c_str_ok(group_label),
        ensures
            *final(self) == *old(self),
            final(reg).objects == old(reg).objects,
            final(reg).shared_devices == old(reg).shared_devices,
            final(reg).table == old(reg).table,
            final(reg).errors == old(reg).errors,
            final(reg).calls@.len() == old(reg).calls@.len() + 1,
            final(reg).calls@.subrange(0, old(reg).calls@.len() as int) == old(reg).calls@,
            (final(reg).calls@.last() matches NativeCall::Encode { target, op } && target == old(
                self,
            ).raw() && (op matches EncodeOp::PushDebugGroup { label } && label@ == spec_c_str(group_label))),
    {
        let label = marshal_c_str(group_label);
        reg.log_call(NativeCall::Encode { target: self.raw, op: (EncodeOp::PushDebugGroup { label }) });
        proof {
            assert(reg.calls@.subrange(0, old(reg).calls@.len() as int) =~= old(reg).calls@);
        }
    }

    pub fn pop_debug_group(&mut self, reg: &mut Registry)
        requires
            old(self).wf(*old(reg)),
        ensures
            *final(self) == *old(self),
            log_only_step(
                *old(reg),
                *final(reg),
                (NativeCall::Encode { target: old(self).raw(), op: (EncodeOp::PopDebugGroup) }),
            ),
    {
        reg.log_call(NativeCall::Encode { target: self.raw, op: (EncodeOp::PopDebugGroup) });
    }

    pub fn set_bind_group(&mut self, reg: &mut Registry, group_index: usize, bind_group: &BindGroup, dynamic_offsets: &[u32])
        requires
            old(self).wf(*old(reg)),
            group_index <= u32::MAX,
        ensures
            *final(self) == *old(self),
            final(reg).objects == old(reg).objects,
            final(reg).shared_devices == old(reg).shared_devices,
            final(reg).table == old(reg).table,
            final(reg).errors == old(reg).errors,
            final(reg).calls@.len() == old(reg).calls@.len() + 1,
            final(reg).calls@.subrange(0, old(reg).calls@.len() as int) == old(reg).calls@,
            (final(reg).calls@.last() matches NativeCall::Encode { target, op } && target == old(
                self,
            ).raw() && (op matches EncodeOp::SetBindGroup { index, group, dynamic_offsets: offs } && index == group_index as u32 && group == bind_group.raw() && offs@ == dynamic_offsets@)),
    {
        let offs = slice_to_vec(dynamic_offsets);
        reg.log_call(
            NativeCall::Encode {
                target: self.raw,
                op: (EncodeOp::SetBindGroup {
                    index: group_index as u32,
                    group: bind_group.raw,
                    dynamic_offsets: offs,
                }),
            },
        );
        proof {
            assert(reg.calls@.subrange(0, old(reg).calls@.len() as int) =~= old(reg).calls@);
        }
    }

    pub fn set_pipeline(&mut self, reg: &mut Registry, pipeline: &ComputePipeline)
        requires
            old(self).wf(*old(reg)),
        ensures
            *final(self) == *old(self),
            log_only_step(
                *old(reg),
                *final(reg),
                (NativeCall::Encode { target: old(self).raw(), op: (EncodeOp::SetPipeline { pipeline: pipeline.raw() }) }),
            ),
    {
        reg.log_call(NativeCall::Encode { target: self.raw, op: (EncodeOp::SetPipeline { pipeline: pipeline.raw }) });
    }
}

impl RenderPassEncoder {
    pub open(crate) spec fn raw(self) -> usize {
        self.raw
    }

    pub open(crate) spec fn parent_raw(self) -> usize {
        self.parent.raw()
    }

    pub open(crate) spec fn device_cell(self) -> usize {
        self.parent.device_cell()
    }

    /// The command encoder this pass exclusively owns while it is open.
    pub open(crate) spec fn parent_enc(self) -> CommandEncoder {
        self.parent
    }

    pub open spec fn wf(self, reg: Registry) -> bool {
        &&& reg.live_as(self.raw(), HandleKind::RenderPass)
        &&& self.parent_enc().wf(reg)
    }

    pub fn draw(&mut self, reg: &mut Registry, vertex_count: usize, instance_count: usize, first_vertex: usize, first_instance: usize)
        requires
            old(self).wf(*old(reg)),
            vertex_count <= u32::MAX,
            instance_count <= u32::MAX,
            first_vertex <= u32::MAX,
            first_instance <= u32::MAX,
        ensures
            *final(self) == *old(self),
            log_only_step(
                *old(reg),
                *final(reg),
                (NativeCall::Encode { target: old(self).raw(), op: (EncodeOp::Draw { vertex_count: vertex_count as u32, instance_count: instance_count as u32, first_vertex: first_vertex as u32, first_instance: first_instance as u32 }) }),
            ),
    {
        reg.log_call(NativeCall::Encode { target: self.raw, op: (EncodeOp::Draw { vertex_count: vertex_count as u32, instance_count: instance_count as u32, first_vertex: first_vertex as u32, first_instance: first_instance as u32 }) });
    }

    pub fn draw_indexed(&mut self, reg: &mut Registry, index_count: usize, instance_count: usize, first_index: usize, base_vertex: isize, first_instance: usize)
        requires
            old(self).wf(*old(reg)),
            index_count <= u32::MAX,
            instance_count <= u32::MAX,
            first_index <= u32::MAX,
            i32::MIN <= base_vertex <= i32::MAX,
            first_instance <= u32::MAX,
        ensures
            *final(self) == *old(self),
            log_only_step(
                *old(reg),
                *final(reg),
                (NativeCall::Encode { target: old(self).raw(), op: (EncodeOp::DrawIndexed { index_count: index_count as u32, instance_count: instance_count as u32, first_index: first_index as u32, base_vertex: base_vertex as i32, first_instance: first_instance as u32 }) }),
            ),
    {
        reg.log_call(NativeCall::Encode { target: self.raw, op: (EncodeOp::DrawIndexed { index_count: index_count as u32, instance_count: instance_count as u32, first_index: first_index as u32, base_vertex: base_vertex as i32, first_instance: first_instance as u32 }) });
    }

    pub fn draw_indirect(&mut self, reg: &mut Registry, indirect_buffer: &Buffer, indirect_offset: usize)
        requires
            old(self).wf(*old(reg)),
        ensures
            *final(self) == *old(self),
            log_only_step(
                *old(reg),
                *final(reg),
                (NativeCall::Encode { target: old(self).raw(), op: (EncodeOp::DrawIndirect { buffer: indirect_buffer.raw(), offset: indirect_offset as u64 }) }),
            ),
    {
        reg.log_call(NativeCall::Encode { target: self.raw, op: (EncodeOp::DrawIndirect { buffer: indirect_buffer.raw, offset: indirect_offset as u64 }) });
    }

    pub fn draw_indexed_indirect(&mut self, reg: &mut Registry, indirect_buffer: &Buffer, indirect_offset: usize)
        requires
            old(self).wf(*old(reg)),
        ensures
            *final(self) == *old(self),
            log_only_step(
                *old(reg),
                *final(reg),
                (NativeCall::Encode { target: old(self).raw(), op: (EncodeOp::DrawIndexedIndirect { buffer: indirect_buffer.raw(), offset: indirect_offset as u64 }) }),
            ),
    {
        reg.log_call(NativeCall::Encode { target: self.raw, op: (EncodeOp::DrawIndexedIndirect { buffer: indirect_buffer.raw, offset: indirect_offset as u64 }) });
    }

    /// Ends the pass: the pass encoder is consumed, the native pass object
    /// is released exactly once, and the parent command encoder is returned
    /// to the caller, usable again.
    pub fn end_pass(self, reg: &mut Registry) -> (e: CommandEncoder)
        requires
            self.wf(*old(reg)),
        ensures
            e.raw() == self.parent_raw(),
            e.device_cell() == self.device_cell(),
            e.wf(*final(reg)),
            final(reg).objects@ == old(reg).objects@.update(
                self.raw() - 1,
                old(reg).object(self.raw()).released(),
            ),
            final(reg).calls@ == old(reg).calls@.push(NativeCall::EndPass { pass: self.raw() }).push(
                NativeCall::Release { handle: self.raw() },
            ),
            final(reg).shared_devices == old(reg).shared_devices,
            final(reg).table == old(reg).table,
            final(reg).errors == old(reg).errors,
    {
        reg.log_call(NativeCall::EndPass { pass: self.raw });
        reg.release(self.raw);
        self.parent
    }

    pub fn execute_bundles(&mut self, reg: &mut Registry, bundles: &[RenderBundle])
        requires
            old(self).wf(*old(reg)),
        ensures
            *final(self) == *old(self),
            final(reg).objects == old(reg).objects,
            final(reg).shared_devices == old(reg).shared_devices,
            final(reg).table == old(reg).table,
            final(reg).errors == old(reg).errors,
            final(reg).calls@.len() == old(reg).calls@.len() + 1,
            final(reg).calls@.subrange(0, old(reg).calls@.len() as int) == old(reg).calls@,
            (final(reg).calls@.last() matches NativeCall::Encode { target, op } && target == old(
                self,
            ).raw() && (op matches EncodeOp::ExecuteBundles { bundles: bs } && bs@.len() == bundles@.len() && (forall|i: int| 0 <= i < bundles@.len() ==> bs@[i] == bundles@[i].raw()))),
    {
        let mut bs: Vec<usize> = Vec::new();
        let mut i: usize = 0;
        while i < bundles.len()
            invariant
                i <= bundles@.len(),
                bs@.len() == i,
                forall|k: int| 0 <= k < i ==> bs@[k] == bundles@[k].raw(),
            decreases bundles@.len() - i,
        {
            bs.push(bundles[i].raw);
            i = i + 1;
        }
        reg.log_call(
            NativeCall::Encode { target: self.raw, op: (EncodeOp::ExecuteBundles { bundles: bs }) },
        );
        proof {
            assert(reg.calls@.subrange(0, old(reg).calls@.len() as int) =~= old(reg).calls@);
        }
    }

    pub fn insert_debug_marker(&mut self, reg: &mut Registry, group_label: &str)
        requires
            old(self).wf(*old(reg)),
            crate::marshal::c_str_ok(group_label),
        ensures
            *final(self) == *old(self),
            final(reg).objects == old(reg).objects,
            final(reg).shared_devices == old(reg).shared_devices,
            final(reg).table == old(reg).table,
            final(reg).errors == old(reg).errors,
            final(reg).calls@.len() == old(reg).calls@.len() + 1,
            final(reg).calls@.subrange(0, old(reg).calls@.len() as int) == old(reg).calls@,
            (final(reg).calls@.last() matches NativeCall::Encode { target, op } && target == old(
                self,
            ).raw() && (op matches EncodeOp::InsertDebugMarker { label } && label@ == spec_c_str(group_label))),
    {
        let label = marshal_c_str(group_label);
        reg.log_call(NativeCall::Encode { target: self.raw, op: (EncodeOp::InsertDebugMarker { label }) });
        proof {
            assert(reg.calls@.subrange(0, old(reg).calls@.len() as int) =~= old(reg).calls@);
        }
    }

    pub fn push_debug_group(&mut self, reg: &mut Registry, group_label: &str)
        requires
            old(self).wf(*old(reg)),
            crate::marshal::c_str_ok(group_label),
        ensures
            *final(self) == *old(self),
            final(reg).objects == old(reg).objects,
            final(reg).shared_devices == old(reg).shared_devices,
            final(reg).table == old(reg).table,
            final(reg).errors == old(reg).errors,
            final(reg).calls@.len() == old(reg).calls@.len() + 1,
            final(reg).calls@.subrange(0, old(reg).calls@.len() as int) == old(reg).calls@,
            (final(reg).calls@.last() matches NativeCall::Encode { target, op } && target == old(
                self,
            ).raw() && (op matches EncodeOp::PushDebugGroup { label } && label@ == spec_c_str(group_label))),
    {
        let label = marshal_c_str(group_label);
        reg.log_call(NativeCall::Encode { target: self.raw, op: (EncodeOp::PushDebugGroup { label }) });
        proof {
            assert(reg.calls@.subrange(0, old(reg).calls@.len() as int) =~= old(reg).calls@);
        }
    }

    pub fn pop_debug_group(&mut self, reg: &mut Registry)
        requires
            old(self).wf(*old(reg)),
        ensures
            *final(self) == *old(self),
            log_only_step(
                *old(reg),
                *final(reg),
                (NativeCall::Encode { target: old(self).raw(), op: (EncodeOp::PopDebugGroup) }),
            ),
    {
        reg.log_call(NativeCall::Encode { target: self.raw, op: (EncodeOp::PopDebugGroup) });
    }

    pub fn set_bind_group(&mut self, reg: &mut Registry, group_index: usize, bind_group: &BindGroup, dynamic_offsets: &[u32])
        requires
            old(self).wf(*old(reg)),
            group_index <= u32::MAX,
        ensures
            *final(self) == *old(self),
            final(reg).objects == old(reg).objects,
            final(reg).shared_devices == old(reg).shared_devices,
            final(reg).table == old(reg).table,
            final(reg).errors == old(reg).errors,
            final(reg).calls@.len() == old(reg).calls@.len() + 1,
            final(reg).calls@.subrange(0, old(reg).calls@.len() as int) == old(reg).calls@,
            (final(reg).calls@.last() matches NativeCall::Encode { target, op } && target == old(
                self,
            ).raw() && (op matches EncodeOp::SetBindGroup { index, group, dynamic_offsets: offs } && index == group_index as u32 && group == bind_group.raw() && offs@ == dynamic_offsets@)),
    {
        let offs = slice_to_vec(dynamic_offsets);
        reg.log_call(
            NativeCall::Encode {
                target: self.raw,
                op: (EncodeOp::SetBindGroup {
                    index: group_index as u32,
                    group: bind_group.raw,
                    dynamic_offsets: offs,
                }),
            },
        );
        proof {
            assert(reg.calls@.subrange(0, old(reg).calls@.len() as int) =~= old(reg).calls@);
        }
    }

    pub fn set_blend_color(&mut self, reg: &mut Registry, color: &Color)
        requires
            old(self).wf(*old(reg)),
        ensures
            *final(self) == *old(self),
            log_only_step(
                *old(reg),
                *final(reg),
                (NativeCall::Encode { target: old(self).raw(), op: (EncodeOp::SetBlendColor { color: *color }) }),
            ),
    {
        reg.log_call(NativeCall::Encode { target: self.raw, op: (EncodeOp::SetBlendColor { color: *color }) });
    }

    pub fn set_index_buffer(&mut self, reg: &mut Registry, index_buffer: &Buffer, offset: usize)
        requires
            old(self).wf(*old(reg)),
        ensures
            *final(self) == *old(self),
            log_only_step(
                *old(reg),
                *final(reg),
                (NativeCall::Encode { target: old(self).raw(), op: (EncodeOp::SetIndexBuffer { buffer: index_buffer.raw(), offset: offset as u64 }) }),
            ),
    {
        reg.log_call(NativeCall::Encode { target: self.raw, op: (EncodeOp::SetIndexBuffer { buffer: index_buffer.raw, offset: offset as u64 }) });
    }

    pub fn set_pipeline(&mut self, reg: &mut Registry, pipeline: &RenderPipeline)
        requires
            old(self).wf(*old(reg)),
        ensures
            *final(self) == *old(self),
            log_only_step(
                *old(reg),
                *final(reg),
                (NativeCall::Encode { target: old(self).raw(), op: (EncodeOp::SetPipeline { pipeline: pipeline.raw() }) }),
            ),
    {
        reg.log_call(NativeCall::Encode { target: self.raw, op: (EncodeOp::SetPipeline { pipeline: pipeline.raw }) });
    }

    pub fn set_scissor_rect(&mut self, reg: &mut Registry, x: u32, y: u32, width: u32, height: u32)
        requires
            old(self).wf(*old(reg)),
        ensures
            *final(self) == *old(self),
            log_only_step(
                *old(reg),
                *final(reg),
                (NativeCall::Encode { target: old(self).raw(), op: (EncodeOp::SetScissorRect { x, y, width, height }) }),
            ),
    {
        reg.log_call(NativeCall::Encode { target: self.raw, op: (EncodeOp::SetScissorRect { x, y, width, height }) });
    }

    pub fn set_stencil_reference(&mut self, reg: &mut Registry, reference: u32)
        requires
            old(self).wf(*old(reg)),
        ensures
            *final(self) == *old(self),
            log_only_step(
                *old(reg),
                *final(reg),
                (NativeCall::Encode { target: old(self).raw(), op: (EncodeOp::SetStencilReference { reference }) }),
            ),
    {
        reg.log_call(NativeCall::Encode { target: self.raw, op: (EncodeOp::SetStencilReference { reference }) });
    }

    pub fn set_vertex_buffer(&mut self, reg: &mut Registry, slot: usize, vertex_buffer: &Buffer, offset: usize)
        requires
            old(self).wf(*old(reg)),
            slot <= u32::MAX,
        ensures
            *final(self) == *old(self),
            log_only_step(
                *old(reg),
                *final(reg),
                (NativeCall::Encode { target: old(self).raw(), op: (EncodeOp::SetVertexBuffer { slot: slot as u32, buffer: vertex_buffer.raw(), offset: offset as u64 }) }),
            ),
    {
        reg.log_call(NativeCall::Encode { target: self.raw, op: (EncodeOp::SetVertexBuffer { slot: slot as u32, buffer: vertex_buffer.raw, offset: offset as u64 }) });
    }

    pub fn set_viewport(&mut self, reg: &mut Registry, x: F32Bits, y: F32Bits, width: F32Bits, height: F32Bits, min_depth: F32Bits, max_depth: F32Bits)
        requires
            old(self).wf(*old(reg)),
        ensures
            *final(self) == *old(self),
            log_only_step(
                *old(reg),
                *final(reg),
                (NativeCall::Encode { target: old(self).raw(), op: (EncodeOp::SetViewport { x, y, width, height, min_depth, max_depth }) }),
            ),
    {
        reg.log_call(NativeCall::Encode { target: self.raw, op: (EncodeOp::SetViewport { x, y, width, height, min_depth, max_depth }) });
    }
}

} // verus!
