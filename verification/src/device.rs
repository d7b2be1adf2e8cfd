//! The resource and pipeline builders of a device: each translates a
//! user-facing descriptor into the native representation and invokes the
//! native creation entry point, returning a fresh owned handle bound to the
//! issuing device.  Every native call here runs under the registry's
//! exclusive access, which serializes all work on the device.

use vstd::prelude::*;
use vstd::slice::slice_to_vec;

use crate::descriptors::{
    BindGroupDescriptor, BindGroupLayoutDescriptor, BufferDescriptor, CommandEncoderDescriptor,
    ComputePipelineDescriptor, PipelineLayoutDescriptor, RenderPipelineDescriptor,
    SamplerDescriptor, ShaderModuleDescriptor, TextureDescriptor,
};
use crate::enums::ErrorType;
use crate::flags::BufferUsage;
use crate::handles::{
    build_on_device, BindGroup, BindGroupLayout, Buffer, CommandEncoder, ComputePipeline, Device,
    PipelineLayout, Queue, RenderPipeline, Sampler, ShaderModule, Texture,
};
use crate::marshal::{
    bind_group_layout_marshals, bind_group_marshals, compute_pipeline_marshals, label_ok,
    marshal_bind_group, marshal_bind_group_layout, marshal_compute_pipeline, marshal_label,
    marshal_pipeline_layout, marshal_render_pipeline, marshal_sampler, marshal_texture,
    pipeline_layout_marshals, render_pipeline_marshals, render_pipeline_ok, sampler_marshals,
    spec_label_bytes, texture_marshals,
};
use crate::registry::{zero_bytes, HandleKind, NativeCall, Registry, SharedDevice};

verus! {

/// A process-supplied hook for the errors a device reports.  Registering it
/// with [`Device::set_error_callback`] makes the native implementation
/// deliver every uncaptured error (a message and its kind) to the registry's
/// error list, from which the process's callback is fed.
pub trait ErrorCallback {
    fn error(message: &str, error_type: ErrorType);
}

/// A transient mapped buffer: a writable region backed by the native
/// allocation.  `finish` unmaps it and yields the immutable buffer handle;
/// `discard` unmaps it without yielding the handle.  Both consume the
/// object, so the unmap happens on every exit path, exactly once.
#[derive(Debug)]
pub struct CreateBufferMapped {
    pub(crate) buffer: Buffer,
    /// The writable mapped region; its bytes become the buffer's contents
    /// when the mapping ends.
    pub data: Vec<u8>,
}

impl CreateBufferMapped {
    pub open(crate) spec fn wf(self, reg: Registry) -> bool {
        &&& self.buffer.wf(reg)
        &&& reg.object(self.buffer.raw()).mapped
        &&& self.data@.len() == reg.object(self.buffer.raw()).contents@.len()
    }

    /// The bytes currently written in the mapped region.
    pub open(crate) spec fn mapped_bytes(self) -> Seq<u8> {
        self.data@
    }

    pub open(crate) spec fn buffer_raw(self) -> usize {
        self.buffer.raw()
    }

    pub open(crate) spec fn device_cell(self) -> usize {
        self.buffer.device_cell()
    }

    /// Unmaps the region, committing the written bytes, and yields the
    /// buffer: the native object is referenced once for the returned handle,
    /// unmapped, and released once for the consumed mapping object.
    pub fn finish(self, reg: &mut Registry) -> (b: Buffer)
        requires
            self.wf(*old(reg)),
            old(reg).object(self.buffer_raw()).refcount < u64::MAX,
            old(reg).shared_device(self.device_cell()).strong < u64::MAX,
        ensures
            b.raw() == self.buffer_raw(),
            b.device_cell() == self.device_cell(),
            b.wf(*final(reg)),
            final(reg).object(b.raw()).contents@ == self.mapped_bytes(),
            !final(reg).object(b.raw()).mapped,
            final(reg).object(b.raw()).refcount == old(reg).object(b.raw()).refcount,
            final(reg).calls@ == old(reg).calls@.push(NativeCall::Retain { handle: b.raw() }).push(
                NativeCall::BufferUnmap { buffer: b.raw() },
            ).push(NativeCall::Release { handle: b.raw() }),
            final(reg).shared_devices@ == old(reg).shared_devices@,
            final(reg).table == old(reg).table,
            final(reg).errors == old(reg).errors,
            final(reg).objects@.len() == old(reg).objects@.len(),
            final(reg).object(b.raw()).kind == old(reg).object(b.raw()).kind,
            final(reg).object(b.raw()).commands == old(reg).object(b.raw()).commands,
            forall|k: int|
                0 <= k < old(reg).objects@.len() && k != b.raw() - 1
                    ==> final(reg).objects@[k] == old(reg).objects@[k],
    {
        let b = self.buffer.clone_handle(reg);
        reg.buffer_unmap(self.buffer.raw, self.data);
        let ghost s2 = *reg;
        reg.release(self.buffer.raw);
        reg.device_release(self.buffer.device.cell);
        proof {
            assert(reg.shared_devices@ =~= old(reg).shared_devices@);
            assert(reg.objects@ =~= old(reg).objects@.update(
                b.raw() - 1,
                (crate::registry::NativeObject {
                    mapped: false,
                    contents: self.data,
                    ..old(reg).object(b.raw())
                }),
            ));
        }
        b
    }

    /// Unmaps the region without yielding the buffer handle: the mapping
    /// object is consumed, the written bytes are still committed, the unmap
    /// happens exactly once, and the buffer is released exactly once.
    pub fn discard(self, reg: &mut Registry)
        requires
            self.wf(*old(reg)),
        ensures
            final(reg).calls@.subrange(0, old(reg).calls@.len() as int) == old(reg).calls@,
            final(reg).calls@[old(reg).calls@.len() as int] == (NativeCall::BufferUnmap {
                buffer: self.buffer_raw(),
            }),
            final(reg).calls@[old(reg).calls@.len() as int + 1] == (NativeCall::Release {
                handle: self.buffer_raw(),
            }),
            crate::laws::call_count(
                final(reg).calls@,
                (NativeCall::BufferUnmap { buffer: self.buffer_raw() }),
            ) == crate::laws::call_count(
                old(reg).calls@,
                (NativeCall::BufferUnmap { buffer: self.buffer_raw() }),
            ) + 1,
            crate::laws::release_count(final(reg).calls@, self.buffer_raw())
                == crate::laws::release_count(old(reg).calls@, self.buffer_raw()) + 1,
            !final(reg).object(self.buffer_raw()).mapped,
            final(reg).object(self.buffer_raw()).contents@ == self.mapped_bytes(),
            final(reg).object(self.buffer_raw()).refcount == old(reg).object(
                self.buffer_raw(),
            ).refcount - 1,
    {
        let ghost h = self.buffer.raw();
        let ghost unmap = NativeCall::BufferUnmap { buffer: h };
        let ghost rel = NativeCall::Release { handle: h };
        let ghost c0 = reg.calls@;
        reg.buffer_unmap(self.buffer.raw, self.data);
        let ghost c1 = reg.calls@;
        reg.release(self.buffer.raw);
        let ghost s2 = *reg;
        let ghost c2 = reg.calls@;
        proof {
            crate::laws::lemma_call_count_push(c0, unmap, unmap);
            crate::laws::lemma_call_count_push(c0, unmap, rel);
            crate::laws::lemma_call_count_push(c1, rel, unmap);
            crate::laws::lemma_call_count_push(c1, rel, rel);
        }
        reg.device_release(self.buffer.device.cell);
        proof {
            if s2.shared_device(self.device_cell()).strong == 1 {
                let sd = s2.shared_device(self.device_cell());
                assert(reg.calls@.subrange(0, c2.len() as int) =~= c2);
                assert(forall|j: int|
                    c2.len() <= j < reg.calls@.len() ==> #[trigger] reg.calls@[j] != unmap
                        && reg.calls@[j] != rel);
            } else {
                assert(reg.calls@ == c2);
            }
            assert(reg.calls@.subrange(0, c2.len() as int) =~= c2);
            crate::laws::lemma_call_count_extend_absent(c2, reg.calls@, unmap);
            crate::laws::lemma_call_count_extend_absent(c2, reg.calls@, rel);
            assert(reg.calls@.subrange(0, old(reg).calls@.len() as int) =~= old(reg).calls@);
        }
    }
}

impl Device {
    /// The default queue of the device: the cell's queue handle, referenced
    /// once more for the returned wrapper.
    pub fn default_queue(&self, reg: &mut Registry) -> (q: Queue)
        requires
            old(reg).device_alive(self.cell()),
            old(reg).object(
                old(reg).shared_device(self.cell()).raw_default_queue,
            ).refcount < u64::MAX,
            old(reg).shared_device(self.cell()).strong < u64::MAX,

        ensures
            q.wf(*final(reg)),
            q.raw() == old(reg).shared_device(self.cell()).raw_default_queue,
            q.device_cell() == self.cell(),
            q.scratch().len() == 0,
            final(reg).object(q.raw()).refcount == old(reg).object(q.raw()).refcount + 1,
            final(reg).calls@ == old(reg).calls@.push(NativeCall::Retain { handle: q.raw() }),
            final(reg).table == old(reg).table,
            final(reg).errors == old(reg).errors,
            final(reg).objects@.len() == old(reg).objects@.len(),
    {
        let raw = reg.shared_devices[self.cell - 1].raw_default_queue;
        reg.retain(raw);
        reg.device_retain(self.cell);
        Queue { raw, device: Device { cell: self.cell }, temp_commands: Vec::new() }
    }

    /// Creates a GPU buffer of `descriptor.size` zeroed bytes.
    pub fn create_buffer(&self, reg: &mut Registry, descriptor: &BufferDescriptor) -> (b: Buffer)
        requires
            old(reg).device_alive(self.cell()),
            old(reg).shared_device(self.cell()).strong < u64::MAX,
            old(reg).objects@.len() < usize::MAX,
            label_ok(descriptor.label),
            descriptor.size <= usize::MAX as u64,
        ensures
            b.device_cell() == self.cell(),
            b.wf(*final(reg)),
            crate::registry::device_create_step(*old(reg), *final(reg), b.raw(), self.cell()),
            final(reg).object(b.raw()).kind == HandleKind::Buffer,
            !final(reg).object(b.raw()).mapped,
            final(reg).object(b.raw()).contents@ == Seq::new(
                descriptor.size as nat,
                |i: int| 0u8,
            ),
            (final(reg).calls@.last() matches NativeCall::CreateBuffer {
                device,
                size,
                usage,
                label,
                mapped,
            } && device == old(reg).shared_device(self.cell()).raw && size == descriptor.size
                && usage == descriptor.usage.bits && label@ == spec_label_bytes(descriptor.label)
                && mapped == false),
    {
        let label = marshal_label(descriptor.label);
        let device_raw = self.raw(reg);
        let contents = zero_bytes(descriptor.size as usize);
        let raw = build_on_device(
            self,
            reg,
            HandleKind::Buffer,
            false,
            contents,
            Vec::new(),
            NativeCall::CreateBuffer {
                device: device_raw,
                size: descriptor.size,
                usage: descriptor.usage.bits,
                label,
                mapped: false,
            },
        );
        Buffer { raw, device: Device { cell: self.cell } }
    }

    /// Creates a buffer of `size` zeroed bytes with no label.
    pub fn create_buffer_with_size(&self, reg: &mut Registry, size: usize, usage: BufferUsage) -> (b:
        Buffer)
        requires
            old(reg).device_alive(self.cell()),
            old(reg).shared_device(self.cell()).strong < u64::MAX,
            old(reg).objects@.len() < usize::MAX,
            size <= usize::MAX as u64,
        ensures
            b.device_cell() == self.cell(),
            b.wf(*final(reg)),
            crate::registry::device_create_step(*old(reg), *final(reg), b.raw(), self.cell()),
            final(reg).object(b.raw()).kind == HandleKind::Buffer,
            final(reg).object(b.raw()).contents@ == Seq::new(size as nat, |i: int| 0u8),
            (final(reg).calls@.last() matches NativeCall::CreateBuffer { size: s, usage: u, .. }
                && s == size && u == usage.bits),
    {
        let size_u64: u64 = size as u64;
        self.create_buffer(reg, &BufferDescriptor { label: None, size: size_u64, usage })
    }

    /// Creates a buffer already mapped for CPU writes: the returned object
    /// exposes the writable region; `finish` commits and unmaps it.
    pub fn create_buffer_mapped(&self, reg: &mut Registry, descriptor: &BufferDescriptor) -> (m:
        CreateBufferMapped)
        requires
            old(reg).device_alive(self.cell()),
            old(reg).shared_device(self.cell()).strong < u64::MAX,
            old(reg).objects@.len() < usize::MAX,
            label_ok(descriptor.label),
            descriptor.size <= usize::MAX as u64,
        ensures
            m.wf(*final(reg)),
            m.device_cell() == self.cell(),
            m.mapped_bytes() == Seq::new(descriptor.size as nat, |i: int| 0u8),
            crate::registry::device_create_step(
                *old(reg),
                *final(reg),
                m.buffer_raw(),
                self.cell(),
            ),
            final(reg).object(m.buffer_raw()).kind == HandleKind::Buffer,
            final(reg).object(m.buffer_raw()).mapped,
            final(reg).object(m.buffer_raw()).contents@ == Seq::new(
                descriptor.size as nat,
                |i: int| 0u8,
            ),
            (final(reg).calls@.last() matches NativeCall::CreateBuffer {
                device,
                size,
                usage,
                label,
                mapped,
            } && device == old(reg).shared_device(self.cell()).raw && size == descriptor.size
                && usage == descriptor.usage.bits && label@ == spec_label_bytes(descriptor.label)
                && mapped == true),
    {
        let label = marshal_label(descriptor.label);
        let device_raw = self.raw(reg);
        let contents = zero_bytes(descriptor.size as usize);
        let data = zero_bytes(descriptor.size as usize);
        let raw = build_on_device(
            self,
            reg,
            HandleKind::Buffer,
            true,
            contents,
            Vec::new(),
            NativeCall::CreateBuffer {
                device: device_raw,
                size: descriptor.size,
                usage: descriptor.usage.bits,
                label,
                mapped: true,
            },
        );
        CreateBufferMapped { buffer: Buffer { raw, device: Device { cell: self.cell } }, data }
    }

    /// Creates a mapped buffer of `size` zeroed bytes with no label.
    pub fn create_buffer_mapped_with_size(
        &self,
        reg: &mut Registry,
        size: usize,
        usage: BufferUsage,
    ) -> (m: CreateBufferMapped)
        requires
            old(reg).device_alive(self.cell()),
            old(reg).shared_device(self.cell()).strong < u64::MAX,
            old(reg).objects@.len() < usize::MAX,
            size <= usize::MAX as u64,
        ensures
            m.wf(*final(reg)),
            m.device_cell() == self.cell(),
            m.mapped_bytes() == Seq::new(size as nat, |i: int| 0u8),
            crate::registry::device_create_step(
                *old(reg),
                *final(reg),
                m.buffer_raw(),
                self.cell(),
            ),
            final(reg).object(m.buffer_raw()).kind == HandleKind::Buffer,
            final(reg).object(m.buffer_raw()).mapped,
            (final(reg).calls@.last() matches NativeCall::CreateBuffer { size: s, usage: u, .. }
                && s == size && u == usage.bits),
    {
        let size_u64: u64 = size as u64;
        let descriptor = BufferDescriptor { label: None, size: size_u64, usage };
        self.create_buffer_mapped(reg, &descriptor)
    }

    /// Creates a buffer holding `data`: a mapped buffer is created with the
    /// map-write usage added, filled, and committed.
    pub fn create_buffer_with_data(&self, reg: &mut Registry, data: &[u8], usage: BufferUsage) -> (b:
        Buffer)
        requires
            old(reg).device_alive(self.cell()),
            old(reg).shared_device(self.cell()).strong + 1 < u64::MAX,
            old(reg).objects@.len() + 1 < usize::MAX,
            data@.len() <= usize::MAX as u64,
        ensures
            b.device_cell() == self.cell(),
            b.wf(*final(reg)),
            final(reg).object(b.raw()).kind == HandleKind::Buffer,
            final(reg).object(b.raw()).contents@ == data@,
            !final(reg).object(b.raw()).mapped,
            final(reg).objects@.len() == old(reg).objects@.len() + 1,
            final(reg).objects@.subrange(0, old(reg).objects@.len() as int) == old(reg).objects@,
            b.raw() == old(reg).objects@.len() + 1,
            final(reg).calls@.len() == old(reg).calls@.len() + 4,
            final(reg).calls@.subrange(0, old(reg).calls@.len() as int) == old(reg).calls@,
            (final(reg).calls@[old(reg).calls@.len() as int] matches NativeCall::CreateBuffer {
                size,
                usage: u,
                mapped,
                ..
            } && size == data@.len() && u == (usage.bits | 2) && mapped == true),
            final(reg).calls@[old(reg).calls@.len() as int + 1] == (NativeCall::Retain {
                handle: b.raw(),
            }),
            final(reg).calls@[old(reg).calls@.len() as int + 2] == (NativeCall::BufferUnmap {
                buffer: b.raw(),
            }),
            final(reg).calls@[old(reg).calls@.len() as int + 3] == (NativeCall::Release {
                handle: b.raw(),
            }),
    {
        let size: u64 = data.len() as u64;
        let m = self.create_buffer_mapped(
            reg,
            &BufferDescriptor {
                label: None,
                size,
                usage: usage.union(BufferUsage::map_write()),
            },
        );
        let ghost s1 = *reg;
        let filled = CreateBufferMapped { buffer: m.buffer, data: slice_to_vec(data) };
        let b = filled.finish(reg);
        proof {
            assert(s1.objects@.subrange(0, old(reg).objects@.len() as int) =~= old(reg).objects@);
            assert(reg.calls@.subrange(0, old(reg).calls@.len() as int) =~= old(reg).calls@);
            assert(reg.objects@.subrange(0, old(reg).objects@.len() as int) =~= old(reg).objects@);
        }
        b
    }

    /// Creates a command encoder to record GPU operations on this device.
    pub fn create_command_encoder(
        &self,
        reg: &mut Registry,
        descriptor: &CommandEncoderDescriptor,
    ) -> (e: CommandEncoder)
        requires
            old(reg).device_alive(self.cell()),
            old(reg).shared_device(self.cell()).strong < u64::MAX,
            old(reg).objects@.len() < usize::MAX,
            label_ok(descriptor.label),
        ensures
            e.device_cell() == self.cell(),
            e.wf(*final(reg)),
            crate::registry::device_create_step(*old(reg), *final(reg), e.raw(), self.cell()),
            final(reg).object(e.raw()).kind == HandleKind::CommandEncoder,
            final(reg).object(e.raw()).commands@.len() == 0,
            (final(reg).calls@.last() matches NativeCall::CreateCommandEncoder { device, label }
                && device == old(reg).shared_device(self.cell()).raw && label@ == spec_label_bytes(
                descriptor.label,
            )),
    {
        let label = marshal_label(descriptor.label);
        let device_raw = self.raw(reg);
        let raw = build_on_device(
            self,
            reg,
            HandleKind::CommandEncoder,
            false,
            Vec::new(),
            Vec::new(),
            NativeCall::CreateCommandEncoder { device: device_raw, label },
        );
        CommandEncoder { raw, device: Device { cell: self.cell } }
    }

    /// Creates a bind group layout, flattening each entry's binding type
    /// onto the native binding code plus auxiliary flags.
    pub fn create_bind_group_layout(
        &self,
        reg: &mut Registry,
        descriptor: &BindGroupLayoutDescriptor,
    ) -> (b: BindGroupLayout)
        requires
            old(reg).device_alive(self.cell()),
            old(reg).shared_device(self.cell()).strong < u64::MAX,
            old(reg).objects@.len() < usize::MAX,
            label_ok(descriptor.label),
        ensures
            b.device_cell() == self.cell(),
            b.wf(*final(reg)),
            crate::registry::device_create_step(*old(reg), *final(reg), b.raw(), self.cell()),
            final(reg).object(b.raw()).kind == HandleKind::BindGroupLayout,
            (final(reg).calls@.last() matches NativeCall::CreateBindGroupLayout {
                device,
                descriptor: nd,
            } && device == old(reg).shared_device(self.cell()).raw && bind_group_layout_marshals(
                nd,
                *descriptor,
            )),
    {
        let nd = marshal_bind_group_layout(descriptor);
        let device_raw = self.raw(reg);
        let raw = build_on_device(
            self,
            reg,
            HandleKind::BindGroupLayout,
            false,
            Vec::new(),
            Vec::new(),
            NativeCall::CreateBindGroupLayout { device: device_raw, descriptor: nd },
        );
        BindGroupLayout { raw, device: Device { cell: self.cell } }
    }

    /// Creates a bind group over a layout, collapsing each entry's resource
    /// onto the native binding slots.
    pub fn create_bind_group(&self, reg: &mut Registry, descriptor: &BindGroupDescriptor) -> (b:
        BindGroup)
        requires
            old(reg).device_alive(self.cell()),
            old(reg).shared_device(self.cell()).strong < u64::MAX,
            old(reg).objects@.len() < usize::MAX,
            label_ok(descriptor.label),
        ensures
            b.device_cell() == self.cell(),
            b.wf(*final(reg)),
            crate::registry::device_create_step(*old(reg), *final(reg), b.raw(), self.cell()),
            final(reg).object(b.raw()).kind == HandleKind::BindGroup,
            (final(reg).calls@.last() matches NativeCall::CreateBindGroup {
                device,
                descriptor: nd,
            } && device == old(reg).shared_device(self.cell()).raw && bind_group_marshals(
                nd,
                *descriptor,
            )),
    {
        let nd = marshal_bind_group(descriptor);
        let device_raw = self.raw(reg);
        let raw = build_on_device(
            self,
            reg,
            HandleKind::BindGroup,
            false,
            Vec::new(),
            Vec::new(),
            NativeCall::CreateBindGroup { device: device_raw, descriptor: nd },
        );
        BindGroup { raw, device: Device { cell: self.cell } }
    }

    /// Creates a pipeline layout over bind group layouts.
    pub fn create_pipeline_layout(
        &self,
        reg: &mut Registry,
        descriptor: &PipelineLayoutDescriptor,
    ) -> (p: PipelineLayout)
        requires
            old(reg).device_alive(self.cell()),
            old(reg).shared_device(self.cell()).strong < u64::MAX,
            old(reg).objects@.len() < usize::MAX,
            label_ok(descriptor.label),
            descriptor.bind_group_layouts@.len() < 0x1000_0000,
        ensures
            p.device_cell() == self.cell(),
            p.wf(*final(reg)),
            crate::registry::device_create_step(*old(reg), *final(reg), p.raw(), self.cell()),
            final(reg).object(p.raw()).kind == HandleKind::PipelineLayout,
            (final(reg).calls@.last() matches NativeCall::CreatePipelineLayout {
                device,
                descriptor: nd,
            } && device == old(reg).shared_device(self.cell()).raw && pipeline_layout_marshals(
                nd,
                *descriptor,
            )),
    {
        let nd = marshal_pipeline_layout(descriptor);
        let device_raw = self.raw(reg);
        let raw = build_on_device(
            self,
            reg,
            HandleKind::PipelineLayout,
            false,
            Vec::new(),
            Vec::new(),
            NativeCall::CreatePipelineLayout { device: device_raw, descriptor: nd },
        );
        PipelineLayout { raw, device: Device { cell: self.cell } }
    }

    /// Creates a compute pipeline.
    pub fn create_compute_pipeline(
        &self,
        reg: &mut Registry,
        descriptor: &ComputePipelineDescriptor,
    ) -> (p: ComputePipeline)
        requires
            old(reg).device_alive(self.cell()),
            old(reg).shared_device(self.cell()).strong < u64::MAX,
            old(reg).objects@.len() < usize::MAX,
            label_ok(descriptor.label),
            crate::marshal::c_str_ok(descriptor.compute_stage.entry_point),
        ensures
            p.device_cell() == self.cell(),
            p.wf(*final(reg)),
            crate::registry::device_create_step(*old(reg), *final(reg), p.raw(), self.cell()),
            final(reg).object(p.raw()).kind == HandleKind::ComputePipeline,
            (final(reg).calls@.last() matches NativeCall::CreateComputePipeline {
                device,
                descriptor: nd,
            } && device == old(reg).shared_device(self.cell()).raw && compute_pipeline_marshals(
                nd,
                *descriptor,
            )),
    {
        let nd = marshal_compute_pipeline(descriptor);
        let device_raw = self.raw(reg);
        let raw = build_on_device(
            self,
            reg,
            HandleKind::ComputePipeline,
            false,
            Vec::new(),
            Vec::new(),
            NativeCall::CreateComputePipeline { device: device_raw, descriptor: nd },
        );
        ComputePipeline { raw, device: Device { cell: self.cell } }
    }

    /// Creates a render pipeline, flattening the vertex state's per-slot
    /// attribute lists into one contiguous vector as the native layout wants.
    pub fn create_render_pipeline(
        &self,
        reg: &mut Registry,
        descriptor: &RenderPipelineDescriptor,
    ) -> (p: RenderPipeline)
        requires
            old(reg).device_alive(self.cell()),
            old(reg).shared_device(self.cell()).strong < u64::MAX,
            old(reg).objects@.len() < usize::MAX,
            render_pipeline_ok(*descriptor),
        ensures
            p.device_cell() == self.cell(),
            p.wf(*final(reg)),
            crate::registry::device_create_step(*old(reg), *final(reg), p.raw(), self.cell()),
            final(reg).object(p.raw()).kind == HandleKind::RenderPipeline,
            (final(reg).calls@.last() matches NativeCall::CreateRenderPipeline {
                device,
                descriptor: nd,
            } && device == old(reg).shared_device(self.cell()).raw && render_pipeline_marshals(
                nd,
                *descriptor,
            )),
    {
        let nd = marshal_render_pipeline(descriptor);
        let device_raw = self.raw(reg);
        let raw = build_on_device(
            self,
            reg,
            HandleKind::RenderPipeline,
            false,
            Vec::new(),
            Vec::new(),
            NativeCall::CreateRenderPipeline { device: device_raw, descriptor: nd },
        );
        RenderPipeline { raw, device: Device { cell: self.cell } }
    }

    /// Creates a sampler.
    pub fn create_sampler(&self, reg: &mut Registry, descriptor: &SamplerDescriptor) -> (s: Sampler)
        requires
            old(reg).device_alive(self.cell()),
            old(reg).shared_device(self.cell()).strong < u64::MAX,
            old(reg).objects@.len() < usize::MAX,
            label_ok(descriptor.label),
        ensures
            s.device_cell() == self.cell(),
            s.wf(*final(reg)),
            crate::registry::device_create_step(*old(reg), *final(reg), s.raw(), self.cell()),
            final(reg).object(s.raw()).kind == HandleKind::Sampler,
            (final(reg).calls@.last() matches NativeCall::CreateSampler {
                device,
                descriptor: nd,
            } && device == old(reg).shared_device(self.cell()).raw && sampler_marshals(
                nd,
                *descriptor,
            )),
    {
        let nd = marshal_sampler(descriptor);
        let device_raw = self.raw(reg);
        let raw = build_on_device(
            self,
            reg,
            HandleKind::Sampler,
            false,
            Vec::new(),
            Vec::new(),
            NativeCall::CreateSampler { device: device_raw, descriptor: nd },
        );
        Sampler { raw, device: Device { cell: self.cell } }
    }

    /// Creates a shader module from bytecode words.
    pub fn create_shader_module(
        &self,
        reg: &mut Registry,
        descriptor: &ShaderModuleDescriptor,
    ) -> (s: ShaderModule)
        requires
            old(reg).device_alive(self.cell()),
            old(reg).shared_device(self.cell()).strong < u64::MAX,
            old(reg).objects@.len() < usize::MAX,
            label_ok(descriptor.label),
        ensures
            s.device_cell() == self.cell(),
            s.wf(*final(reg)),
            crate::registry::device_create_step(*old(reg), *final(reg), s.raw(), self.cell()),
            final(reg).object(s.raw()).kind == HandleKind::ShaderModule,
            (final(reg).calls@.last() matches NativeCall::CreateShaderModule {
                device,
                code,
                label,
            } && device == old(reg).shared_device(self.cell()).raw && code@ == descriptor.code@
                && label@ == spec_label_bytes(descriptor.label)),
    {
        let label = marshal_label(descriptor.label);
        let device_raw = self.raw(reg);
        let code = slice_to_vec(descriptor.code);
        let raw = build_on_device(
            self,
            reg,
            HandleKind::ShaderModule,
            false,
            Vec::new(),
            Vec::new(),
            NativeCall::CreateShaderModule { device: device_raw, code, label },
        );
        ShaderModule { raw, device: Device { cell: self.cell } }
    }

    /// Creates an unlabeled shader module from bytecode words.
    pub fn create_shader_module_with_code(&self, reg: &mut Registry, spirv: &[u32]) -> (s:
        ShaderModule)
        requires
            old(reg).device_alive(self.cell()),
            old(reg).shared_device(self.cell()).strong < u64::MAX,
            old(reg).objects@.len() < usize::MAX,
        ensures
            s.device_cell() == self.cell(),
            s.wf(*final(reg)),
            crate::registry::device_create_step(*old(reg), *final(reg), s.raw(), self.cell()),
            final(reg).object(s.raw()).kind == HandleKind::ShaderModule,
            (final(reg).calls@.last() matches NativeCall::CreateShaderModule { code, .. } && code@
                == spirv@),
    {
        self.create_shader_module(reg, &ShaderModuleDescriptor { label: None, code: spirv })
    }

    /// Creates a texture.
    pub fn create_texture(&self, reg: &mut Registry, descriptor: &TextureDescriptor) -> (t: Texture)
        requires
            old(reg).device_alive(self.cell()),
            old(reg).shared_device(self.cell()).strong < u64::MAX,
            old(reg).objects@.len() < usize::MAX,
            label_ok(descriptor.label),
        ensures
            t.device_cell() == self.cell(),
            t.wf(*final(reg)),
            crate::registry::device_create_step(*old(reg), *final(reg), t.raw(), self.cell()),
            final(reg).object(t.raw()).kind == HandleKind::Texture,
            (final(reg).calls@.last() matches NativeCall::CreateTexture {
                device,
                descriptor: nd,
            } && device == old(reg).shared_device(self.cell()).raw && texture_marshals(
                nd,
                *descriptor,
            )),
    {
        let nd = marshal_texture(descriptor);
        let device_raw = self.raw(reg);
        let raw = build_on_device(
            self,
            reg,
            HandleKind::Texture,
            false,
            Vec::new(),
            Vec::new(),
            NativeCall::CreateTexture { device: device_raw, descriptor: nd },
        );
        Texture { raw, device: Device { cell: self.cell } }
    }

    /// Polls the device for asynchronous completions: a plain native call.
    pub fn tick(&self, reg: &mut Registry)
        requires
            old(reg).device_alive(self.cell()),
        ensures
            final(reg).calls@ == old(reg).calls@.push(
                NativeCall::Tick { device: old(reg).shared_device(self.cell()).raw },
            ),
            final(reg).objects == old(reg).objects,
            final(reg).shared_devices == old(reg).shared_devices,
            final(reg).table == old(reg).table,
            final(reg).errors == old(reg).errors,
    {
        let device_raw = self.raw(reg);
        reg.log_call(NativeCall::Tick { device: device_raw });
    }

    /// Injects an error into the device, as the native debugging entry point
    /// does; the registered callback, if any, receives it.
    pub fn inject_error(&self, reg: &mut Registry, message: &str, ty: ErrorType)
        requires
            old(reg).device_alive(self.cell()),
            crate::marshal::c_str_ok(message),
        ensures
            final(reg).calls@.len() == old(reg).calls@.len() + 1,
            final(reg).calls@.subrange(0, old(reg).calls@.len() as int) == old(reg).calls@,
            (final(reg).calls@.last() matches NativeCall::InjectError {
                device,
                error_type,
                message: m,
            } && device == old(reg).shared_device(self.cell()).raw && error_type == ty && m@
                == crate::marshal::spec_c_str(message)),
            old(reg).shared_device(self.cell()).error_callback ==> (final(reg).errors@.len() == old(
                reg,
            ).errors@.len() + 1 && final(reg).errors@.subrange(0, old(reg).errors@.len() as int)
                == old(reg).errors@ && (final(reg).errors@.last()
                matches crate::registry::ErrorReport { device, error_type, message: m } && device
                == old(reg).shared_device(self.cell()).raw && error_type == ty && m@
                == crate::marshal::spec_c_str(message))),
            !old(reg).shared_device(self.cell()).error_callback ==> final(reg).errors == old(
                reg,
            ).errors,
            final(reg).objects == old(reg).objects,
            final(reg).shared_devices == old(reg).shared_devices,
            final(reg).table == old(reg).table,
    {
        let bytes = crate::marshal::marshal_c_str(message);
        let device_raw = self.raw(reg);
        let registered = reg.shared_devices[self.cell - 1].error_callback;
        reg.calls.push(
            NativeCall::InjectError { device: device_raw, error_type: ty, message: bytes },
        );
        if registered {
            let report_bytes = crate::marshal::marshal_c_str(message);
            reg.errors.push(
                crate::registry::ErrorReport {
                    device: device_raw,
                    error_type: ty,
                    message: report_bytes,
                },
            );
        }
        proof {
            assert(reg.calls@.subrange(0, old(reg).calls@.len() as int) =~= old(reg).calls@);
            if old(reg).shared_device(self.cell()).error_callback {
                assert(reg.errors@.subrange(0, old(reg).errors@.len() as int) =~= old(reg).errors@);
            }
        }
    }

    /// Registers the process-supplied uncaptured-error callback on this
    /// device: from here on the native implementation delivers every error
    /// it reports to the registry's error list.
    pub fn set_error_callback(&self, reg: &mut Registry)
        requires
            old(reg).device_alive(self.cell()),
        ensures
            final(reg).shared_devices@ == old(reg).shared_devices@.update(
                self.cell() - 1,
                (SharedDevice { error_callback: true, ..old(reg).shared_device(self.cell()) }),
            ),
            final(reg).calls@ == old(reg).calls@.push(
                NativeCall::SetErrorCallback {
                    device: old(reg).shared_device(self.cell()).raw,
                },
            ),
            final(reg).objects == old(reg).objects,
            final(reg).table == old(reg).table,
            final(reg).errors == old(reg).errors,
    {
        let device_raw = self.raw(reg);
        self.set_error_callback_flag(reg);
        reg.calls.push(NativeCall::SetErrorCallback { device: device_raw });
    }

    fn set_error_callback_flag(&self, reg: &mut Registry)
        requires
            old(reg).device_alive(self.cell()),
        ensures
            final(reg).shared_devices@ == old(reg).shared_devices@.update(
                self.cell() - 1,
                (SharedDevice { error_callback: true, ..old(reg).shared_device(self.cell()) }),
            ),
            final(reg).objects == old(reg).objects,
            final(reg).calls == old(reg).calls,
            final(reg).table == old(reg).table,
            final(reg).errors == old(reg).errors,
    {
        reg.shared_devices[self.cell - 1].error_callback = true;
    }
}

} // verus!
