//! The wrapped native handles.
//!
//! Every GPU object is represented by a wrapper pairing the raw native
//! handle with whatever keeps its parent alive (a resource holds its device,
//! a surface its instance).  The retain/release discipline is implemented
//! once, in [`clone_parts`] and [`release_parts`]: duplicating a wrapper
//! retains the native object exactly once, and releasing a wrapper releases
//! it exactly once, after which the wrapper is gone and the handle can no
//! longer be used.  Raw handles are never handed out for external copying.

use vstd::prelude::*;

use crate::registry::{
    clone_handle_step, drop_handle_step, HandleKind, NativeCall, Registry, SharedDevice,
};

verus! {

/// An instance of the native API: the root object adapters are discovered
/// from.
#[derive(Debug)]
pub struct Instance {
    pub(crate) raw: usize,
}

/// A description of one physical GPU and its backend, discovered from an
/// instance.  It keeps the instance alive through a native reference.
#[derive(Debug)]
pub struct Adapter {
    pub(crate) instance: usize,
    pub(crate) adapter_index: usize,
}

/// A logical device: shared, reference-counted state (raw device handle,
/// raw default-queue handle, owning adapter, backend kind) shared by every
/// resource created from it.  All native calls that touch the device are
/// serialized by exclusive access to the [`Registry`].
#[derive(Debug)]
pub struct Device {
    pub(crate) cell: usize,
}

/// A window-system surface, created from an instance.
#[derive(Debug)]
pub struct Surface {
    pub(crate) raw: usize,
    pub(crate) instance: Instance,
}

#[derive(Debug)]
pub struct Buffer {
    pub(crate) raw: usize,
    pub(crate) device: Device,
}

#[derive(Debug)]
pub struct Texture {
    pub(crate) raw: usize,
    pub(crate) device: Device,
}

#[derive(Debug)]
pub struct TextureView {
    pub(crate) raw: usize,
    pub(crate) device: Device,
}

#[derive(Debug)]
pub struct Sampler {
    pub(crate) raw: usize,
    pub(crate) device: Device,
}

#[derive(Debug)]
pub struct BindGroupLayout {
    pub(crate) raw: usize,
    pub(crate) device: Device,
}

#[derive(Debug)]
pub struct BindGroup {
    pub(crate) raw: usize,
    pub(crate) device: Device,
}

#[derive(Debug)]
pub struct ShaderModule {
    pub(crate) raw: usize,
    pub(crate) device: Device,
}

#[derive(Debug)]
pub struct PipelineLayout {
    pub(crate) raw: usize,
    pub(crate) device: Device,
}

#[derive(Debug)]
pub struct RenderPipeline {
    pub(crate) raw: usize,
    pub(crate) device: Device,
}

#[derive(Debug)]
pub struct ComputePipeline {
    pub(crate) raw: usize,
    pub(crate) device: Device,
}

/// A builder recording GPU operations; consumed by `finish`, which yields an
/// immutable command buffer.  While a render or compute pass is open, the
/// pass encoder owns this encoder, so the encoder cannot be used or finished
/// until the pass has ended.
#[derive(Debug)]
pub struct CommandEncoder {
    pub(crate) raw: usize,
    pub(crate) device: Device,
}

/// An immutable, finished recording, ready for submission.
#[derive(Debug)]
pub struct CommandBuffer {
    pub(crate) raw: usize,
    pub(crate) device: Device,
}

#[derive(Debug)]
pub struct Fence {
    pub(crate) raw: usize,
    pub(crate) device: Device,
}

/// The device's execution entry point.  It owns a reusable scratch list of
/// raw command-buffer handles so a submission does not allocate.
#[derive(Debug)]
pub struct Queue {
    pub(crate) raw: usize,
    pub(crate) device: Device,
    pub(crate) temp_commands: Vec<usize>,
}

#[derive(Debug)]
pub struct RenderBundle {
    pub(crate) raw: usize,
    pub(crate) device: Device,
}

#[derive(Debug)]
pub struct RenderBundleEncoder {
    pub(crate) raw: usize,
    pub(crate) device: Device,
}

/// A compute pass: owns its parent command encoder for the duration of the
/// pass, and returns it when the pass ends.
#[derive(Debug)]
pub struct ComputePassEncoder {
    pub(crate) raw: usize,
    pub(crate) parent: CommandEncoder,
}

/// A render pass: owns its parent command encoder for the duration of the
/// pass, and returns it when the pass ends.
#[derive(Debug)]
pub struct RenderPassEncoder {
    pub(crate) raw: usize,
    pub(crate) parent: CommandEncoder,
}

impl Instance {
    /// The raw native handle, as a projection for contracts.
    pub open(crate) spec fn raw(self) -> usize {
        self.raw
    }

    pub open spec fn wf(self, reg: Registry) -> bool {
        reg.live_as(self.raw(), HandleKind::Instance)
    }
}

impl Adapter {
    pub open(crate) spec fn instance_raw(self) -> usize {
        self.instance
    }

    pub open(crate) spec fn index(self) -> usize {
        self.adapter_index
    }

    pub open spec fn wf(self, reg: Registry) -> bool {
        &&& reg.live_as(self.instance_raw(), HandleKind::Instance)
        &&& reg.initialized()
        &&& self.index() < reg.adapters().len()
    }
}

impl Device {
    /// The index of the shared device cell this handle is a clone of.
    pub open(crate) spec fn cell(self) -> usize {
        self.cell
    }

    pub open spec fn wf(self, reg: Registry) -> bool {
        reg.device_alive(self.cell())
    }

    /// The shared state behind this handle.
    pub open spec fn shared(self, reg: Registry) -> SharedDevice {
        reg.shared_device(self.cell())
    }
}

/// The wrapper invariant every device-owned handle maintains: its raw handle
/// names a live native object of the wrapper's kind, and the device that
/// issued it is still alive (children keep their parents alive).
pub open spec fn handle_wf(reg: Registry, raw: usize, cell: usize, kind: HandleKind) -> bool {
    &&& reg.live_as(raw, kind)
    &&& reg.device_alive(cell)
}

/// Duplicates a device-owned handle: retains the native object exactly once
/// and takes one more clone of the shared device cell.  Implemented once and
/// shared by every clonable wrapper type.
pub(crate) fn clone_parts(raw: usize, device: &Device, reg: &mut Registry) -> (r: (usize, Device))
    requires
        old(reg).is_live(raw),
        old(reg).object(raw).refcount < u64::MAX,
        old(reg).device_alive(device.cell()),
        old(reg).shared_device(device.cell()).strong < u64::MAX,
    ensures
        r.0 == raw,
        r.1.cell() == device.cell(),
        clone_handle_step(*old(reg), *final(reg), raw, device.cell()),
{
    reg.retain(raw);
    reg.device_retain(device.cell);
    (raw, Device { cell: device.cell })
}

/// Releases a device-owned handle: releases the native object exactly once,
/// then drops the wrapper's clone of the shared device cell (which, for the
/// last clone, releases the queue, the device and the adapter's instance).
/// Implemented once and shared by every wrapper type.
pub(crate) fn release_parts(raw: usize, device: Device, reg: &mut Registry)
    requires
        old(reg).is_live(raw),
        old(reg).device_alive(device.cell()),
        old(reg).object(raw).kind != HandleKind::Device,
        old(reg).object(raw).kind != HandleKind::Instance,
        // A queue wrapper shares its handle with the device cell, which owns
        // a reference of its own, so the wrapper's reference is never the
        // last one before the cell's.
        old(reg).object(raw).kind == HandleKind::Queue ==> old(reg).object(raw).refcount > 1,
    ensures
        drop_handle_step(*old(reg), *final(reg), raw, device.cell()),
{
    reg.release(raw);
    reg.device_release(device.cell);
}

/// The common shape of every builder: the new native object is created with
/// one owner, the creation call is logged, and the new wrapper takes one
/// more clone of the issuing device's cell.  Implemented once and shared by
/// every builder.
pub(crate) fn build_on_device(
    dev: &Device,
    reg: &mut Registry,
    kind: HandleKind,
    mapped: bool,
    contents: Vec<u8>,
    commands: Vec<crate::registry::BufferCopy>,
    call: NativeCall,
) -> (h: usize)
    requires
        old(reg).device_alive(dev.cell()),
        old(reg).shared_device(dev.cell()).strong < u64::MAX,
        old(reg).objects@.len() < usize::MAX,
    ensures
        crate::registry::device_create_step(*old(reg), *final(reg), h, dev.cell()),
        final(reg).object(h).kind == kind,
        final(reg).object(h).mapped == mapped,
        final(reg).object(h).contents == contents,
        final(reg).object(h).commands == commands,
        final(reg).calls@ == old(reg).calls@.push(call),
        handle_wf(*final(reg), h, dev.cell(), kind),
        final(reg).device_alive(dev.cell()),
        final(reg).shared_device(dev.cell()) == (SharedDevice {
            strong: (old(reg).shared_device(dev.cell()).strong + 1) as u64,
            ..old(reg).shared_device(dev.cell())
        }),
{
    reg.device_retain(dev.cell);
    let ghost s1 = *reg;
    let h = reg.raw_create(kind, mapped, contents, commands, call);
    proof {
        let sd = old(reg).shared_device(dev.cell());
        assert(reg.objects@[sd.raw - 1] == reg.objects@.subrange(0, s1.objects@.len() as int)[sd.raw
            - 1]);
        assert(reg.objects@[sd.raw_default_queue - 1] == reg.objects@.subrange(
            0,
            s1.objects@.len() as int,
        )[sd.raw_default_queue - 1]);
        assert(reg.objects@[sd.adapter_instance - 1] == reg.objects@.subrange(
            0,
            s1.objects@.len() as int,
        )[sd.adapter_instance - 1]);
        assert(reg.device_alive(dev.cell()));
    }
    h
}

impl Device {
    /// One more clone of this device handle.  Cloning is host-side sharing
    /// of the device cell; it makes no native call.
    pub fn clone_handle(&self, reg: &mut Registry) -> (r: Device)
        requires
            old(reg).device_alive(self.cell()),
            old(reg).shared_device(self.cell()).strong < u64::MAX,
        ensures
            r.cell() == self.cell(),
            r.wf(*final(reg)),
            final(reg).shared_devices@ == old(reg).shared_devices@.update(
                self.cell() - 1,
                (SharedDevice {
                    strong: (old(reg).shared_device(self.cell()).strong + 1) as u64,
                    ..old(reg).shared_device(self.cell())
                }),
            ),
            final(reg).objects == old(reg).objects,
            final(reg).calls == old(reg).calls,
            final(reg).table == old(reg).table,
            final(reg).errors == old(reg).errors,
    {
        reg.device_retain(self.cell);
        Device { cell: self.cell }
    }

    /// Drops this clone of the device.  When the last clone goes, the
    /// default queue, the device and the adapter's instance reference are
    /// released, each exactly once.
    pub fn release(self, reg: &mut Registry)
        requires
            old(reg).device_alive(self.cell()),
        ensures
            old(reg).shared_device(self.cell()).strong > 1
                ==> crate::registry::device_unshare_step(*old(reg), *final(reg), self.cell()),
            old(reg).shared_device(self.cell()).strong == 1
                ==> crate::registry::device_drop_last_step(*old(reg), *final(reg), self.cell()),
    {
        reg.device_release(self.cell);
    }

    /// The raw native device handle, read under the device's serialization.
    pub fn raw(&self, reg: &Registry) -> (r: usize)
        requires
            reg.device_alive(self.cell()),
        ensures
            r == self.shared(*reg).raw,
    {
        self.shared_devices_raw(reg)
    }

    fn shared_devices_raw(&self, reg: &Registry) -> (r: usize)
        requires
            reg.device_alive(self.cell()),
        ensures
            r == reg.shared_device(self.cell()).raw,
    {
        reg.shared_devices[self.cell - 1].raw
    }
}

impl Instance {
    /// Duplicates the instance handle, retaining the native instance once.
    pub fn clone_handle(&self, reg: &mut Registry) -> (r: Instance)
        requires
            old(reg).live_as(self.raw(), HandleKind::Instance),
            old(reg).object(self.raw()).refcount < u64::MAX,
        ensures
            r.raw() == self.raw(),
            crate::registry::retain_step(*old(reg), *final(reg), self.raw()),
            r.wf(*final(reg)),
    {
        reg.retain(self.raw);
        Instance { raw: self.raw }
    }

    /// Releases the instance handle exactly once.
    pub fn release(self, reg: &mut Registry)
        requires
            old(reg).is_live(self.raw()),
        ensures
            crate::registry::release_step(*old(reg), *final(reg), self.raw()),
    {
        reg.release(self.raw);
    }
}

impl Adapter {
    /// An adapter is a pair of the instance it was discovered from and its
    /// index; it keeps the instance alive through one native reference.
    pub(crate) fn from_raw(instance: usize, adapter_index: usize, reg: &mut Registry) -> (r:
        Adapter)
        requires
            old(reg).live_as(instance, HandleKind::Instance),
            old(reg).object(instance).refcount < u64::MAX,
        ensures
            r.instance_raw() == instance,
            r.index() == adapter_index,
            crate::registry::retain_step(*old(reg), *final(reg), instance),
    {
        reg.retain(instance);
        Adapter { instance, adapter_index }
    }

    /// Duplicates the adapter, retaining the instance once more.
    pub fn clone_handle(&self, reg: &mut Registry) -> (r: Adapter)
        requires
            old(reg).live_as(self.instance_raw(), HandleKind::Instance),
            old(reg).object(self.instance_raw()).refcount < u64::MAX,
        ensures
            r.instance_raw() == self.instance_raw(),
            r.index() == self.index(),
            crate::registry::retain_step(*old(reg), *final(reg), self.instance_raw()),
    {
        Adapter::from_raw(self.instance, self.adapter_index, reg)
    }

    /// Releases the adapter's reference on the instance exactly once.
    pub fn release(self, reg: &mut Registry)
        requires
            old(reg).is_live(self.instance_raw()),
        ensures
            crate::registry::release_step(*old(reg), *final(reg), self.instance_raw()),
    {
        reg.release(self.instance);
    }
}

impl Surface {
    pub open(crate) spec fn raw(self) -> usize {
        self.raw
    }

    pub open(crate) spec fn instance_raw(self) -> usize {
        self.instance.raw
    }

    pub open spec fn wf(self, reg: Registry) -> bool {
        &&& reg.live_as(self.raw(), HandleKind::Surface)
        &&& reg.live_as(self.instance_raw(), HandleKind::Instance)
    }

    /// Duplicates the surface: retains the native surface once and the
    /// owning instance once.
    pub fn clone_handle(&self, reg: &mut Registry) -> (r: Surface)
        requires
            self.wf(*old(reg)),
            old(reg).object(self.raw()).refcount < u64::MAX,
            old(reg).object(self.instance_raw()).refcount < u64::MAX,
        ensures
            r.raw() == self.raw(),
            r.instance_raw() == self.instance_raw(),
            r.wf(*final(reg)),
            final(reg).objects@ == old(reg).objects@.update(
                self.raw() - 1,
                old(reg).object(self.raw()).retained(),
            ).update(self.instance_raw() - 1, old(reg).object(self.instance_raw()).retained()),
            final(reg).calls@ == old(reg).calls@.push(
                NativeCall::Retain { handle: self.raw() },
            ).push(NativeCall::Retain { handle: self.instance_raw() }),
            final(reg).table == old(reg).table,
            final(reg).shared_devices == old(reg).shared_devices,
            final(reg).errors == old(reg).errors,
    {
        reg.retain(self.raw);
        reg.retain(self.instance.raw);
        Surface { raw: self.raw, instance: Instance { raw: self.instance.raw } }
    }

    /// Releases the surface and its reference on the owning instance, each
    /// exactly once.
    pub fn release(self, reg: &mut Registry)
        requires
            self.wf(*old(reg)),
        ensures
            final(reg).objects@ == old(reg).objects@.update(
                self.raw() - 1,
                old(reg).object(self.raw()).released(),
            ).update(self.instance_raw() - 1, old(reg).object(self.instance_raw()).released()),
            final(reg).calls@ == old(reg).calls@.push(
                NativeCall::Release { handle: self.raw() },
            ).push(NativeCall::Release { handle: self.instance_raw() }),
            final(reg).table == old(reg).table,
            final(reg).shared_devices == old(reg).shared_devices,
            final(reg).errors == old(reg).errors,
    {
        reg.release(self.raw);
        reg.release(self.instance.raw);
    }
}

impl Buffer {
    pub open(crate) spec fn raw(self) -> usize {
        self.raw
    }

    pub open(crate) spec fn device_cell(self) -> usize {
        self.device.cell
    }

    pub open spec fn wf(self, reg: Registry) -> bool {
        handle_wf(reg, self.raw(), self.device_cell(), HandleKind::Buffer)
    }

    /// Duplicates the handle: the native object is retained exactly once,
    /// and both wrappers are independently releasable afterwards.
    pub fn clone_handle(&self, reg: &mut Registry) -> (r: Buffer)
        requires
            self.wf(*old(reg)),
            old(reg).object(self.raw()).refcount < u64::MAX,
            old(reg).shared_device(self.device_cell()).strong < u64::MAX,
        ensures
            r.raw() == self.raw(),
            r.device_cell() == self.device_cell(),
            r.wf(*final(reg)),
            self.wf(*final(reg)),
            clone_handle_step(*old(reg), *final(reg), self.raw(), self.device_cell()),
    {
        let (raw, device) = clone_parts(self.raw, &self.device, reg);
        Buffer { raw, device }
    }

    /// Releases the handle: the native object is released exactly once, and
    /// the wrapper is gone, so the handle cannot be used afterwards.
    pub fn release(self, reg: &mut Registry)
        requires
            self.wf(*old(reg)),
        ensures
            drop_handle_step(*old(reg), *final(reg), self.raw(), self.device_cell()),
    {
        release_parts(self.raw, self.device, reg);
    }
}

impl Texture {
    pub open(crate) spec fn raw(self) -> usize {
        self.raw
    }

    pub open(crate) spec fn device_cell(self) -> usize {
        self.device.cell
    }

    pub open spec fn wf(self, reg: Registry) -> bool {
        handle_wf(reg, self.raw(), self.device_cell(), HandleKind::Texture)
    }

    /// Duplicates the handle: the native object is retained exactly once,
    /// and both wrappers are independently releasable afterwards.
    pub fn clone_handle(&self, reg: &mut Registry) -> (r: Texture)
        requires
            self.wf(*old(reg)),
            old(reg).object(self.raw()).refcount < u64::MAX,
            old(reg).shared_device(self.device_cell()).strong < u64::MAX,
        ensures
            r.raw() == self.raw(),
            r.device_cell() == self.device_cell(),
            r.wf(*final(reg)),
            self.wf(*final(reg)),
            clone_handle_step(*old(reg), *final(reg), self.raw(), self.device_cell()),
    {
        let (raw, device) = clone_parts(self.raw, &self.device, reg);
        Texture { raw, device }
    }

    /// Releases the handle: the native object is released exactly once, and
    /// the wrapper is gone, so the handle cannot be used afterwards.
    pub fn release(self, reg: &mut Registry)
        requires
            self.wf(*old(reg)),
        ensures
            drop_handle_step(*old(reg), *final(reg), self.raw(), self.device_cell()),
    {
        release_parts(self.raw, self.device, reg);
    }
}

impl TextureView {
    pub open(crate) spec fn raw(self) -> usize {
        self.raw
    }

    pub open(crate) spec fn device_cell(self) -> usize {
        self.device.cell
    }

    pub open spec fn wf(self, reg: Registry) -> bool {
        handle_wf(reg, self.raw(), self.device_cell(), HandleKind::TextureView)
    }

    /// Duplicates the handle: the native object is retained exactly once,
    /// and both wrappers are independently releasable afterwards.
    pub fn clone_handle(&self, reg: &mut Registry) -> (r: TextureView)
        requires
            self.wf(*old(reg)),
            old(reg).object(self.raw()).refcount < u64::MAX,
            old(reg).shared_device(self.device_cell()).strong < u64::MAX,
        ensures
            r.raw() == self.raw(),
            r.device_cell() == self.device_cell(),
            r.wf(*final(reg)),
            self.wf(*final(reg)),
            clone_handle_step(*old(reg), *final(reg), self.raw(), self.device_cell()),
    {
        let (raw, device) = clone_parts(self.raw, &self.device, reg);
        TextureView { raw, device }
    }

    /// Releases the handle: the native object is released exactly once, and
    /// the wrapper is gone, so the handle cannot be used afterwards.
    pub fn release(self, reg: &mut Registry)
        requires
            self.wf(*old(reg)),
        ensures
            drop_handle_step(*old(reg), *final(reg), self.raw(), self.device_cell()),
    {
        release_parts(self.raw, self.device, reg);
    }
}

impl Sampler {
    pub open(crate) spec fn raw(self) -> usize {
        self.raw
    }

    pub open(crate) spec fn device_cell(self) -> usize {
        self.device.cell
    }

    pub open spec fn wf(self, reg: Registry) -> bool {
        handle_wf(reg, self.raw(), self.device_cell(), HandleKind::Sampler)
    }

    /// Duplicates the handle: the native object is retained exactly once,
    /// and both wrappers are independently releasable afterwards.
    pub fn clone_handle(&self, reg: &mut Registry) -> (r: Sampler)
        requires
            self.wf(*old(reg)),
            old(reg).object(self.raw()).refcount < u64::MAX,
            old(reg).shared_device(self.device_cell()).strong < u64::MAX,
        ensures
            r.raw() == self.raw(),
            r.device_cell() == self.device_cell(),
            r.wf(*final(reg)),
            self.wf(*final(reg)),
            clone_handle_step(*old(reg), *final(reg), self.raw(), self.device_cell()),
    {
        let (raw, device) = clone_parts(self.raw, &self.device, reg);
        Sampler { raw, device }
    }

    /// Releases the handle: the native object is released exactly once, and
    /// the wrapper is gone, so the handle cannot be used afterwards.
    pub fn release(self, reg: &mut Registry)
        requires
            self.wf(*old(reg)),
        ensures
            drop_handle_step(*old(reg), *final(reg), self.raw(), self.device_cell()),
    {
        release_parts(self.raw, self.device, reg);
    }
}

impl BindGroupLayout {
    pub open(crate) spec fn raw(self) -> usize {
        self.raw
    }

    pub open(crate) spec fn device_cell(self) -> usize {
        self.device.cell
    }

    pub open spec fn wf(self, reg: Registry) -> bool {
        handle_wf(reg, self.raw(), self.device_cell(), HandleKind::BindGroupLayout)
    }

    /// Duplicates the handle: the native object is retained exactly once,
    /// and both wrappers are independently releasable afterwards.
    pub fn clone_handle(&self, reg: &mut Registry) -> (r: BindGroupLayout)
        requires
            self.wf(*old(reg)),
            old(reg).object(self.raw()).refcount < u64::MAX,
            old(reg).shared_device(self.device_cell()).strong < u64::MAX,
        ensures
            r.raw() == self.raw(),
            r.device_cell() == self.device_cell(),
            r.wf(*final(reg)),
            self.wf(*final(reg)),
            clone_handle_step(*old(reg), *final(reg), self.raw(), self.device_cell()),
    {
        let (raw, device) = clone_parts(self.raw, &self.device, reg);
        BindGroupLayout { raw, device }
    }

    /// Releases the handle: the native object is released exactly once, and
    /// the wrapper is gone, so the handle cannot be used afterwards.
    pub fn release(self, reg: &mut Registry)
        requires
            self.wf(*old(reg)),
        ensures
            drop_handle_step(*old(reg), *final(reg), self.raw(), self.device_cell()),
    {
        release_parts(self.raw, self.device, reg);
    }
}

impl BindGroup {
    pub open(crate) spec fn raw(self) -> usize {
        self.raw
    }

    pub open(crate) spec fn device_cell(self) -> usize {
        self.device.cell
    }

    pub open spec fn wf(self, reg: Registry) -> bool {
        handle_wf(reg, self.raw(), self.device_cell(), HandleKind::BindGroup)
    }

    /// Duplicates the handle: the native object is retained exactly once,
    /// and both wrappers are independently releasable afterwards.
    pub fn clone_handle(&self, reg: &mut Registry) -> (r: BindGroup)
        requires
            self.wf(*old(reg)),
            old(reg).object(self.raw()).refcount < u64::MAX,
            old(reg).shared_device(self.device_cell()).strong < u64::MAX,
        ensures
            r.raw() == self.raw(),
            r.device_cell() == self.device_cell(),
            r.wf(*final(reg)),
            self.wf(*final(reg)),
            clone_handle_step(*old(reg), *final(reg), self.raw(), self.device_cell()),
    {
        let (raw, device) = clone_parts(self.raw, &self.device, reg);
        BindGroup { raw, device }
    }

    /// Releases the handle: the native object is released exactly once, and
    /// the wrapper is gone, so the handle cannot be used afterwards.
    pub fn release(self, reg: &mut Registry)
        requires
            self.wf(*old(reg)),
        ensures
            drop_handle_step(*old(reg), *final(reg), self.raw(), self.device_cell()),
    {
        release_parts(self.raw, self.device, reg);
    }
}

impl ShaderModule {
    pub open(crate) spec fn raw(self) -> usize {
        self.raw
    }

    pub open(crate) spec fn device_cell(self) -> usize {
        self.device.cell
    }

    pub open spec fn wf(self, reg: Registry) -> bool {
        handle_wf(reg, self.raw(), self.device_cell(), HandleKind::ShaderModule)
    }

    /// Duplicates the handle: the native object is retained exactly once,
    /// and both wrappers are independently releasable afterwards.
    pub fn clone_handle(&self, reg: &mut Registry) -> (r: ShaderModule)
        requires
            self.wf(*old(reg)),
            old(reg).object(self.raw()).refcount < u64::MAX,
            old(reg).shared_device(self.device_cell()).strong < u64::MAX,
        ensures
            r.raw() == self.raw(),
            r.device_cell() == self.device_cell(),
            r.wf(*final(reg)),
            self.wf(*final(reg)),
            clone_handle_step(*old(reg), *final(reg), self.raw(), self.device_cell()),
    {
        let (raw, device) = clone_parts(self.raw, &self.device, reg);
        ShaderModule { raw, device }
    }

    /// Releases the handle: the native object is released exactly once, and
    /// the wrapper is gone, so the handle cannot be used afterwards.
    pub fn release(self, reg: &mut Registry)
        requires
            self.wf(*old(reg)),
        ensures
            drop_handle_step(*old(reg), *final(reg), self.raw(), self.device_cell()),
    {
        release_parts(self.raw, self.device, reg);
    }
}

impl PipelineLayout {
    pub open(crate) spec fn raw(self) -> usize {
        self.raw
    }

    pub open(crate) spec fn device_cell(self) -> usize {
        self.device.cell
    }

    pub open spec fn wf(self, reg: Registry) -> bool {
        handle_wf(reg, self.raw(), self.device_cell(), HandleKind::PipelineLayout)
    }

    /// Duplicates the handle: the native object is retained exactly once,
    /// and both wrappers are independently releasable afterwards.
    pub fn clone_handle(&self, reg: &mut Registry) -> (r: PipelineLayout)
        requires
            self.wf(*old(reg)),
            old(reg).object(self.raw()).refcount < u64::MAX,
            old(reg).shared_device(self.device_cell()).strong < u64::MAX,
        ensures
            r.raw() == self.raw(),
            r.device_cell() == self.device_cell(),
            r.wf(*final(reg)),
            self.wf(*final(reg)),
            clone_handle_step(*old(reg), *final(reg), self.raw(), self.device_cell()),
    {
        let (raw, device) = clone_parts(self.raw, &self.device, reg);
        PipelineLayout { raw, device }
    }

    /// Releases the handle: the native object is released exactly once, and
    /// the wrapper is gone, so the handle cannot be used afterwards.
    pub fn release(self, reg: &mut Registry)
        requires
            self.wf(*old(reg)),
        ensures
            drop_handle_step(*old(reg), *final(reg), self.raw(), self.device_cell()),
    {
        release_parts(self.raw, self.device, reg);
    }
}

impl RenderPipeline {
    pub open(crate) spec fn raw(self) -> usize {
        self.raw
    }

    pub open(crate) spec fn device_cell(self) -> usize {
        self.device.cell
    }

    pub open spec fn wf(self, reg: Registry) -> bool {
        handle_wf(reg, self.raw(), self.device_cell(), HandleKind::RenderPipeline)
    }

    /// Duplicates the handle: the native object is retained exactly once,
    /// and both wrappers are independently releasable afterwards.
    pub fn clone_handle(&self, reg: &mut Registry) -> (r: RenderPipeline)
        requires
            self.wf(*old(reg)),
            old(reg).object(self.raw()).refcount < u64::MAX,
            old(reg).shared_device(self.device_cell()).strong < u64::MAX,
        ensures
            r.raw() == self.raw(),
            r.device_cell() == self.device_cell(),
            r.wf(*final(reg)),
            self.wf(*final(reg)),
            clone_handle_step(*old(reg), *final(reg), self.raw(), self.device_cell()),
    {
        let (raw, device) = clone_parts(self.raw, &self.device, reg);
        RenderPipeline { raw, device }
    }

    /// Releases the handle: the native object is released exactly once, and
    /// the wrapper is gone, so the handle cannot be used afterwards.
    pub fn release(self, reg: &mut Registry)
        requires
            self.wf(*old(reg)),
        ensures
            drop_handle_step(*old(reg), *final(reg), self.raw(), self.device_cell()),
    {
        release_parts(self.raw, self.device, reg);
    }
}

impl ComputePipeline {
    pub open(crate) spec fn raw(self) -> usize {
        self.raw
    }

    pub open(crate) spec fn device_cell(self) -> usize {
        self.device.cell
    }

    pub open spec fn wf(self, reg: Registry) -> bool {
        handle_wf(reg, self.raw(), self.device_cell(), HandleKind::ComputePipeline)
    }

    /// Duplicates the handle: the native object is retained exactly once,
    /// and both wrappers are independently releasable afterwards.
    pub fn clone_handle(&self, reg: &mut Registry) -> (r: ComputePipeline)
        requires
            self.wf(*old(reg)),
            old(reg).object(self.raw()).refcount < u64::MAX,
            old(reg).shared_device(self.device_cell()).strong < u64::MAX,
        ensures
            r.raw() == self.raw(),
            r.device_cell() == self.device_cell(),
            r.wf(*final(reg)),
            self.wf(*final(reg)),
            clone_handle_step(*old(reg), *final(reg), self.raw(), self.device_cell()),
    {
        let (raw, device) = clone_parts(self.raw, &self.device, reg);
        ComputePipeline { raw, device }
    }

    /// Releases the handle: the native object is released exactly once, and
    /// the wrapper is gone, so the handle cannot be used afterwards.
    pub fn release(self, reg: &mut Registry)
        requires
            self.wf(*old(reg)),
        ensures
            drop_handle_step(*old(reg), *final(reg), self.raw(), self.device_cell()),
    {
        release_parts(self.raw, self.device, reg);
    }
}

impl Fence {
    pub open(crate) spec fn raw(self) -> usize {
        self.raw
    }

    pub open(crate) spec fn device_cell(self) -> usize {
        self.device.cell
    }

    pub open spec fn wf(self, reg: Registry) -> bool {
        handle_wf(reg, self.raw(), self.device_cell(), HandleKind::Fence)
    }

    /// Duplicates the handle: the native object is retained exactly once,
    /// and both wrappers are independently releasable afterwards.
    pub fn clone_handle(&self, reg: &mut Registry) -> (r: Fence)
        requires
            self.wf(*old(reg)),
            old(reg).object(self.raw()).refcount < u64::MAX,
            old(reg).shared_device(self.device_cell()).strong < u64::MAX,
        ensures
            r.raw() == self.raw(),
            r.device_cell() == self.device_cell(),
            r.wf(*final(reg)),
            self.wf(*final(reg)),
            clone_handle_step(*old(reg), *final(reg), self.raw(), self.device_cell()),
    {
        let (raw, device) = clone_parts(self.raw, &self.device, reg);
        Fence { raw, device }
    }

    /// Releases the handle: the native object is released exactly once, and
    /// the wrapper is gone, so the handle cannot be used afterwards.
    pub fn release(self, reg: &mut Registry)
        requires
            self.wf(*old(reg)),
        ensures
            drop_handle_step(*old(reg), *final(reg), self.raw(), self.device_cell()),
    {
        release_parts(self.raw, self.device, reg);
    }
}

impl RenderBundle {
    pub open(crate) spec fn raw(self) -> usize {
        self.raw
    }

    pub open(crate) spec fn device_cell(self) -> usize {
        self.device.cell
    }

    pub open spec fn wf(self, reg: Registry) -> bool {
        handle_wf(reg, self.raw(), self.device_cell(), HandleKind::RenderBundle)
    }

    /// Duplicates the handle: the native object is retained exactly once,
    /// and both wrappers are independently releasable afterwards.
    pub fn clone_handle(&self, reg: &mut Registry) -> (r: RenderBundle)
        requires
            self.wf(*old(reg)),
            old(reg).object(self.raw()).refcount < u64::MAX,
            old(reg).shared_device(self.device_cell()).strong < u64::MAX,
        ensures
            r.raw() == self.raw(),
            r.device_cell() == self.device_cell(),
            r.wf(*final(reg)),
            self.wf(*final(reg)),
            clone_handle_step(*old(reg), *final(reg), self.raw(), self.device_cell()),
    {
        let (raw, device) = clone_parts(self.raw, &self.device, reg);
        RenderBundle { raw, device }
    }

    /// Releases the handle: the native object is released exactly once, and
    /// the wrapper is gone, so the handle cannot be used afterwards.
    pub fn release(self, reg: &mut Registry)
        requires
            self.wf(*old(reg)),
        ensures
            drop_handle_step(*old(reg), *final(reg), self.raw(), self.device_cell()),
    {
        release_parts(self.raw, self.device, reg);
    }
}

impl CommandEncoder {
    pub open(crate) spec fn raw(self) -> usize {
        self.raw
    }

    pub open(crate) spec fn device_cell(self) -> usize {
        self.device.cell
    }

    pub open spec fn wf(self, reg: Registry) -> bool {
        handle_wf(reg, self.raw(), self.device_cell(), HandleKind::CommandEncoder)
    }

    /// Releases the handle: the native object is released exactly once, and
    /// the wrapper is gone, so the handle cannot be used afterwards.
    pub fn release(self, reg: &mut Registry)
        requires
            self.wf(*old(reg)),
        ensures
            drop_handle_step(*old(reg), *final(reg), self.raw(), self.device_cell()),
    {
        release_parts(self.raw, self.device, reg);
    }
}

impl CommandBuffer {
    pub open(crate) spec fn raw(self) -> usize {
        self.raw
    }

    pub open(crate) spec fn device_cell(self) -> usize {
        self.device.cell
    }

    pub open spec fn wf(self, reg: Registry) -> bool {
        handle_wf(reg, self.raw(), self.device_cell(), HandleKind::CommandBuffer)
    }

    /// Releases the handle: the native object is released exactly once, and
    /// the wrapper is gone, so the handle cannot be used afterwards.
    pub fn release(self, reg: &mut Registry)
        requires
            self.wf(*old(reg)),
        ensures
            drop_handle_step(*old(reg), *final(reg), self.raw(), self.device_cell()),
    {
        release_parts(self.raw, self.device, reg);
    }
}

impl RenderBundleEncoder {
    pub open(crate) spec fn raw(self) -> usize {
        self.raw
    }

    pub open(crate) spec fn device_cell(self) -> usize {
        self.device.cell
    }

    pub open spec fn wf(self, reg: Registry) -> bool {
        handle_wf(reg, self.raw(), self.device_cell(), HandleKind::RenderBundleEncoder)
    }

    /// Releases the handle: the native object is released exactly once, and
    /// the wrapper is gone, so the handle cannot be used afterwards.
    pub fn release(self, reg: &mut Registry)
        requires
            self.wf(*old(reg)),
        ensures
            drop_handle_step(*old(reg), *final(reg), self.raw(), self.device_cell()),
    {
        release_parts(self.raw, self.device, reg);
    }
}

impl Queue {
    pub open(crate) spec fn raw(self) -> usize {
        self.raw
    }

    pub open(crate) spec fn device_cell(self) -> usize {
        self.device.cell
    }

    /// The reusable scratch list of raw command-buffer handles.
    pub open(crate) spec fn scratch(self) -> Seq<usize> {
        self.temp_commands@
    }

    pub open spec fn wf(self, reg: Registry) -> bool {
        handle_wf(reg, self.raw(), self.device_cell(), HandleKind::Queue)
    }

    /// Releases the queue handle exactly once.  The device cell holds its
    /// own reference to the default queue, so the wrapper's reference is
    /// never the last one while the cell is alive.
    pub fn release(self, reg: &mut Registry)
        requires
            self.wf(*old(reg)),
            old(reg).object(self.raw()).refcount > 1,
        ensures
            drop_handle_step(*old(reg), *final(reg), self.raw(), self.device_cell()),
    {
        release_parts(self.raw, self.device, reg);
    }
}

} // verus!
