//! Operations on created resources: buffer uploads and unmapping, texture
//! views, and bind-group-layout lookup on pipelines.

use vstd::prelude::*;

use crate::descriptors::TextureViewDescriptor;
use crate::handles::{
    build_on_device, BindGroupLayout, Buffer, ComputePipeline, Device, RenderPipeline, Texture,
    TextureView,
};
use crate::marshal::{label_ok, marshal_texture_view, texture_view_marshals};
use crate::registry::{HandleKind, NativeCall, Registry};

verus! {

impl Buffer {
    /// Whether the wrapped handle is null.  A creation never yields a null
    /// handle, so this is the caller's check that a handle is present.
    pub fn is_null(&self) -> (r: bool)
        ensures
            r == (self.raw() == 0),
    {
        self.raw == 0
    }

    /// The committed contents of the buffer, as the native side holds them.
    pub fn contents<'a>(&self, reg: &'a Registry) -> (r: &'a Vec<u8>)
        requires
            self.wf(*reg),
        ensures
            r@ == reg.object(self.raw()).contents@,
    {
        &reg.objects[self.raw - 1].contents
    }

    /// Unmaps the buffer, making any mapped region unusable.
    pub fn unmap(&self, reg: &mut Registry)
        requires
            self.wf(*old(reg)),
        ensures
            final(reg).objects@.len() == old(reg).objects@.len(),
            forall|k: int|
                0 <= k < old(reg).objects@.len() && k != self.raw() - 1
                    ==> final(reg).objects@[k] == old(reg).objects@[k],
            !final(reg).object(self.raw()).mapped,
            final(reg).object(self.raw()).contents == old(reg).object(self.raw()).contents,
            final(reg).object(self.raw()).refcount == old(reg).object(self.raw()).refcount,
            final(reg).object(self.raw()).kind == old(reg).object(self.raw()).kind,
            final(reg).calls@ == old(reg).calls@.push(
                NativeCall::BufferUnmap { buffer: self.raw() },
            ),
            final(reg).shared_devices == old(reg).shared_devices,
            final(reg).table == old(reg).table,
            final(reg).errors == old(reg).errors,
    {
        let idx = self.raw - 1;
        self.set_unmapped(reg);
        reg.calls.push(NativeCall::BufferUnmap { buffer: self.raw });
    }

    fn set_unmapped(&self, reg: &mut Registry)
        requires
            self.wf(*old(reg)),
        ensures
            final(reg).objects@.len() == old(reg).objects@.len(),
            forall|k: int|
                0 <= k < old(reg).objects@.len() && k != self.raw() - 1
                    ==> final(reg).objects@[k] == old(reg).objects@[k],
            final(reg).objects@[self.raw() - 1] == (crate::registry::NativeObject {
                mapped: false,
                ..old(reg).object(self.raw())
            }),
            final(reg).calls == old(reg).calls,
            final(reg).shared_devices == old(reg).shared_devices,
            final(reg).table == old(reg).table,
            final(reg).errors == old(reg).errors,
    {
        reg.objects[self.raw - 1].mapped = false;
    }

    /// Writes `data` into the buffer at `offset` through the native
    /// set-sub-data entry point.  A write that would run past the end of the
    /// buffer is rejected by the native validation and changes nothing, as a
    /// replayed copy with a bad range is.
    pub fn set_sub_data(&self, reg: &mut Registry, offset: usize, data: &[u8])
        requires
            self.wf(*old(reg)),
        ensures
            final(reg).objects@.len() == old(reg).objects@.len(),
            forall|k: int|
                0 <= k < old(reg).objects@.len() && k != self.raw() - 1
                    ==> final(reg).objects@[k] == old(reg).objects@[k],
            final(reg).object(self.raw()).kind == old(reg).object(self.raw()).kind,
            final(reg).object(self.raw()).refcount == old(reg).object(self.raw()).refcount,
            final(reg).object(self.raw()).mapped == old(reg).object(self.raw()).mapped,
            final(reg).object(self.raw()).commands == old(reg).object(self.raw()).commands,
            offset + data@.len() <= old(reg).object(self.raw()).contents@.len()
                ==> final(reg).object(self.raw()).contents@ == crate::registry::spliced(
                old(reg).object(self.raw()).contents@,
                offset as int,
                data@,
                0,
                data@.len() as int,
            ),
            offset + data@.len() > old(reg).object(self.raw()).contents@.len()
                ==> final(reg).object(self.raw()).contents == old(reg).object(
                self.raw(),
            ).contents,
            final(reg).calls@ == old(reg).calls@.push(
                NativeCall::BufferSetSubData {
                    buffer: self.raw(),
                    start: offset as u64,
                    count: data@.len() as u64,
                },
            ),
            final(reg).shared_devices == old(reg).shared_devices,
            final(reg).table == old(reg).table,
            final(reg).errors == old(reg).errors,
    {
        let idx = self.raw - 1;
        let len = reg.objects[idx].contents.len();
        if data.len() <= len && offset <= len - data.len() {
            let mut updated: Vec<u8> = Vec::new();
            let mut i: usize = 0;
            while i < len
                invariant
                    i <= len,
                    self.wf(*reg),
                    *reg == *old(reg),
                    idx == self.raw() - 1,
                    len == reg.object(self.raw()).contents@.len(),
                    offset + data@.len() <= len,
                    updated@.len() == i,
                    forall|k: int|
                        0 <= k < i ==> updated@[k] == crate::registry::spliced(
                            reg.object(self.raw()).contents@,
                            offset as int,
                            data@,
                            0,
                            data@.len() as int,
                        )[k],
                decreases len - i,
            {
                let b = if offset <= i && i < offset + data.len() {
                    data[i - offset]
                } else {
                    reg.objects[idx].contents[i]
                };
                updated.push(b);
                i = i + 1;
            }
            proof {
                assert(updated@ =~= crate::registry::spliced(
                    reg.object(self.raw()).contents@,
                    offset as int,
                    data@,
                    0,
                    data@.len() as int,
                ));
            }
            reg.objects[idx].contents = updated;
        }
        reg.calls.push(
            NativeCall::BufferSetSubData {
                buffer: self.raw,
                start: offset as u64,
                count: data.len() as u64,
            },
        );
        proof {
            assert(final(reg).calls@ == old(reg).calls@.push(
                NativeCall::BufferSetSubData {
                    buffer: self.raw(),
                    start: offset as u64,
                    count: data@.len() as u64,
                },
            ));
        }
    }
}

impl Texture {
    /// Creates a view of this texture.
    pub fn create_view(&self, reg: &mut Registry, descriptor: &TextureViewDescriptor) -> (v:
        TextureView)
        requires
            self.wf(*old(reg)),
            old(reg).shared_device(self.device_cell()).strong < u64::MAX,
            old(reg).objects@.len() < usize::MAX,
            label_ok(descriptor.label),
        ensures
            v.device_cell() == self.device_cell(),
            v.wf(*final(reg)),
            crate::registry::device_create_step(*old(reg), *final(reg), v.raw(), self.device_cell()),
            final(reg).object(v.raw()).kind == HandleKind::TextureView,
            (final(reg).calls@.last() matches NativeCall::CreateTextureView {
                texture,
                descriptor: nd,
            } && texture == self.raw() && texture_view_marshals(nd, *descriptor)),
    {
        let nd = marshal_texture_view(descriptor);
        let raw = build_on_device(
            &self.device,
            reg,
            HandleKind::TextureView,
            false,
            Vec::new(),
            Vec::new(),
            NativeCall::CreateTextureView { texture: self.raw, descriptor: nd },
        );
        TextureView { raw, device: Device { cell: self.device.cell } }
    }
}

impl ComputePipeline {
    /// The bind group layout of group `group`, as a fresh owned handle.
    pub fn get_bind_group_layout(&mut self, reg: &mut Registry, group: usize) -> (b:
        BindGroupLayout)
        requires
            old(self).wf(*old(reg)),
            old(reg).shared_device(old(self).device_cell()).strong < u64::MAX,
            old(reg).objects@.len() < usize::MAX,
            group <= u32::MAX,
        ensures
            *final(self) == *old(self),
            b.device_cell() == old(self).device_cell(),
            b.wf(*final(reg)),
            crate::registry::device_create_step(
                *old(reg),
                *final(reg),
                b.raw(),
                old(self).device_cell(),
            ),
            final(reg).object(b.raw()).kind == HandleKind::BindGroupLayout,
            final(reg).calls@.last() == (NativeCall::GetBindGroupLayout {
                pipeline: old(self).raw(),
                group: group as u32,
            }),
    {
        let raw = build_on_device(
            &self.device,
            reg,
            HandleKind::BindGroupLayout,
            false,
            Vec::new(),
            Vec::new(),
            NativeCall::GetBindGroupLayout { pipeline: self.raw, group: group as u32 },
        );
        BindGroupLayout { raw, device: Device { cell: self.device.cell } }
    }
}

impl RenderPipeline {
    /// The bind group layout of group `group`, as a fresh owned handle.
    pub fn get_bind_group_layout(&mut self, reg: &mut Registry, group: usize) -> (b:
        BindGroupLayout)
        requires
            old(self).wf(*old(reg)),
            old(reg).shared_device(old(self).device_cell()).strong < u64::MAX,
            old(reg).objects@.len() < usize::MAX,
            group <= u32::MAX,
        ensures
            *final(self) == *old(self),
            b.device_cell() == old(self).device_cell(),
            b.wf(*final(reg)),
            crate::registry::device_create_step(
                *old(reg),
                *final(reg),
                b.raw(),
                old(self).device_cell(),
            ),
            final(reg).object(b.raw()).kind == HandleKind::BindGroupLayout,
            final(reg).calls@.last() == (NativeCall::GetBindGroupLayout {
                pipeline: old(self).raw(),
                group: group as u32,
            }),
    {
        let raw = build_on_device(
            &self.device,
            reg,
            HandleKind::BindGroupLayout,
            false,
            Vec::new(),
            Vec::new(),
            NativeCall::GetBindGroupLayout { pipeline: self.raw, group: group as u32 },
        );
        BindGroupLayout { raw, device: Device { cell: self.device.cell } }
    }
}

} // verus!
