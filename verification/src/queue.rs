//! Queue submission: a queue accepts finished command buffers, copies their
//! raw handles into its reusable scratch list (fully cleared before each
//! repopulation, so no stale handle of an earlier submission can leak into a
//! later one), and issues a single native submit call, which replays the
//! recorded copies against the buffer contents.

use vstd::prelude::*;

use crate::descriptors::FenceDescriptor;
use crate::handles::{build_on_device, CommandBuffer, Device, Fence, Queue};
use crate::marshal::{label_ok, marshal_label, spec_label_bytes};
use crate::registry::{
    apply_copies_view, apply_one_view, contents_views, spec_copy_ok, submitted_copies, HandleKind,
    NativeCall, Registry,
};

verus! {

impl Queue {
    /// Creates a fence on this queue.
    pub fn create_fence(&self, reg: &mut Registry, descriptor: &FenceDescriptor) -> (f: Fence)
        requires
            self.wf(*old(reg)),
            old(reg).shared_device(self.device_cell()).strong < u64::MAX,
            old(reg).objects@.len() < usize::MAX,
            label_ok(descriptor.label),
        ensures
            f.device_cell() == self.device_cell(),
            f.wf(*final(reg)),
            crate::registry::device_create_step(*old(reg), *final(reg), f.raw(), self.device_cell()),
            final(reg).object(f.raw()).kind == HandleKind::Fence,
            (final(reg).calls@.last() matches NativeCall::CreateFence {
                queue,
                initial_value,
                label,
            } && queue == self.raw() && initial_value == descriptor.initial_value && label@
                == spec_label_bytes(descriptor.label)),
    {
        let label = marshal_label(descriptor.label);
        let raw = build_on_device(
            &self.device,
            reg,
            HandleKind::Fence,
            false,
            Vec::new(),
            Vec::new(),
            NativeCall::CreateFence {
                queue: self.raw,
                initial_value: descriptor.initial_value,
                label,
            },
        );
        Fence { raw, device: Device { cell: self.device.cell } }
    }

    /// Creates an unlabeled fence with the given initial value.
    pub fn create_fence_with(&self, reg: &mut Registry, initial_value: u64) -> (f: Fence)
        requires
            self.wf(*old(reg)),
            old(reg).shared_device(self.device_cell()).strong < u64::MAX,
            old(reg).objects@.len() < usize::MAX,
        ensures
            f.device_cell() == self.device_cell(),
            f.wf(*final(reg)),
            crate::registry::device_create_step(*old(reg), *final(reg), f.raw(), self.device_cell()),
            final(reg).object(f.raw()).kind == HandleKind::Fence,
            (final(reg).calls@.last() matches NativeCall::CreateFence { initial_value: v, .. } && v
                == initial_value),
    {
        self.create_fence(reg, &FenceDescriptor { initial_value, label: None })
    }

    /// Signals a fence from this queue.
    pub fn signal(&self, reg: &mut Registry, fence: &Fence, signal_value: u64)
        requires
            self.wf(*old(reg)),
            fence.wf(*old(reg)),
        ensures
            crate::registry::log_only_step(
                *old(reg),
                *final(reg),
                (NativeCall::Signal {
                    queue: self.raw(),
                    fence: fence.raw(),
                    value: signal_value,
                }),
            ),
    {
        reg.log_call(NativeCall::Signal { queue: self.raw, fence: fence.raw, value: signal_value });
    }

    /// Submits finished command buffers: their raw handles are copied into
    /// the scratch list (cleared first, so exactly the submitted handles and
    /// nothing older stand in it), one native submit call is logged, and the
    /// recorded copies are replayed in order against the buffer contents.
    /// The command buffers stay alive; the caller may release them as soon
    /// as the call returns.
    pub fn submit(&mut self, reg: &mut Registry, commands: &[CommandBuffer])
        requires
            old(self).wf(*old(reg)),
            forall|i: int| 0 <= i < commands@.len() ==> (#[trigger] commands@[i]).wf(*old(reg)),
        ensures
            final(self).raw() == old(self).raw(),
            final(self).device_cell() == old(self).device_cell(),
            final(self).scratch().len() == commands@.len(),
            forall|i: int|
                0 <= i < commands@.len() ==> final(self).scratch()[i] == (
                #[trigger] commands@[i]).raw(),
            final(reg).objects@.len() == old(reg).objects@.len(),
            forall|k: int|
                0 <= k < old(reg).objects@.len() ==> {
                    let o_new = #[trigger] final(reg).objects@[k];
                    let o_old = old(reg).objects@[k];
                    o_new.kind == o_old.kind && o_new.refcount == o_old.refcount && o_new.mapped
                        == o_old.mapped && o_new.commands == o_old.commands && o_new.contents@.len()
                        == o_old.contents@.len()
                },
            contents_views(final(reg).objects@) == apply_copies_view(
                old(reg).objects@,
                contents_views(old(reg).objects@),
                submitted_copies(old(reg).objects@, final(self).scratch()),
            ),
            final(reg).calls@.len() == old(reg).calls@.len() + 1,
            final(reg).calls@.subrange(0, old(reg).calls@.len() as int) == old(reg).calls@,
            (final(reg).calls@.last() matches NativeCall::Submit { queue, commands: list } && queue
                == old(self).raw() && list@ == final(self).scratch()),
            final(reg).shared_devices == old(reg).shared_devices,
            final(reg).table == old(reg).table,
            final(reg).errors == old(reg).errors,
    {
        self.temp_commands.clear();
        let mut log_list: Vec<usize> = Vec::new();
        let mut i: usize = 0;
        while i < commands.len()
            invariant
                i <= commands@.len(),
                self.temp_commands@.len() == i,
                log_list@ == self.temp_commands@,
                forall|k: int|
                    0 <= k < i ==> self.temp_commands@[k] == (#[trigger] commands@[k]).raw(),
                self.raw == old(self).raw,
                self.device.cell == old(self).device.cell,
            decreases commands@.len() - i,
        {
            self.temp_commands.push(commands[i].raw);
            log_list.push(commands[i].raw);
            i = i + 1;
        }
        let ghost raws = self.temp_commands@;
        reg.log_call(NativeCall::Submit { queue: self.raw, commands: log_list });
        let ghost objs0 = old(reg).objects@;
        let ghost cv0 = contents_views(objs0);
        let ghost reg_after_log = *reg;
        let mut i: usize = 0;
        while i < self.temp_commands.len()
            invariant
                objs0 == old(reg).objects@,
                cv0 == contents_views(objs0),
                i <= raws.len(),
                raws.len() == commands@.len(),
                self.temp_commands@ == raws,
                self.raw == old(self).raw,
                self.device.cell == old(self).device.cell,
                forall|k: int| 0 <= k < raws.len() ==> raws[k] == (#[trigger] commands@[k]).raw(),
                forall|k: int| 0 <= k < commands@.len() ==> (#[trigger] commands@[k]).wf(*old(reg)),
                reg.objects@.len() == objs0.len(),
                forall|k: int|
                    0 <= k < objs0.len() ==> {
                        let o_new = #[trigger] reg.objects@[k];
                        let o_old = objs0[k];
                        o_new.kind == o_old.kind && o_new.refcount == o_old.refcount && o_new.mapped
                            == o_old.mapped && o_new.commands == o_old.commands
                            && o_new.contents@.len() == o_old.contents@.len()
                    },
                contents_views(reg.objects@) == apply_copies_view(
                    objs0,
                    cv0,
                    submitted_copies(objs0, raws.take(i as int)),
                ),
                reg.calls == reg_after_log.calls,
                reg.shared_devices == reg_after_log.shared_devices,
                reg.table == reg_after_log.table,
                reg.errors == reg_after_log.errors,
            decreases raws.len() - i,
        {
            let cb = self.temp_commands[i];
            proof {
                assert(commands@[i as int].wf(*old(reg)));
                assert(cb == commands@[i as int].raw());
                assert(old(reg).is_live(cb));
                assert(1 <= cb <= objs0.len());
            }
            let ghost before = submitted_copies(objs0, raws.take(i as int));
            let n = read_command_count(reg, cb);
            let mut j: usize = 0;
            while j < n
                invariant
                    j <= n,
                    1 <= cb <= objs0.len(),
                    n == objs0[cb - 1].commands@.len(),
                    reg.objects@.len() == objs0.len(),
                    forall|k: int|
                        0 <= k < objs0.len() ==> {
                            let o_new = #[trigger] reg.objects@[k];
                            let o_old = objs0[k];
                            o_new.kind == o_old.kind && o_new.refcount == o_old.refcount
                                && o_new.mapped == o_old.mapped && o_new.commands == o_old.commands
                                && o_new.contents@.len() == o_old.contents@.len()
                        },
                    contents_views(reg.objects@) == apply_copies_view(
                        objs0,
                        cv0,
                        before + objs0[cb - 1].commands@.take(j as int),
                    ),
                    reg.calls == reg_after_log.calls,
                    reg.shared_devices == reg_after_log.shared_devices,
                    reg.table == reg_after_log.table,
                    reg.errors == reg_after_log.errors,
                decreases n - j,
            {
                let ghost prev = before + objs0[cb - 1].commands@.take(j as int);
                let ghost cur = *reg;
                let c = read_command(reg, cb, j);
                reg.apply_copy(c);
                proof {
                    assert(spec_copy_ok(cur.objects@, c) == spec_copy_ok(objs0, c));
                    assert(apply_one_view(cur.objects@, contents_views(cur.objects@), c)
                        == apply_one_view(objs0, contents_views(cur.objects@), c));
                    assert(prev.push(c).drop_last() =~= prev);
                    assert(apply_copies_view(objs0, cv0, prev.push(c)) == apply_one_view(
                        objs0,
                        apply_copies_view(objs0, cv0, prev),
                        c,
                    ));
                    assert(before + objs0[cb - 1].commands@.take(j as int + 1) =~= prev.push(c));
                }
                j = j + 1;
            }
            i = i + 1;
            proof {
                assert(raws.take(i as int).drop_last() =~= raws.take(i as int - 1));
                assert(objs0[cb - 1].commands@.take(n as int) =~= objs0[cb - 1].commands@);
                assert(submitted_copies(objs0, raws.take(i as int)) == before + objs0[cb
                    - 1].commands@);
            }
        }
        proof {
            assert(raws.take(raws.len() as int) =~= raws);
            assert(reg.calls@.subrange(0, old(reg).calls@.len() as int) =~= old(reg).calls@);
        }
    }
}

/// The number of copies the object `h` holds.
fn read_command_count(reg: &Registry, h: usize) -> (n: usize)
    requires
        reg.is_handle(h),
    ensures
        n == reg.object(h).commands@.len(),
{
    reg.objects[h - 1].commands.len()
}

/// The copy at index `j` of the object `h`.
fn read_command(reg: &Registry, h: usize, j: usize) -> (c: crate::registry::BufferCopy)
    requires
        reg.is_handle(h),
        j < reg.object(h).commands@.len(),
    ensures
        c == reg.object(h).commands@[j as int],
{
    reg.objects[h - 1].commands[j]
}

} // verus!
