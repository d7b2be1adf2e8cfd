//! Instance and adapter operations: discovering adapters, querying their
//! properties, creating surfaces and creating devices.

use vstd::pervasive::unreached;
use vstd::prelude::*;

use crate::descriptors::{AdapterProperties, DeviceDescriptor, DeviceProperties, Extensions};
use crate::handles::{Adapter, Device, Instance, Surface};
use crate::marshal::{device_descriptor_marshals, device_descriptor_ok, marshal_device_descriptor};
use crate::native_desc::NativeSurfaceChain;
use crate::registry::{is_default_table, HandleKind, NativeCall, Registry, SharedDevice};

verus! {

/// The platform window-system handle a surface is created from, as plain
/// address-sized values.  Only the platforms the binding layer supports are
/// representable, so an unsupported platform is rejected at compile time.
#[derive(Debug, Copy, Clone, PartialEq, Eq, Hash, Structural)]
pub enum SurfaceParams {
    Windows { hinstance: u64, hwnd: u64 },
    Xlib { display: u64, window: u32 },
}

/// The backend-tagged chained struct `params` marshals to.
pub open spec fn spec_surface_chain(params: SurfaceParams) -> NativeSurfaceChain {
    match params {
        SurfaceParams::Windows { hinstance, hwnd } => NativeSurfaceChain::Windows {
            hinstance,
            hwnd,
        },
        SurfaceParams::Xlib { display, window } => NativeSurfaceChain::Xlib { display, window },
    }
}

impl Instance {
    /// Creates an instance of the native API, lazily installing the built-in
    /// proc table if none was installed before.  This is the first
    /// handle-producing operation, so no handle exists before the table.
    pub fn new(reg: &mut Registry) -> (r: Instance)
        requires
            old(reg).objects@.len() < usize::MAX,
        ensures
            r.wf(*final(reg)),
            final(reg).initialized(),
            r.raw() == old(reg).objects@.len() + 1,
            final(reg).object(r.raw()).kind == HandleKind::Instance,
            final(reg).object(r.raw()).refcount == 1,
            final(reg).objects@.subrange(0, old(reg).objects@.len() as int) == old(reg).objects@,
            final(reg).objects@.len() == old(reg).objects@.len() + 1,
            final(reg).calls@ == old(reg).calls@.push(NativeCall::CreateInstance),
            final(reg).shared_devices == old(reg).shared_devices,
            final(reg).errors == old(reg).errors,
            old(reg).initialized() ==> final(reg).table == old(reg).table,
            !old(reg).initialized() ==> exists|t: crate::registry::ProcTable|
                is_default_table(t) && final(reg).table == Some(t),
    {
        reg.ensure_initialized();
        let raw = reg.raw_create(
            HandleKind::Instance,
            false,
            Vec::new(),
            Vec::new(),
            NativeCall::CreateInstance,
        );
        Instance { raw }
    }

    /// Discovers the installed implementation's default adapters.  Each
    /// adapter keeps the instance alive through one native reference.
    pub fn enumerate_adapters(&self, reg: &mut Registry) -> (r: Vec<Adapter>)
        requires
            self.wf(*old(reg)),
            old(reg).initialized(),
            old(reg).object(self.raw()).refcount + old(reg).adapters().len() <= u64::MAX,
        ensures
            r@.len() == old(reg).adapters().len(),
            forall|i: int|
                0 <= i < r@.len() ==> (#[trigger] r@[i]).instance_raw() == self.raw()
                    && r@[i].index() == i && r@[i].wf(*final(reg)),
            final(reg).objects@ == old(reg).objects@.update(
                self.raw() - 1,
                (crate::registry::NativeObject {
                    refcount: (old(reg).object(self.raw()).refcount + old(
                        reg,
                    ).adapters().len()) as u64,
                    ..old(reg).object(self.raw())
                }),
            ),
            final(reg).calls@.len() == old(reg).calls@.len() + 1 + old(reg).adapters().len(),
            final(reg).calls@.subrange(0, old(reg).calls@.len() as int) == old(reg).calls@,
            final(reg).calls@[old(reg).calls@.len() as int] == (NativeCall::DiscoverDefaultAdapters {
                instance: self.raw(),
            }),
            forall|j: int|
                old(reg).calls@.len() + 1 <= j < final(reg).calls@.len()
                    ==> #[trigger] final(reg).calls@[j] == (NativeCall::Retain {
                    handle: self.raw(),
                }),
            final(reg).table == old(reg).table,
            final(reg).shared_devices == old(reg).shared_devices,
            final(reg).errors == old(reg).errors,
    {
        reg.calls.push(NativeCall::DiscoverDefaultAdapters { instance: self.raw });
        let count = match &reg.table {
            Some(t) => t.adapters.len(),
            None => 0,
        };
        let mut r: Vec<Adapter> = Vec::new();
        let mut i: usize = 0;
        while i < count
            invariant
                count == old(reg).adapters().len(),
                i <= count,
                reg.initialized(),
                r@.len() == i,
                old(reg).is_handle(self.raw()),
                old(reg).live_as(self.raw(), HandleKind::Instance),
                old(reg).object(self.raw()).refcount + count <= u64::MAX,
                forall|k: int|
                    0 <= k < i ==> (#[trigger] r@[k]).instance_raw() == self.raw() && r@[k].index()
                        == k,
                reg.objects@ == old(reg).objects@.update(
                    self.raw() - 1,
                    (crate::registry::NativeObject {
                        refcount: (old(reg).object(self.raw()).refcount + i) as u64,
                        ..old(reg).object(self.raw())
                    }),
                ),
                reg.calls@.len() == old(reg).calls@.len() + 1 + i,
                reg.calls@.subrange(0, old(reg).calls@.len() as int) == old(reg).calls@,
                reg.calls@[old(reg).calls@.len() as int] == (NativeCall::DiscoverDefaultAdapters {
                    instance: self.raw(),
                }),
                forall|j: int|
                    old(reg).calls@.len() + 1 <= j < reg.calls@.len() ==> #[trigger] reg.calls@[j]
                        == (NativeCall::Retain { handle: self.raw() }),
                reg.table == old(reg).table,
                reg.shared_devices == old(reg).shared_devices,
                reg.errors == old(reg).errors,
            decreases count - i,
        {
            let a = Adapter::from_raw(self.raw, i, reg);
            r.push(a);
            i = i + 1;
            proof {
                assert(reg.objects@ =~= old(reg).objects@.update(
                    self.raw() - 1,
                    (crate::registry::NativeObject {
                        refcount: (old(reg).object(self.raw()).refcount + i) as u64,
                        ..old(reg).object(self.raw())
                    }),
                ));
                assert(reg.calls@.subrange(0, old(reg).calls@.len() as int) =~= old(reg).calls@);
            }
        }
        proof {
            assert(forall|k: int|
                0 <= k < r@.len() ==> (#[trigger] r@[k]).wf(*reg));
        }
        r
    }

    /// Creates a window-system surface from platform parameters.  The
    /// surface keeps the instance alive through one native reference.
    pub fn create_surface(&self, reg: &mut Registry, params: &SurfaceParams) -> (r: Surface)
        requires
            self.wf(*old(reg)),
            old(reg).object(self.raw()).refcount < u64::MAX,
            old(reg).objects@.len() < usize::MAX,
        ensures
            r.wf(*final(reg)),
            r.instance_raw() == self.raw(),
            r.raw() == old(reg).objects@.len() + 1,
            final(reg).objects@.len() == old(reg).objects@.len() + 1,
            final(reg).objects@.subrange(0, old(reg).objects@.len() as int) == old(
                reg,
            ).objects@.update(self.raw() - 1, old(reg).object(self.raw()).retained()),
            final(reg).object(r.raw()).kind == HandleKind::Surface,
            final(reg).object(r.raw()).refcount == 1,
            final(reg).calls@ == old(reg).calls@.push(
                NativeCall::CreateSurface {
                    instance: self.raw(),
                    chain: spec_surface_chain(*params),
                },
            ).push(NativeCall::Retain { handle: self.raw() }),
            final(reg).table == old(reg).table,
            final(reg).shared_devices == old(reg).shared_devices,
            final(reg).errors == old(reg).errors,
    {
        let chain = match *params {
            SurfaceParams::Windows { hinstance, hwnd } => NativeSurfaceChain::Windows {
                hinstance,
                hwnd,
            },
            SurfaceParams::Xlib { display, window } => NativeSurfaceChain::Xlib {
                display,
                window,
            },
        };
        let raw = reg.raw_create(
            HandleKind::Surface,
            false,
            Vec::new(),
            Vec::new(),
            NativeCall::CreateSurface { instance: self.raw, chain },
        );
        let instance = self.clone_handle(reg);
        proof {
            assert(reg.objects@.subrange(0, old(reg).objects@.len() as int) =~= old(
                reg,
            ).objects@.update(self.raw() - 1, old(reg).object(self.raw()).retained()));
        }
        Surface { raw, instance }
    }
}

impl Adapter {
    /// What this adapter reports about itself, read through the installed
    /// table.
    pub fn properties(&self, reg: &Registry) -> (r: AdapterProperties)
        requires
            self.wf(*reg),
        ensures
            r.name@ == reg.adapters()[self.index() as int].name@,
            r.adapter_type == reg.adapters()[self.index() as int].adapter_type,
            r.backend_type == reg.adapters()[self.index() as int].backend_type,
            r.vendor_id == reg.adapters()[self.index() as int].vendor_id,
            r.device_id == reg.adapters()[self.index() as int].device_id,
    {
        let info = match &reg.table {
            Some(t) => &t.adapters[self.adapter_index],
            None => unreached(),
        };
        AdapterProperties {
            name: info.name.as_str().to_owned(),
            adapter_type: info.adapter_type,
            backend_type: info.backend_type,
            vendor_id: info.vendor_id,
            device_id: info.device_id,
        }
    }

    /// The optional feature capabilities this adapter reports.
    pub fn extensions(&self, reg: &Registry) -> (r: Extensions)
        requires
            self.wf(*reg),
        ensures
            r == reg.adapters()[self.index() as int].properties,
    {
        let info = match &reg.table {
            Some(t) => &t.adapters[self.adapter_index],
            None => unreached(),
        };
        DeviceProperties { texture_compression_bc: info.properties.texture_compression_bc }
    }

    /// Creates a logical device on this adapter.  The native device and its
    /// default queue are created, and the new device's shared cell keeps one
    /// reference on the adapter's instance.
    pub fn create_device(&self, reg: &mut Registry, descriptor: &DeviceDescriptor) -> (d: Device)
        requires
            self.wf(*old(reg)),
            device_descriptor_ok(*descriptor),
            old(reg).object(self.instance_raw()).refcount < u64::MAX,
            old(reg).objects@.len() + 2 <= usize::MAX,
            old(reg).shared_devices@.len() < usize::MAX,
        ensures
            d.wf(*final(reg)),
            d.cell() == old(reg).shared_devices@.len() + 1,
            final(reg).shared_devices@ == old(reg).shared_devices@.push(
                (SharedDevice {
                    strong: 1,
                    raw: (old(reg).objects@.len() + 1) as usize,
                    raw_default_queue: (old(reg).objects@.len() + 2) as usize,
                    adapter_instance: self.instance_raw(),
                    adapter_index: self.index(),
                    backend_type: old(reg).adapters()[self.index() as int].backend_type,
                    error_callback: false,
                }),
            ),
            final(reg).objects@.len() == old(reg).objects@.len() + 2,
            final(reg).objects@.subrange(0, old(reg).objects@.len() as int) == old(
                reg,
            ).objects@.update(self.instance_raw() - 1, old(reg).object(self.instance_raw()).retained()),
            final(reg).object(d.shared(*final(reg)).raw).kind == HandleKind::Device,
            final(reg).object(d.shared(*final(reg)).raw).refcount == 1,
            final(reg).object(d.shared(*final(reg)).raw_default_queue).kind == HandleKind::Queue,
            final(reg).object(d.shared(*final(reg)).raw_default_queue).refcount == 1,
            final(reg).calls@.len() == old(reg).calls@.len() + 3,
            final(reg).calls@.subrange(0, old(reg).calls@.len() as int) == old(reg).calls@,
            (final(reg).calls@[old(reg).calls@.len() as int] matches NativeCall::CreateDevice {
                instance,
                adapter_index,
                descriptor: nd,
            } && instance == self.instance_raw() && adapter_index == self.index()
                && device_descriptor_marshals(nd, *descriptor)),
            final(reg).calls@[old(reg).calls@.len() as int + 1] == (NativeCall::Retain {
                handle: self.instance_raw(),
            }),
            final(reg).calls@[old(reg).calls@.len() as int + 2] == (NativeCall::CreateQueue {
                device: d.shared(*final(reg)).raw,
            }),
            final(reg).table == old(reg).table,
            final(reg).errors == old(reg).errors,
    {
        let nd = marshal_device_descriptor(descriptor);
        let ghost s0 = *reg;
        let raw = reg.raw_create(
            HandleKind::Device,
            false,
            Vec::new(),
            Vec::new(),
            NativeCall::CreateDevice {
                instance: self.instance,
                adapter_index: self.adapter_index,
                descriptor: nd,
            },
        );
        let ghost s1 = *reg;
        proof {
            assert(s1.objects@[self.instance_raw() - 1] == s1.objects@.subrange(
                0,
                s0.objects@.len() as int,
            )[self.instance_raw() - 1]);
            assert(s1.live_as(self.instance_raw(), HandleKind::Instance));
        }
        let adapter = self.clone_handle(reg);
        let ghost s2 = *reg;
        let raw_default_queue = reg.raw_create(
            HandleKind::Queue,
            false,
            Vec::new(),
            Vec::new(),
            NativeCall::CreateQueue { device: raw },
        );
        let ghost s3 = *reg;
        proof {
            assert(s3.objects@[adapter.instance_raw() - 1] == s3.objects@.subrange(
                0,
                s2.objects@.len() as int,
            )[adapter.instance_raw() - 1]);
            assert(s3.objects@[raw - 1] == s3.objects@.subrange(0, s2.objects@.len() as int)[raw
                - 1]);
            assert(reg.live_as(adapter.instance_raw(), HandleKind::Instance));
            assert(reg.live_as(raw, HandleKind::Device));
            assert(reg.live_as(raw_default_queue, HandleKind::Queue));
            assert(reg.initialized() && reg.adapters() == old(reg).adapters());
        }
        let backend_type = adapter.properties(reg).backend_type;
        let cell = reg.new_shared_device(
            SharedDevice {
                strong: 1,
                raw,
                raw_default_queue,
                adapter_instance: adapter.instance,
                adapter_index: adapter.adapter_index,
                backend_type,
                error_callback: false,
            },
        );
        // The adapter clone's instance reference now belongs to the cell,
        // which releases it when the last device clone goes away.
        proof {
            assert(reg.calls@.subrange(0, old(reg).calls@.len() as int) =~= old(reg).calls@);
            assert(reg.objects@.subrange(0, old(reg).objects@.len() as int) =~= old(
                reg,
            ).objects@.update(
                self.instance_raw() - 1,
                old(reg).object(self.instance_raw()).retained(),
            ));
            assert(reg.shared_devices@ =~= old(reg).shared_devices@.push(
                (SharedDevice {
                    strong: 1,
                    raw: (old(reg).objects@.len() + 1) as usize,
                    raw_default_queue: (old(reg).objects@.len() + 2) as usize,
                    adapter_instance: self.instance_raw(),
                    adapter_index: self.index(),
                    backend_type: old(reg).adapters()[self.index() as int].backend_type,
                    error_callback: false,
                }),
            ));
        }
        proof {
            assert(reg.is_shared_device(cell));
            assert(reg.shared_device(cell).raw == old(reg).objects@.len() + 1);
            assert(reg.live_as(reg.shared_device(cell).raw, HandleKind::Device));
            assert(reg.live_as(reg.shared_device(cell).raw_default_queue, HandleKind::Queue));
            assert(reg.live_as(reg.shared_device(cell).adapter_instance, HandleKind::Instance));
        }
        Device { cell }
    }
}

} // verus!
