//! The proc-table registry and the native object graph reached through it.
//!
//! Every native call of this crate is routed through a [`Registry`]: it
//! holds the one [`ProcTable`] of the process (installed at most once), the
//! reference-counted native objects the table's entry points act on, and a
//! log of every call made through the table.  The registry is the only code
//! path that can produce a handle, so no handle can exist before the table
//! is initialized.  Exclusive (`&mut`) access to the registry serializes the
//! native calls, which the native library requires; a multi-threaded caller
//! wraps the registry in a mutual-exclusion lock and so keeps the guarantee.

use vstd::prelude::*;

use crate::descriptors::{Color, DeviceProperties, Extent3d, F32Bits};
use crate::enums::{AdapterType, BackendType, ErrorType, TextureFormat};
use crate::native_desc::{
    NativeBindGroupDescriptor, NativeBindGroupLayoutDescriptor, NativeBufferCopyView,
    NativeComputePipelineDescriptor, NativeDeviceDescriptor, NativePipelineLayoutDescriptor,
    NativeRenderPassDescriptor, NativeRenderPipelineDescriptor, NativeSamplerDescriptor,
    NativeSurfaceChain, NativeSwapChainDescriptor, NativeSwapChainSurfaceParams,
    NativeTextureCopyView, NativeTextureDescriptor,
    NativeTextureViewDescriptor,
};

verus! {

/// The kind of native object a handle names.
#[derive(Debug, Copy, Clone, PartialEq, Eq, Hash, Structural)]
pub enum HandleKind {
    Instance,
    Surface,
    SwapChain,
    SwapChainImpl,
    Device,
    Queue,
    Buffer,
    Texture,
    TextureView,
    Sampler,
    BindGroupLayout,
    BindGroup,
    ShaderModule,
    PipelineLayout,
    RenderPipeline,
    ComputePipeline,
    CommandEncoder,
    CommandBuffer,
    ComputePass,
    RenderPass,
    Fence,
    RenderBundle,
    RenderBundleEncoder,
}

/// One buffer-to-buffer copy recorded by a command encoder and replayed
/// against buffer contents when the command buffer holding it is submitted.
#[derive(Debug, Copy, Clone, PartialEq, Eq, Hash, Structural)]
pub struct BufferCopy {
    pub source: usize,
    pub source_offset: u64,
    pub destination: usize,
    pub destination_offset: u64,
    pub size: u64,
}

/// One recording operation routed through a pass, bundle or command encoder.
#[derive(Debug, Clone, PartialEq, Eq)]
pub enum EncodeOp {
    Draw { vertex_count: u32, instance_count: u32, first_vertex: u32, first_instance: u32 },
    DrawIndexed {
        index_count: u32,
        instance_count: u32,
        first_index: u32,
        base_vertex: i32,
        first_instance: u32,
    },
    DrawIndirect { buffer: usize, offset: u64 },
    DrawIndexedIndirect { buffer: usize, offset: u64 },
    Dispatch { x: u32, y: u32, z: u32 },
    DispatchIndirect { buffer: usize, offset: u64 },
    SetPipeline { pipeline: usize },
    SetBindGroup { index: u32, group: usize, dynamic_offsets: Vec<u32> },
    SetIndexBuffer { buffer: usize, offset: u64 },
    SetVertexBuffer { slot: u32, buffer: usize, offset: u64 },
    SetBlendColor { color: Color },
    SetScissorRect { x: u32, y: u32, width: u32, height: u32 },
    SetStencilReference { reference: u32 },
    SetViewport {
        x: F32Bits,
        y: F32Bits,
        width: F32Bits,
        height: F32Bits,
        min_depth: F32Bits,
        max_depth: F32Bits,
    },
    InsertDebugMarker { label: Vec<u8> },
    PushDebugGroup { label: Vec<u8> },
    PopDebugGroup,
    ExecuteBundles { bundles: Vec<usize> },
    CopyBufferToBuffer { copy: BufferCopy },
    CopyBufferToTexture {
        source: NativeBufferCopyView,
        destination: NativeTextureCopyView,
        copy_size: Extent3d,
    },
    CopyTextureToBuffer {
        source: NativeTextureCopyView,
        destination: NativeBufferCopyView,
        copy_size: Extent3d,
    },
    CopyTextureToTexture {
        source: NativeTextureCopyView,
        destination: NativeTextureCopyView,
        copy_size: Extent3d,
    },
}

/// One call made through the proc table, as the native implementation sees
/// it.  The log of these calls is what a test harness inspects to check the
/// retain/release discipline and the marshaled descriptors.
#[derive(Debug, Clone, PartialEq, Eq)]
pub enum NativeCall {
    Retain { handle: usize },
    Release { handle: usize },
    CreateInstance,
    DiscoverDefaultAdapters { instance: usize },
    CreateSurface { instance: usize, chain: NativeSurfaceChain },
    CreateDevice { instance: usize, adapter_index: usize, descriptor: NativeDeviceDescriptor },
    CreateQueue { device: usize },
    CreateBuffer { device: usize, size: u64, usage: i32, label: Vec<u8>, mapped: bool },
    CreateTexture { device: usize, descriptor: NativeTextureDescriptor },
    CreateTextureView { texture: usize, descriptor: NativeTextureViewDescriptor },
    CreateSampler { device: usize, descriptor: NativeSamplerDescriptor },
    CreateShaderModule { device: usize, code: Vec<u32>, label: Vec<u8> },
    CreateBindGroupLayout { device: usize, descriptor: NativeBindGroupLayoutDescriptor },
    CreateBindGroup { device: usize, descriptor: NativeBindGroupDescriptor },
    CreatePipelineLayout { device: usize, descriptor: NativePipelineLayoutDescriptor },
    CreateComputePipeline { device: usize, descriptor: NativeComputePipelineDescriptor },
    CreateRenderPipeline { device: usize, descriptor: NativeRenderPipelineDescriptor },
    CreateSwapChain { device: usize, surface: usize, descriptor: NativeSwapChainDescriptor },
    CreateNativeSwapChainImpl { device: usize, params: NativeSwapChainSurfaceParams },
    GetPreferredSwapChainFormat { device: usize },
    CreateCommandEncoder { device: usize, label: Vec<u8> },
    CreateFence { queue: usize, initial_value: u64, label: Vec<u8> },
    GetBindGroupLayout { pipeline: usize, group: u32 },
    BeginComputePass { encoder: usize, label: Vec<u8> },
    BeginRenderPass { encoder: usize, descriptor: NativeRenderPassDescriptor },
    EndPass { pass: usize },
    FinishEncoder { encoder: usize, label: Vec<u8> },
    FinishBundle { encoder: usize, label: Vec<u8> },
    Encode { target: usize, op: EncodeOp },
    BufferUnmap { buffer: usize },
    BufferSetSubData { buffer: usize, start: u64, count: u64 },
    Submit { queue: usize, commands: Vec<usize> },
    Signal { queue: usize, fence: usize, value: u64 },
    Tick { device: usize },
    InjectError { device: usize, error_type: ErrorType, message: Vec<u8> },
    SetErrorCallback { device: usize },
    SwapChainPresent { swap_chain: usize },
    SwapChainConfigure {
        swap_chain: usize,
        format: TextureFormat,
        usage: i32,
        width: u32,
        height: u32,
    },
    GetCurrentTextureView { swap_chain: usize },
    GetVulkanInstance { device: usize },
}

/// One slot of the native object graph.  The handle with value `i + 1` names
/// the object in slot `i`; handle `0` is the null handle.  A slot is never
/// reused: once the reference count reaches zero the object is dead for
/// good, so a retain or release after free is detectable.
#[derive(Debug, Clone, PartialEq, Eq)]
pub struct NativeObject {
    pub kind: HandleKind,
    pub refcount: u64,
    /// Buffers only: whether the buffer is currently mapped for CPU writes.
    pub mapped: bool,
    /// Buffers only: the current contents, one byte per addressable byte.
    pub contents: Vec<u8>,
    /// Command encoders and command buffers: the recorded copies.
    pub commands: Vec<BufferCopy>,
}

impl NativeObject {
    /// The same object with one more owner.
    pub open spec fn retained(self) -> NativeObject {
        NativeObject { refcount: (self.refcount + 1) as u64, ..self }
    }

    /// The same object with one owner fewer.
    pub open spec fn released(self) -> NativeObject {
        NativeObject { refcount: (self.refcount - 1) as u64, ..self }
    }
}

/// What one adapter of the installed implementation reports about itself.
#[derive(Debug, Clone)]
pub struct AdapterInfo {
    pub name: String,
    pub adapter_type: AdapterType,
    pub backend_type: BackendType,
    pub vendor_id: u32,
    pub device_id: u32,
    pub properties: DeviceProperties,
}

/// A description of the native implementation reached through the proc
/// table: the adapters its instance discovers and the fixed answers of its
/// query entry points.  Installing a custom table substitutes another
/// implementation, for instrumentation or for a mock.
#[derive(Debug, Clone)]
pub struct ProcTable {
    pub adapters: Vec<AdapterInfo>,
    pub preferred_swap_chain_format: TextureFormat,
    pub vulkan_instance: usize,
}

/// The shape of the built-in native implementation's table: one
/// always-available null-backend adapter.
pub open spec fn is_default_table(t: ProcTable) -> bool {
    &&& t.adapters@.len() == 1
    &&& t.adapters@[0].name@ == "null"@
    &&& t.adapters@[0].adapter_type == AdapterType::Unknown
    &&& t.adapters@[0].backend_type == BackendType::Null
    &&& t.adapters@[0].vendor_id == 0
    &&& t.adapters@[0].device_id == 0
    &&& t.adapters@[0].properties == (DeviceProperties { texture_compression_bc: false })
    &&& t.preferred_swap_chain_format == TextureFormat::RGBA8Unorm
    &&& t.vulkan_instance == 0
}

impl ProcTable {
    /// The table of the built-in native implementation, installed when no
    /// custom table was installed first.
    pub fn default_native() -> (t: ProcTable)
        ensures
            is_default_table(t),
    {
        let mut adapters: Vec<AdapterInfo> = Vec::new();
        adapters.push(
            AdapterInfo {
                name: "null".to_owned(),
                adapter_type: AdapterType::Unknown,
                backend_type: BackendType::Null,
                vendor_id: 0,
                device_id: 0,
                properties: DeviceProperties { texture_compression_bc: false },
            },
        );
        ProcTable {
            adapters,
            preferred_swap_chain_format: TextureFormat::RGBA8Unorm,
            vulkan_instance: 0,
        }
    }
}

/// The host-side state shared by every clone of one `Device` handle: the raw
/// device and default-queue handles, the adapter it came from, and the count
/// of live clones.  When the count reaches zero the queue, the device and
/// the adapter's instance reference are released, in that order.
#[derive(Debug, Copy, Clone, PartialEq, Eq, Hash, Structural)]
pub struct SharedDevice {
    pub strong: u64,
    pub raw: usize,
    pub raw_default_queue: usize,
    pub adapter_instance: usize,
    pub adapter_index: usize,
    pub backend_type: BackendType,
    pub error_callback: bool,
}

/// An error the native implementation delivered through the registered
/// uncaptured-error callback of a device.
#[derive(Debug, Clone, PartialEq, Eq)]
pub struct ErrorReport {
    pub device: usize,
    pub error_type: ErrorType,
    pub message: Vec<u8>,
}

/// The process state every native call goes through: the one proc table
/// (installed at most once), the native objects behind it, the log of calls
/// made through it, and the errors delivered to registered callbacks.
pub struct Registry {
    pub table: Option<ProcTable>,
    pub objects: Vec<NativeObject>,
    pub shared_devices: Vec<SharedDevice>,
    pub calls: Vec<NativeCall>,
    pub errors: Vec<ErrorReport>,
}

impl Registry {
    pub open spec fn initialized(self) -> bool {
        self.table is Some
    }

    /// The installed adapters; meaningful only once initialized.
    pub open spec fn adapters(self) -> Seq<AdapterInfo> {
        self.table->0.adapters@
    }

    /// `h` is a handle value some past create produced.
    pub open spec fn is_handle(self, h: usize) -> bool {
        1 <= h && h <= self.objects@.len()
    }

    /// The object slot `h` names.
    pub open spec fn object(self, h: usize) -> NativeObject {
        self.objects@[h - 1]
    }

    /// `h` names an object that is still referenced.
    pub open spec fn is_live(self, h: usize) -> bool {
        self.is_handle(h) && self.object(h).refcount > 0
    }

    /// `h` names a live object of kind `k`.
    pub open spec fn live_as(self, h: usize, k: HandleKind) -> bool {
        self.is_live(h) && self.object(h).kind == k
    }

    pub open spec fn is_shared_device(self, d: usize) -> bool {
        1 <= d && d <= self.shared_devices@.len()
    }

    pub open spec fn shared_device(self, d: usize) -> SharedDevice {
        self.shared_devices@[d - 1]
    }

    /// The device cell `d` still has clones alive and its raw handles name
    /// live native objects of the right kinds.
    pub open spec fn device_alive(self, d: usize) -> bool {
        &&& self.is_shared_device(d)
        &&& self.shared_device(d).strong > 0
        &&& self.live_as(self.shared_device(d).raw, HandleKind::Device)
        &&& self.live_as(self.shared_device(d).raw_default_queue, HandleKind::Queue)
        &&& self.live_as(self.shared_device(d).adapter_instance, HandleKind::Instance)
    }

    /// A registry with no table installed, no objects and an empty call log.
    pub fn new() -> (r: Registry)
        ensures
            !r.initialized(),
            r.objects@.len() == 0,
            r.shared_devices@.len() == 0,
            r.calls@.len() == 0,
            r.errors@.len() == 0,
    {
        Registry {
            table: None,
            objects: Vec::new(),
            shared_devices: Vec::new(),
            calls: Vec::new(),
            errors: Vec::new(),
        }
    }

    /// Installs a custom proc table.  Exactly one initialization may take
    /// effect: if a table is already set (by an earlier install or by the
    /// lazy default initialization) the call is a silent no-op.
    pub fn install(&mut self, t: ProcTable)
        ensures
            install_step(*old(self), *final(self), t),
    {
        if self.table.is_none() {
            self.table = Some(t);
        }
    }

    /// Installs the built-in native table if no table was installed yet.
    /// Called lazily by the first handle-producing operation.
    pub fn ensure_initialized(&mut self)
        ensures
            old(self).initialized() ==> *final(self) == *old(self),
            !old(self).initialized() ==> exists|t: ProcTable|
                is_default_table(t) && *final(self) == (Registry {
                    table: Some(t),
                    ..*old(self)
                }),
            final(self).initialized(),
    {
        if self.table.is_none() {
            let t = ProcTable::default_native();
            proof {
                assert(is_default_table(t));
            }
            self.table = Some(t);
        }
    }

    /// Creates a fresh native object with one owner and logs `call`: the
    /// common shape of every creation entry point of the proc table.
    pub(crate) fn raw_create(
        &mut self,
        kind: HandleKind,
        mapped: bool,
        contents: Vec<u8>,
        commands: Vec<BufferCopy>,
        call: NativeCall,
    ) -> (h: usize)
        requires
            old(self).objects@.len() < usize::MAX,
        ensures
            create_step(*old(self), *final(self), h),
            final(self).object(h).kind == kind,
            final(self).object(h).mapped == mapped,
            final(self).object(h).contents == contents,
            final(self).object(h).commands == commands,
            final(self).calls@ == old(self).calls@.push(call),
    {
        let h = self.objects.len() + 1;
        self.objects.push(NativeObject { kind, refcount: 1, mapped, contents, commands });
        self.calls.push(call);
        proof {
            assert(self.objects@.subrange(0, old(self).objects@.len() as int) =~= old(
                self,
            ).objects@);
            assert(self.calls@.subrange(0, old(self).calls@.len() as int) =~= old(self).calls@);
        }
        h
    }

    /// The native "reference" entry point for `h`: one more owner.
    pub(crate) fn retain(&mut self, h: usize)
        requires
            old(self).is_live(h),
            old(self).object(h).refcount < u64::MAX,
        ensures
            retain_step(*old(self), *final(self), h),
    {
        let idx = h - 1;
        let rc = self.objects[idx].refcount;
        self.objects[idx].refcount = rc + 1;
        self.calls.push(NativeCall::Retain { handle: h });
    }

    /// The native "release" entry point for `h`: one owner fewer; at zero
    /// the object is destroyed.
    pub(crate) fn release(&mut self, h: usize)
        requires
            old(self).is_live(h),
        ensures
            release_step(*old(self), *final(self), h),
    {
        let idx = h - 1;
        let rc = self.objects[idx].refcount;
        self.objects[idx].refcount = rc - 1;
        self.calls.push(NativeCall::Release { handle: h });
    }

    /// Routes one call through the proc table that only has an effect on the
    /// native side: the call is logged and nothing else moves.
    pub(crate) fn log_call(&mut self, call: NativeCall)
        ensures
            final(self).calls@ == old(self).calls@.push(call),
            final(self).objects == old(self).objects,
            final(self).shared_devices == old(self).shared_devices,
            final(self).table == old(self).table,
            final(self).errors == old(self).errors,
    {
        self.calls.push(call);
    }

    /// The native buffer-unmap entry point: the bytes written through the
    /// mapped region become the buffer's contents and the mapping is gone.
    pub(crate) fn buffer_unmap(&mut self, h: usize, data: Vec<u8>)
        requires
            old(self).is_live(h),
            data@.len() == old(self).object(h).contents@.len(),
        ensures
            final(self).objects@ == old(self).objects@.update(
                h - 1,
                (NativeObject { mapped: false, contents: data, ..old(self).object(h) }),
            ),
            final(self).object(h).contents == data,
            final(self).calls@ == old(self).calls@.push(NativeCall::BufferUnmap { buffer: h }),
            final(self).shared_devices == old(self).shared_devices,
            final(self).table == old(self).table,
            final(self).errors == old(self).errors,
    {
        let idx = h - 1;
        self.objects[idx].contents = data;
        self.objects[idx].mapped = false;
        self.calls.push(NativeCall::BufferUnmap { buffer: h });
    }

    /// Records one buffer-to-buffer copy into the command list of the
    /// encoder object `encoder`, logging the recording call.
    pub(crate) fn record_command(&mut self, encoder: usize, copy: BufferCopy)
        requires
            old(self).is_live(encoder),
        ensures
            final(self).objects@.len() == old(self).objects@.len(),
            forall|k: int|
                0 <= k < old(self).objects@.len() && k != encoder - 1 ==> final(self).objects@[k]
                    == old(self).objects@[k],
            final(self).object(encoder).commands@ == old(self).object(encoder).commands@.push(copy),
            final(self).object(encoder).kind == old(self).object(encoder).kind,
            final(self).object(encoder).refcount == old(self).object(encoder).refcount,
            final(self).object(encoder).mapped == old(self).object(encoder).mapped,
            final(self).object(encoder).contents == old(self).object(encoder).contents,
            final(self).calls@ == old(self).calls@.push(
                NativeCall::Encode { target: encoder, op: (EncodeOp::CopyBufferToBuffer { copy }) },
            ),
            final(self).shared_devices == old(self).shared_devices,
            final(self).table == old(self).table,
            final(self).errors == old(self).errors,
    {
        let idx = encoder - 1;
        self.objects[idx].commands.push(copy);
        self.calls.push(
            NativeCall::Encode { target: encoder, op: (EncodeOp::CopyBufferToBuffer { copy }) },
        );
    }

    /// Allocates a host-side shared device cell.
    pub(crate) fn new_shared_device(&mut self, sd: SharedDevice) -> (d: usize)
        requires
            old(self).shared_devices@.len() < usize::MAX,
        ensures
            d == old(self).shared_devices@.len() + 1,
            *final(self) == (Registry {
                shared_devices: final(self).shared_devices,
                ..*old(self)
            }),
            final(self).shared_devices@ == old(self).shared_devices@.push(sd),
    {
        let d = self.shared_devices.len() + 1;
        self.shared_devices.push(sd);
        d
    }

    /// One more clone of the device cell `d`.  This is host-side reference
    /// counting of the shared cell, not a native call, so nothing is logged.
    pub(crate) fn device_retain(&mut self, d: usize)
        requires
            old(self).is_shared_device(d),
            old(self).shared_device(d).strong > 0,
            old(self).shared_device(d).strong < u64::MAX,
        ensures
            *final(self) == (Registry {
                shared_devices: final(self).shared_devices,
                ..*old(self)
            }),
            final(self).shared_devices@ == old(self).shared_devices@.update(
                d - 1,
                (SharedDevice {
                    strong: (old(self).shared_device(d).strong + 1) as u64,
                    ..old(self).shared_device(d)
                }),
            ),
    {
        let idx = d - 1;
        let strong = self.shared_devices[idx].strong;
        self.shared_devices[idx].strong = strong + 1;
    }

    /// One clone of the device cell `d` fewer.  When the last clone goes,
    /// the default queue, the device and the adapter's instance reference
    /// are released, in that order.
    pub(crate) fn device_release(&mut self, d: usize)
        requires
            old(self).device_alive(d),
        ensures
            old(self).shared_device(d).strong > 1 ==> device_unshare_step(
                *old(self),
                *final(self),
                d,
            ),
            old(self).shared_device(d).strong == 1 ==> device_drop_last_step(
                *old(self),
                *final(self),
                d,
            ),
    {
        let idx = d - 1;
        let strong = self.shared_devices[idx].strong;
        self.shared_devices[idx].strong = strong - 1;
        if strong == 1 {
            let queue = self.shared_devices[idx].raw_default_queue;
            let raw = self.shared_devices[idx].raw;
            let instance = self.shared_devices[idx].adapter_instance;
            self.release(queue);
            self.release(raw);
            self.release(instance);
            proof {
                assert(self.calls@ =~= old(self).calls@ + seq![
                    NativeCall::Release { handle: old(self).shared_device(d).raw_default_queue },
                    NativeCall::Release { handle: old(self).shared_device(d).raw },
                    NativeCall::Release { handle: old(self).shared_device(d).adapter_instance },
                ]);
            }
        }
    }
}

/// The common shape of every creation entry point: one fresh object with a
/// single owner appended to the object graph, one call logged, everything
/// else untouched.
pub open spec fn create_step(pre: Registry, post: Registry, h: usize) -> bool {
    &&& h == pre.objects@.len() + 1
    &&& post.objects@.len() == pre.objects@.len() + 1
    &&& post.objects@.subrange(0, pre.objects@.len() as int) == pre.objects@
    &&& post.object(h).refcount == 1
    &&& post.calls@.len() == pre.calls@.len() + 1
    &&& post.calls@.subrange(0, pre.calls@.len() as int) == pre.calls@
    &&& post.table == pre.table
    &&& post.shared_devices == pre.shared_devices
    &&& post.errors == pre.errors
}

/// The native "reference" call on `h`: its reference count grows by one and
/// the call is logged; nothing else moves.
pub open spec fn retain_step(pre: Registry, post: Registry, h: usize) -> bool {
    &&& pre.is_live(h)
    &&& post.objects@ == pre.objects@.update(h - 1, pre.object(h).retained())
    &&& post.calls@ == pre.calls@.push(NativeCall::Retain { handle: h })
    &&& post.table == pre.table
    &&& post.shared_devices == pre.shared_devices
    &&& post.errors == pre.errors
}

/// The native "release" call on `h`: its reference count drops by one and
/// the call is logged; nothing else moves.  A release is only ever made on
/// a live handle — release after free is excluded by precondition.
pub open spec fn release_step(pre: Registry, post: Registry, h: usize) -> bool {
    &&& pre.is_live(h)
    &&& post.objects@ == pre.objects@.update(h - 1, pre.object(h).released())
    &&& post.calls@ == pre.calls@.push(NativeCall::Release { handle: h })
    &&& post.table == pre.table
    &&& post.shared_devices == pre.shared_devices
    &&& post.errors == pre.errors
}

/// Dropping one clone of a device that has other clones left: pure host-side
/// bookkeeping, no native call.
pub open spec fn device_unshare_step(pre: Registry, post: Registry, d: usize) -> bool {
    &&& post.shared_devices@ == pre.shared_devices@.update(
        d - 1,
        (SharedDevice { strong: (pre.shared_device(d).strong - 1) as u64, ..pre.shared_device(d) }),
    )
    &&& post.objects == pre.objects
    &&& post.calls == pre.calls
    &&& post.table == pre.table
    &&& post.errors == pre.errors
}

/// Dropping the last clone of a device: the default queue, the device and
/// the adapter's instance reference are each released exactly once.
pub open spec fn device_drop_last_step(pre: Registry, post: Registry, d: usize) -> bool {
    let sd = pre.shared_device(d);
    &&& post.shared_devices@ == pre.shared_devices@.update(
        d - 1,
        (SharedDevice { strong: 0, ..sd }),
    )
    &&& post.objects@ == pre.objects@.update(
        sd.raw_default_queue - 1,
        pre.object(sd.raw_default_queue).released(),
    ).update(sd.raw - 1, pre.object(sd.raw).released()).update(
        sd.adapter_instance - 1,
        pre.object(sd.adapter_instance).released(),
    )
    &&& post.calls@ == pre.calls@ + seq![
        NativeCall::Release { handle: sd.raw_default_queue },
        NativeCall::Release { handle: sd.raw },
        NativeCall::Release { handle: sd.adapter_instance },
    ]
    &&& post.table == pre.table
    &&& post.errors == pre.errors
}

/// A recorded copy can be replayed: both ends are live, unmapped buffers and
/// both ranges lie inside their buffers.  A copy that is not well formed is
/// rejected by the native validation and leaves every buffer untouched.
pub open spec fn spec_copy_ok(objs: Seq<NativeObject>, c: BufferCopy) -> bool {
    &&& 1 <= c.source <= objs.len()
    &&& 1 <= c.destination <= objs.len()
    &&& objs[c.source - 1].refcount > 0
    &&& objs[c.destination - 1].refcount > 0
    &&& objs[c.source - 1].kind == HandleKind::Buffer
    &&& objs[c.destination - 1].kind == HandleKind::Buffer
    &&& !objs[c.source - 1].mapped
    &&& !objs[c.destination - 1].mapped
    &&& c.source_offset + c.size <= objs[c.source - 1].contents@.len()
    &&& c.destination_offset + c.size <= objs[c.destination - 1].contents@.len()
}

/// `dst` with the bytes `src[src_off .. src_off + size]` written at
/// `dst_off`.
pub open spec fn spliced(dst: Seq<u8>, dst_off: int, src: Seq<u8>, src_off: int, size: int) -> Seq<
    u8,
> {
    Seq::new(
        dst.len(),
        |i: int|
            if dst_off <= i < dst_off + size {
                src[src_off + (i - dst_off)]
            } else {
                dst[i]
            },
    )
}

/// The contents of every object slot, as one sequence of byte sequences.
pub open spec fn contents_views(objs: Seq<NativeObject>) -> Seq<Seq<u8>> {
    Seq::new(objs.len(), |i: int| objs[i].contents@)
}

/// One copy applied to the contents views: a well-formed copy splices the
/// destination, anything else changes nothing.  Validity is judged against
/// the object graph `objs`, whose liveness, kinds and lengths a replay never
/// changes.
pub open spec fn apply_one_view(objs: Seq<NativeObject>, cv: Seq<Seq<u8>>, c: BufferCopy) -> Seq<
    Seq<u8>,
> {
    if spec_copy_ok(objs, c) {
        cv.update(
            c.destination - 1,
            spliced(
                cv[c.destination - 1],
                c.destination_offset as int,
                cv[c.source - 1],
                c.source_offset as int,
                c.size as int,
            ),
        )
    } else {
        cv
    }
}

/// A list of copies applied in order.
pub open spec fn apply_copies_view(objs: Seq<NativeObject>, cv: Seq<Seq<u8>>, cs: Seq<BufferCopy>) -> Seq<
    Seq<u8>,
>
    decreases cs.len(),
{
    if cs.len() == 0 {
        cv
    } else {
        apply_one_view(objs, apply_copies_view(objs, cv, cs.drop_last()), cs.last())
    }
}

/// All copies the listed command buffers hold, in submission order.
pub open spec fn submitted_copies(objs: Seq<NativeObject>, handles: Seq<usize>) -> Seq<BufferCopy>
    decreases handles.len(),
{
    if handles.len() == 0 {
        Seq::<BufferCopy>::empty()
    } else {
        submitted_copies(objs, handles.drop_last()) + objs[handles.last() - 1].commands@
    }
}

impl Registry {
    /// Replays one recorded copy against the buffer contents, as the native
    /// submission does: a well-formed copy splices its bytes into the
    /// destination, any other is rejected by validation and changes nothing.
    /// Nothing but the destination's contents moves, so liveness, kinds and
    /// every content length stay as they were.
    pub(crate) fn apply_copy(&mut self, c: BufferCopy)
        ensures
            final(self).objects@.len() == old(self).objects@.len(),
            contents_views(final(self).objects@) == apply_one_view(
                old(self).objects@,
                contents_views(old(self).objects@),
                c,
            ),
            forall|k: int|
                0 <= k < old(self).objects@.len() ==> {
                    let o_new = #[trigger] final(self).objects@[k];
                    let o_old = old(self).objects@[k];
                    o_new.kind == o_old.kind && o_new.refcount == o_old.refcount && o_new.mapped
                        == o_old.mapped && o_new.commands == o_old.commands && o_new.contents@.len()
                        == o_old.contents@.len()
                },
            final(self).calls == old(self).calls,
            final(self).shared_devices == old(self).shared_devices,
            final(self).table == old(self).table,
            final(self).errors == old(self).errors,
    {
        let n = self.objects.len();
        let ok = 1 <= c.source && c.source <= n && 1 <= c.destination && c.destination <= n
            && self.objects[c.source - 1].refcount > 0 && self.objects[c.destination
            - 1].refcount > 0 && self.objects[c.source - 1].kind == HandleKind::Buffer
            && self.objects[c.destination - 1].kind == HandleKind::Buffer && !self.objects[c.source
            - 1].mapped && !self.objects[c.destination - 1].mapped;
        if !ok {
            proof {
                assert(contents_views(self.objects@) =~= apply_one_view(
                    old(self).objects@,
                    contents_views(old(self).objects@),
                    c,
                ));
            }
            return ;
        }
        let src_len = self.objects[c.source - 1].contents.len();
        let dst_len = self.objects[c.destination - 1].contents.len();
        if !(c.size <= src_len as u64 && c.source_offset <= (src_len as u64 - c.size)
            && c.size <= dst_len as u64 && c.destination_offset <= (dst_len as u64 - c.size)) {
            proof {
                assert(contents_views(self.objects@) =~= apply_one_view(
                    old(self).objects@,
                    contents_views(old(self).objects@),
                    c,
                ));
            }
            return ;
        }
        let dst_off = c.destination_offset as usize;
        let src_off = c.source_offset as usize;
        let size = c.size as usize;
        let mut updated: Vec<u8> = Vec::new();
        let mut i: usize = 0;
        while i < dst_len
            invariant
                spec_copy_ok(self.objects@, c),
                *self == *old(self),
                i <= dst_len,
                dst_len == self.objects@[c.destination - 1].contents@.len(),
                src_len == self.objects@[c.source - 1].contents@.len(),
                dst_off == c.destination_offset,
                src_off == c.source_offset,
                size == c.size,
                dst_off + size <= dst_len,
                src_off + size <= src_len,
                updated@.len() == i,
                forall|k: int|
                    0 <= k < i ==> updated@[k] == spliced(
                        self.objects@[c.destination - 1].contents@,
                        dst_off as int,
                        self.objects@[c.source - 1].contents@,
                        src_off as int,
                        size as int,
                    )[k],
            decreases dst_len - i,
        {
            let b = if dst_off <= i && i < dst_off + size {
                self.objects[c.source - 1].contents[src_off + (i - dst_off)]
            } else {
                self.objects[c.destination - 1].contents[i]
            };
            updated.push(b);
            i = i + 1;
        }
        proof {
            assert(updated@ =~= spliced(
                self.objects@[c.destination - 1].contents@,
                dst_off as int,
                self.objects@[c.source - 1].contents@,
                src_off as int,
                size as int,
            ));
        }
        self.objects[c.destination - 1].contents = updated;
        proof {
            assert(contents_views(self.objects@) =~~= apply_one_view(
                old(self).objects@,
                contents_views(old(self).objects@),
                c,
            ));
        }
    }
}

/// A call that only has an effect on the native side: it is logged and
/// nothing else in the registry moves.
pub open spec fn log_only_step(pre: Registry, post: Registry, call: NativeCall) -> bool {
    &&& post.calls@ == pre.calls@.push(call)
    &&& post.objects == pre.objects
    &&& post.shared_devices == pre.shared_devices
    &&& post.table == pre.table
    &&& post.errors == pre.errors
}

/// The shape of a builder call on a device: one fresh object with a single
/// owner appended (as in [`create_step`]), while the new wrapper also takes
/// one more clone of the issuing device's cell.
pub open spec fn device_create_step(pre: Registry, post: Registry, h: usize, d: usize) -> bool {
    &&& h == pre.objects@.len() + 1
    &&& post.objects@.len() == pre.objects@.len() + 1
    &&& post.objects@.subrange(0, pre.objects@.len() as int) == pre.objects@
    &&& post.object(h).refcount == 1
    &&& post.calls@.len() == pre.calls@.len() + 1
    &&& post.calls@.subrange(0, pre.calls@.len() as int) == pre.calls@
    &&& post.shared_devices@ == pre.shared_devices@.update(
        d - 1,
        (SharedDevice {
            strong: (pre.shared_device(d).strong + 1) as u64,
            ..pre.shared_device(d)
        }),
    )
    &&& post.table == pre.table
    &&& post.errors == pre.errors
}

/// A vector of `n` zero bytes: the initial contents of a fresh buffer.
pub fn zero_bytes(n: usize) -> (v: Vec<u8>)
    ensures
        v@ == Seq::new(n as nat, |i: int| 0u8),
{
    let mut v: Vec<u8> = Vec::new();
    let mut i: usize = 0;
    while i < n
        invariant
            i <= n,
            v@.len() == i,
            forall|k: int| 0 <= k < i ==> v@[k] == 0u8,
        decreases n - i,
    {
        v.push(0);
        i = i + 1;
    }
    proof {
        assert(v@ =~= Seq::new(n as nat, |i: int| 0u8));
    }
    v
}

/// Installing a proc table: it takes effect only if no table is set yet;
/// otherwise the state is untouched.
pub open spec fn install_step(pre: Registry, post: Registry, t: ProcTable) -> bool {
    if pre.initialized() {
        post == pre
    } else {
        post == (Registry { table: Some(t), ..pre })
    }
}

/// Duplicating a device-owned wrapper: the native object gains one owner
/// (logged), and the shared device cell gains one host-side clone.
pub open spec fn clone_handle_step(pre: Registry, post: Registry, h: usize, d: usize) -> bool {
    &&& pre.is_live(h)
    &&& post.objects@ == pre.objects@.update(h - 1, pre.object(h).retained())
    &&& post.calls@ == pre.calls@.push(NativeCall::Retain { handle: h })
    &&& post.shared_devices@ == pre.shared_devices@.update(
        d - 1,
        (SharedDevice {
            strong: (pre.shared_device(d).strong + 1) as u64,
            ..pre.shared_device(d)
        }),
    )
    &&& post.table == pre.table
    &&& post.errors == pre.errors
}

/// Releasing a device-owned wrapper: the native object loses its owner
/// (logged, exactly once), then the wrapper's clone of the device cell is
/// dropped, cascading into the cell's own releases if it was the last one.
pub open spec fn drop_handle_step(pre: Registry, post: Registry, h: usize, d: usize) -> bool {
    exists|mid: Registry|
        release_step(pre, mid, h) && if pre.shared_device(d).strong > 1 {
            device_unshare_step(mid, post, d)
        } else {
            device_drop_last_step(mid, post, d)
        }
}

} // verus!
