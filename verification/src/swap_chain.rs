//! Swap chains: presenting rendered images to a window surface.

use vstd::prelude::*;

use crate::descriptors::SwapChainDescriptor;
use crate::enums::{BackendType, TextureFormat};
use crate::flags::TextureUsage;
use crate::handles::{build_on_device, Device, Surface, TextureView};
use crate::marshal::{label_ok, marshal_swap_chain, swap_chain_marshals};
use crate::registry::{HandleKind, NativeCall, Registry};

verus! {

pub(crate) struct SwapChainInner {
    pub(crate) raw: usize,
    pub(crate) device: Device,
}

/// A swap chain bound to a device.  It may carry the handle of a
/// backend-created native implementation block; that block has no release
/// entry point, so it lives for the rest of the process.
pub struct SwapChain {
    pub(crate) inner: SwapChainInner,
    pub(crate) backend_type: BackendType,
    pub(crate) swap_chain_impl: Option<usize>,
}

impl SwapChain {
    pub open(crate) spec fn raw(self) -> usize {
        self.inner.raw
    }

    pub open(crate) spec fn device_cell(self) -> usize {
        self.inner.device.cell
    }

    pub open(crate) spec fn backend(self) -> BackendType {
        self.backend_type
    }

    pub open(crate) spec fn impl_handle(self) -> Option<usize> {
        self.swap_chain_impl
    }

    pub open spec fn wf(self, reg: Registry) -> bool {
        &&& reg.live_as(self.raw(), HandleKind::SwapChain)
        &&& reg.device_alive(self.device_cell())
    }

    /// Presents the current image: a plain native call under the device's
    /// serialization.
    pub fn present(&self, reg: &mut Registry)
        requires
            self.wf(*old(reg)),
        ensures
            crate::registry::log_only_step(
                *old(reg),
                *final(reg),
                (NativeCall::SwapChainPresent { swap_chain: self.raw() }),
            ),
    {
        reg.log_call(NativeCall::SwapChainPresent { swap_chain: self.inner.raw });
    }

    /// The texture view to render the next frame into, as a fresh owned
    /// handle.
    pub fn get_current_texture_view(&self, reg: &mut Registry) -> (v: TextureView)
        requires
            self.wf(*old(reg)),
            old(reg).shared_device(self.device_cell()).strong < u64::MAX,
            old(reg).objects@.len() < usize::MAX,
        ensures
            v.device_cell() == self.device_cell(),
            v.wf(*final(reg)),
            crate::registry::device_create_step(*old(reg), *final(reg), v.raw(), self.device_cell()),
            final(reg).object(v.raw()).kind == HandleKind::TextureView,
            final(reg).calls@.last() == (NativeCall::GetCurrentTextureView {
                swap_chain: self.raw(),
            }),
    {
        let raw = build_on_device(
            &self.inner.device,
            reg,
            HandleKind::TextureView,
            false,
            Vec::new(),
            Vec::new(),
            NativeCall::GetCurrentTextureView { swap_chain: self.inner.raw },
        );
        TextureView { raw, device: Device { cell: self.inner.device.cell } }
    }

    /// Reconfigures the swap chain.  The D3D12 backend crashes if configured
    /// more than once (window resizing does not require it there), so on that
    /// backend the call is a no-op.
    pub fn configure(
        &self,
        reg: &mut Registry,
        format: TextureFormat,
        allowed_usage: TextureUsage,
        width: u32,
        height: u32,
    )
        requires
            self.wf(*old(reg)),
        ensures
            self.backend() == BackendType::D3D12 ==> *final(reg) == *old(reg),
            self.backend() != BackendType::D3D12 ==> crate::registry::log_only_step(
                *old(reg),
                *final(reg),
                (NativeCall::SwapChainConfigure {
                    swap_chain: self.raw(),
                    format,
                    usage: allowed_usage.bits,
                    width,
                    height,
                }),
            ),
    {
        if self.backend_type == BackendType::D3D12 {
            return ;
        }
        reg.log_call(
            NativeCall::SwapChainConfigure {
                swap_chain: self.inner.raw,
                format,
                usage: allowed_usage.bits,
                width,
                height,
            },
        );
    }

    /// Releases the swap chain exactly once; the implementation block, if
    /// any, has no release entry point and stays with the process.
    pub fn release(self, reg: &mut Registry)
        requires
            self.wf(*old(reg)),
        ensures
            crate::registry::drop_handle_step(
                *old(reg),
                *final(reg),
                self.raw(),
                self.device_cell(),
            ),
    {
        crate::handles::release_parts(self.inner.raw, self.inner.device, reg);
    }
}

impl Device {
    /// Creates a swap chain on a surface (or none, when the descriptor names
    /// a native implementation block directly).
    pub fn create_swap_chain(
        &self,
        reg: &mut Registry,
        surface: Option<&Surface>,
        descriptor: &SwapChainDescriptor,
    ) -> (sc: SwapChain)
        requires
            old(reg).device_alive(self.cell()),
            old(reg).shared_device(self.cell()).strong < u64::MAX,
            old(reg).objects@.len() < usize::MAX,
            label_ok(descriptor.label),
        ensures
            sc.device_cell() == self.cell(),
            sc.wf(*final(reg)),
            sc.backend() == old(reg).shared_device(self.cell()).backend_type,
            sc.impl_handle() is None,
            crate::registry::device_create_step(*old(reg), *final(reg), sc.raw(), self.cell()),
            final(reg).object(sc.raw()).kind == HandleKind::SwapChain,
            (final(reg).calls@.last() matches NativeCall::CreateSwapChain {
                device,
                surface: s,
                descriptor: nd,
            } && device == old(reg).shared_device(self.cell()).raw && s == (match surface {
                Some(sf) => sf.raw(),
                None => 0,
            }) && swap_chain_marshals(nd, *descriptor)),
    {
        let nd = marshal_swap_chain(descriptor);
        let device_raw = self.raw(reg);
        let surface_raw = match surface {
            Some(sf) => sf.raw,
            None => 0,
        };
        let backend_type = self.backend(reg);
        let raw = build_on_device(
            self,
            reg,
            HandleKind::SwapChain,
            false,
            Vec::new(),
            Vec::new(),
            NativeCall::CreateSwapChain { device: device_raw, surface: surface_raw, descriptor: nd },
        );
        SwapChain {
            inner: SwapChainInner { raw, device: Device { cell: self.cell } },
            backend_type,
            swap_chain_impl: None,
        }
    }

    /// The backend this device is bound to, read from the shared cell.
    pub fn backend(&self, reg: &Registry) -> (b: BackendType)
        requires
            reg.device_alive(self.cell()),
        ensures
            b == reg.shared_device(self.cell()).backend_type,
    {
        reg.shared_devices[self.cell - 1].backend_type
    }
}

} // verus!
