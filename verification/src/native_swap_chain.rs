//! Swap chains built directly on a backend's native window-system objects:
//! the backend creates an implementation block for the platform handle, the
//! preferred texture format is queried from it, and the swap chain is
//! created over that block and configured once.

use vstd::prelude::*;

pub use crate::native_desc::NativeSwapChainSurfaceParams;

use crate::descriptors::SwapChainDescriptor;
use crate::enums::{BackendType, PresentMode};
use crate::flags::TextureUsage;
use crate::handles::Device;
use crate::registry::{HandleKind, NativeCall, Registry};
use crate::swap_chain::SwapChain;

verus! {

/// What a backend-native swap chain is built from.
pub struct NativeSwapChainDescriptor {
    pub params: NativeSwapChainSurfaceParams,
    pub width: u32,
    pub height: u32,
    pub present_mode: PresentMode,
}

/// The backend the platform parameters belong to.
pub open spec fn params_backend(params: NativeSwapChainSurfaceParams) -> BackendType {
    match params {
        NativeSwapChainSurfaceParams::D3D12 { .. } => BackendType::D3D12,
        NativeSwapChainSurfaceParams::Vulkan { .. } => BackendType::Vulkan,
    }
}

/// Builds a swap chain over the backend's native window-system object.  The
/// parameters must belong to the device's backend; a mismatch is a fatal
/// programming error, excluded by precondition.
pub fn create_swap_chain(
    device: &Device,
    reg: &mut Registry,
    descriptor: NativeSwapChainDescriptor,
) -> (sc: SwapChain)
    requires
        old(reg).device_alive(device.cell()),
        old(reg).initialized(),
        params_backend(descriptor.params) == old(reg).shared_device(device.cell()).backend_type,
        old(reg).shared_device(device.cell()).strong < u64::MAX,
        old(reg).objects@.len() + 2 <= usize::MAX,
    ensures
        sc.device_cell() == device.cell(),
        sc.wf(*final(reg)),
        sc.backend() == old(reg).shared_device(device.cell()).backend_type,
        sc.impl_handle() == Some((old(reg).objects@.len() + 1) as usize),
        final(reg).live_as((old(reg).objects@.len() + 1) as usize, HandleKind::SwapChainImpl),
        final(reg).objects@.len() == old(reg).objects@.len() + 2,
        final(reg).objects@.subrange(0, old(reg).objects@.len() as int) == old(reg).objects@,
        final(reg).calls@.len() == old(reg).calls@.len() + 4,
        final(reg).calls@.subrange(0, old(reg).calls@.len() as int) == old(reg).calls@,
        final(reg).calls@[old(reg).calls@.len() as int] == (NativeCall::CreateNativeSwapChainImpl {
            device: old(reg).shared_device(device.cell()).raw,
            params: descriptor.params,
        }),
        final(reg).calls@[old(reg).calls@.len() as int + 1] == (
        NativeCall::GetPreferredSwapChainFormat {
            device: old(reg).shared_device(device.cell()).raw,
        }),
        (final(reg).calls@[old(reg).calls@.len() as int + 2] matches NativeCall::CreateSwapChain {
            device: d,
            surface,
            descriptor: nd,
        } && d == old(reg).shared_device(device.cell()).raw && surface == 0 && nd.label@ == Seq::<
            u8,
        >::empty() && nd.usage == 16 && nd.format == old(
            reg,
        ).table->0.preferred_swap_chain_format && nd.width == descriptor.width && nd.height
            == descriptor.height && nd.present_mode == descriptor.present_mode
            && nd.implementation == (old(reg).objects@.len() + 1) as u64),
        final(reg).calls@[old(reg).calls@.len() as int + 3] == (NativeCall::SwapChainConfigure {
            swap_chain: sc.raw(),
            format: old(reg).table->0.preferred_swap_chain_format,
            usage: 16,
            width: descriptor.width,
            height: descriptor.height,
        }),
        final(reg).table == old(reg).table,
        final(reg).errors == old(reg).errors,
{
    let device_raw = device.raw(reg);
    let ghost s0 = *reg;
    let impl_raw = reg.raw_create(
        HandleKind::SwapChainImpl,
        false,
        Vec::new(),
        Vec::new(),
        NativeCall::CreateNativeSwapChainImpl { device: device_raw, params: descriptor.params },
    );
    let ghost s1 = *reg;
    reg.log_call(NativeCall::GetPreferredSwapChainFormat { device: device_raw });
    let ghost s2 = *reg;
    proof {
        assert(s2.device_alive(device.cell()));
        assert(s2.calls@.subrange(0, s0.calls@.len() as int) =~= s0.calls@);
    }
    let format = match &reg.table {
        Some(t) => t.preferred_swap_chain_format,
        None => vstd::pervasive::unreached(),
    };
    let sc_descriptor = SwapChainDescriptor {
        label: None,
        width: descriptor.width,
        height: descriptor.height,
        format,
        present_mode: descriptor.present_mode,
        usage: TextureUsage::output_attachment(),
        implementation: impl_raw as u64,
    };
    let mut swap_chain = device.create_swap_chain(reg, None, &sc_descriptor);
    let ghost s3 = *reg;
    proof {
        assert(s3.calls@.subrange(0, s2.calls@.len() as int) == s2.calls@);
        assert(s3.calls@.subrange(0, s0.calls@.len() as int) =~= s0.calls@);
        assert(s3.calls@[s0.calls@.len() as int] == s2.calls@[s0.calls@.len() as int]);
        assert(s3.calls@[s0.calls@.len() as int + 1] == s2.calls@[s0.calls@.len() as int + 1]);
        assert(s3.objects@.subrange(0, s0.objects@.len() as int) =~= s0.objects@);
    }
    reg.log_call(
        NativeCall::SwapChainConfigure {
            swap_chain: swap_chain.inner.raw,
            format,
            usage: sc_descriptor.usage.bits,
            width: sc_descriptor.width,
            height: sc_descriptor.height,
        },
    );
    swap_chain.swap_chain_impl = Some(impl_raw);
    proof {
        assert(reg.calls@.subrange(0, old(reg).calls@.len() as int) =~= old(reg).calls@);
        assert(reg.objects@.subrange(0, old(reg).objects@.len() as int) =~= old(reg).objects@);
    }
    swap_chain
}

/// The backend's instance object behind a device bound to the Vulkan-style
/// backend; asking any other backend is a fatal programming error, excluded
/// by precondition.
pub fn get_vulkan_instance(device: &Device, reg: &mut Registry) -> (r: usize)
    requires
        old(reg).device_alive(device.cell()),
        old(reg).initialized(),
        old(reg).shared_device(device.cell()).backend_type == BackendType::Vulkan,
    ensures
        r == old(reg).table->0.vulkan_instance,
        crate::registry::log_only_step(
            *old(reg),
            *final(reg),
            (NativeCall::GetVulkanInstance {
                device: old(reg).shared_device(device.cell()).raw,
            }),
        ),
{
    let device_raw = device.raw(reg);
    reg.log_call(NativeCall::GetVulkanInstance { device: device_raw });
    match &reg.table {
        Some(t) => t.vulkan_instance,
        None => vstd::pervasive::unreached(),
    }
}

} // verus!
