//! Tests of surfaces and swap chains, including the backend-native path.

use dawn_rs::native_swap_chain::{
    create_swap_chain, get_vulkan_instance, NativeSwapChainDescriptor, NativeSwapChainSurfaceParams,
};
use dawn_rs::{
    AdapterInfo, AdapterType, BackendType, DeviceDescriptor, DeviceProperties, Instance,
    NativeCall, PresentMode, ProcTable, Registry, SurfaceParams, TextureFormat,
};

fn vulkan_registry() -> (Registry, dawn_rs::Device) {
    let mut reg = Registry::new();
    reg.install(ProcTable {
        adapters: vec![AdapterInfo {
            name: String::from("vk"),
            adapter_type: AdapterType::DiscreteGPU,
            backend_type: BackendType::Vulkan,
            vendor_id: 0,
            device_id: 0,
            properties: DeviceProperties { texture_compression_bc: false },
        }],
        preferred_swap_chain_format: TextureFormat::BGRA8Unorm,
        vulkan_instance: 99,
    });
    let instance = Instance::new(&mut reg);
    let adapters = instance.enumerate_adapters(&mut reg);
    let device = adapters[0].create_device(&mut reg, &DeviceDescriptor::default());
    (reg, device)
}

#[test]
fn surface_creation_marshals_the_platform_chain() {
    let (mut reg, _device) = vulkan_registry();
    let instance = Instance::new(&mut reg);
    let params = SurfaceParams::Xlib { display: 0x1000, window: 77 };
    let _surface = instance.create_surface(&mut reg, &params);
    let created = reg.calls.iter().any(|c| {
        matches!(
            c,
            NativeCall::CreateSurface {
                chain: dawn_rs::native_desc::NativeSurfaceChain::Xlib { display: 0x1000, window: 77 },
                ..
            }
        )
    });
    assert!(created);
}

#[test]
fn native_swap_chain_uses_the_preferred_format_and_configures_once() {
    let (mut reg, device) = vulkan_registry();
    let sc = create_swap_chain(
        &device,
        &mut reg,
        NativeSwapChainDescriptor {
            params: NativeSwapChainSurfaceParams::Vulkan { surface: 0xABCD },
            width: 640,
            height: 480,
            present_mode: PresentMode::Fifo,
        },
    );
    let configures = reg
        .calls
        .iter()
        .filter(|c| matches!(c, NativeCall::SwapChainConfigure { .. }))
        .count();
    assert_eq!(configures, 1);
    match reg
        .calls
        .iter()
        .find(|c| matches!(c, NativeCall::CreateSwapChain { .. }))
        .unwrap()
    {
        NativeCall::CreateSwapChain { descriptor, .. } => {
            assert_eq!(descriptor.format, TextureFormat::BGRA8Unorm);
            assert_eq!(descriptor.width, 640);
            assert_eq!(descriptor.height, 480);
        }
        _ => unreachable!(),
    }
    sc.present(&mut reg);
    assert!(matches!(reg.calls.last().unwrap(), NativeCall::SwapChainPresent { .. }));
}

#[test]
fn vulkan_instance_query_reads_the_table() {
    let (mut reg, device) = vulkan_registry();
    assert_eq!(get_vulkan_instance(&device, &mut reg), 99);
}

#[test]
fn get_current_texture_view_yields_a_fresh_view() {
    let (mut reg, device) = vulkan_registry();
    let sc = create_swap_chain(
        &device,
        &mut reg,
        NativeSwapChainDescriptor {
            params: NativeSwapChainSurfaceParams::Vulkan { surface: 1 },
            width: 4,
            height: 4,
            present_mode: PresentMode::Immediate,
        },
    );
    let before = reg.objects.len();
    let _view = sc.get_current_texture_view(&mut reg);
    assert_eq!(reg.objects.len(), before + 1);
    assert!(matches!(reg.calls.last().unwrap(), NativeCall::GetCurrentTextureView { .. }));
}
