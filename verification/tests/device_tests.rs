//! Tests of the device builders and the error channel, driven through a
//! mock proc table.

use dawn_rs::{
    AdapterInfo, AdapterType, BackendType, BufferDescriptor, BufferUsage, DeviceDescriptor,
    DeviceProperties, ErrorType, Instance, NativeCall, ProcTable, Registry, TextureFormat,
};

fn setup() -> (Registry, dawn_rs::Device) {
    let mut reg = Registry::new();
    reg.install(ProcTable {
        adapters: vec![AdapterInfo {
            name: String::from("mock-adapter"),
            adapter_type: AdapterType::DiscreteGPU,
            backend_type: BackendType::Vulkan,
            vendor_id: 1,
            device_id: 2,
            properties: DeviceProperties { texture_compression_bc: false },
        }],
        preferred_swap_chain_format: TextureFormat::BGRA8Unorm,
        vulkan_instance: 7,
    });
    let instance = Instance::new(&mut reg);
    let adapters = instance.enumerate_adapters(&mut reg);
    let device = adapters[0].create_device(&mut reg, &DeviceDescriptor::default());
    (reg, device)
}

#[test]
fn create_buffer_size_256_with_vertex_copy_dst() {
    let (mut reg, device) = setup();
    let device_raw = device.raw(&reg);
    let usage = BufferUsage::vertex().union(BufferUsage::copy_dst());
    let buffer = device.create_buffer(
        &mut reg,
        &BufferDescriptor { label: None, size: 256, usage },
    );
    assert!(!buffer.is_null());
    let create_calls: Vec<&NativeCall> = reg
        .calls
        .iter()
        .filter(|c| matches!(c, NativeCall::CreateBuffer { .. }))
        .collect();
    assert_eq!(create_calls.len(), 1);
    match create_calls[0] {
        NativeCall::CreateBuffer { device: d, size, usage: u, mapped, .. } => {
            assert_eq!(*d, device_raw);
            assert_eq!(*size, 256);
            assert_eq!(*u, 32 | 8);
            assert!(!*mapped);
        }
        _ => unreachable!(),
    }
    assert_eq!(buffer.contents(&reg).len(), 256);
}

#[test]
fn buffer_label_is_marshaled_null_terminated() {
    let (mut reg, device) = setup();
    let _buffer = device.create_buffer(
        &mut reg,
        &BufferDescriptor { label: Some("staging"), size: 8, usage: BufferUsage::copy_src() },
    );
    match reg.calls.last().unwrap() {
        NativeCall::CreateBuffer { label, .. } => assert_eq!(label.as_slice(), b"staging\0"),
        _ => unreachable!(),
    }
}

#[test]
fn adapter_reports_mock_properties() {
    let mut reg = Registry::new();
    reg.install(ProcTable {
        adapters: vec![AdapterInfo {
            name: String::from("gpu-zero"),
            adapter_type: AdapterType::CPU,
            backend_type: BackendType::D3D12,
            vendor_id: 0xAAAA,
            device_id: 0xBBBB,
            properties: DeviceProperties { texture_compression_bc: true },
        }],
        preferred_swap_chain_format: TextureFormat::RGBA8Unorm,
        vulkan_instance: 0,
    });
    let instance = Instance::new(&mut reg);
    let adapters = instance.enumerate_adapters(&mut reg);
    let p = adapters[0].properties(&reg);
    assert_eq!(p.name, "gpu-zero");
    assert_eq!(p.adapter_type, AdapterType::CPU);
    assert_eq!(p.backend_type, BackendType::D3D12);
    assert_eq!(p.vendor_id, 0xAAAA);
    assert_eq!(p.device_id, 0xBBBB);
    assert!(adapters[0].extensions(&reg).texture_compression_bc);
}

#[test]
fn injected_error_reaches_registered_callback() {
    let (mut reg, device) = setup();
    device.inject_error(&mut reg, "before registration", ErrorType::Validation);
    assert_eq!(reg.errors.len(), 0);
    device.set_error_callback(&mut reg);
    device.inject_error(&mut reg, "buffer too small", ErrorType::OutOfMemory);
    assert_eq!(reg.errors.len(), 1);
    assert_eq!(reg.errors[0].error_type, ErrorType::OutOfMemory);
    assert_eq!(reg.errors[0].message.as_slice(), b"buffer too small\0");
}

#[test]
fn tick_is_logged_against_the_device() {
    let (mut reg, device) = setup();
    let device_raw = device.raw(&reg);
    device.tick(&mut reg);
    assert_eq!(*reg.calls.last().unwrap(), NativeCall::Tick { device: device_raw });
}

#[test]
fn set_sub_data_writes_in_bounds_and_rejects_overflow() {
    let (mut reg, device) = setup();
    let buffer = device.create_buffer(
        &mut reg,
        &BufferDescriptor { label: None, size: 8, usage: BufferUsage::copy_dst() },
    );
    buffer.set_sub_data(&mut reg, 2, &[9, 8, 7]);
    assert_eq!(buffer.contents(&reg).as_slice(), &[0, 0, 9, 8, 7, 0, 0, 0]);
    // A write past the end is rejected by validation and changes nothing.
    buffer.set_sub_data(&mut reg, 7, &[1, 2, 3]);
    assert_eq!(buffer.contents(&reg).as_slice(), &[0, 0, 9, 8, 7, 0, 0, 0]);
}

#[test]
fn texture_and_view_creation_marshal_their_descriptors() {
    let (mut reg, device) = setup();
    let texture = device.create_texture(
        &mut reg,
        &dawn_rs::TextureDescriptor {
            label: Some("target"),
            usage: dawn_rs::TextureUsage::sampled().union(dawn_rs::TextureUsage::copy_dst()),
            dimension: dawn_rs::TextureDimension::D2,
            size: dawn_rs::Extent3d { width: 16, height: 16, depth: 1 },
            array_layer_count: 1,
            format: TextureFormat::RGBA8Unorm,
            mip_level_count: 1,
            sample_count: 1,
        },
    );
    match reg.calls.last().unwrap() {
        NativeCall::CreateTexture { descriptor, .. } => {
            assert_eq!(descriptor.label.as_slice(), b"target\0");
            assert_eq!(descriptor.usage, 4 | 2);
            assert_eq!(descriptor.size, dawn_rs::Extent3d { width: 16, height: 16, depth: 1 });
        }
        _ => unreachable!(),
    }
    let texture_id = reg.objects.len();
    let _view = texture.create_view(
        &mut reg,
        &dawn_rs::TextureViewDescriptor {
            label: None,
            format: TextureFormat::RGBA8Unorm,
            dimension: dawn_rs::TextureViewDimension::D2,
            base_mip_level: 0,
            mip_level_count: 1,
            base_array_layer: 0,
            array_layer_count: 1,
            aspect: dawn_rs::TextureAspect::All,
        },
    );
    match reg.calls.last().unwrap() {
        NativeCall::CreateTextureView { texture: t, descriptor } => {
            assert_eq!(*t, texture_id);
            assert_eq!(descriptor.mip_level_count, 1);
        }
        _ => unreachable!(),
    }
}

#[test]
fn explicit_unmap_is_logged_once() {
    let (mut reg, device) = setup();
    let buffer = device.create_buffer(
        &mut reg,
        &BufferDescriptor { label: None, size: 4, usage: BufferUsage::map_write() },
    );
    let buffer_id = reg.objects.len();
    buffer.unmap(&mut reg);
    let unmaps = reg
        .calls
        .iter()
        .filter(|c| **c == NativeCall::BufferUnmap { buffer: buffer_id })
        .count();
    assert_eq!(unmaps, 1);
}
