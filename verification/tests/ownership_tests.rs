//! Tests of the ownership graph: children keep their parents alive, and the
//! teardown order releases each native object exactly once.

use dawn_rs::{
    AdapterInfo, AdapterType, BackendType, BindGroupDescriptor, BindGroupEntry,
    BindGroupLayoutDescriptor, BindingResource, BufferBinding, BufferDescriptor, BufferUsage,
    DeviceDescriptor, DeviceProperties, Instance, NativeCall, ProcTable, Registry,
    SamplerDescriptor, TextureFormat, WHOLE_SIZE,
};

fn setup() -> (Registry, dawn_rs::Device) {
    let mut reg = Registry::new();
    let instance = Instance::new(&mut reg);
    let adapters = instance.enumerate_adapters(&mut reg);
    let device = adapters[0].create_device(&mut reg, &DeviceDescriptor::default());
    (reg, device)
}

fn releases_of(reg: &Registry, h: usize) -> usize {
    reg.calls
        .iter()
        .filter(|c| **c == NativeCall::Release { handle: h })
        .count()
}

#[test]
fn a_buffer_keeps_its_device_alive() {
    let (mut reg, device) = setup();
    let device_id = reg.shared_devices[0].raw;
    let queue_id = reg.shared_devices[0].raw_default_queue;
    let buffer = device.create_buffer(
        &mut reg,
        &BufferDescriptor { label: None, size: 4, usage: BufferUsage::uniform() },
    );
    // Dropping the caller's device handle must not tear the device down:
    // the buffer still holds a clone of the shared cell.
    device.release(&mut reg);
    assert_eq!(releases_of(&reg, device_id), 0);
    assert!(reg.objects[device_id - 1].refcount > 0);
    // Releasing the last child releases the queue, the device and the
    // adapter's instance reference, each exactly once.
    buffer.release(&mut reg);
    assert_eq!(releases_of(&reg, device_id), 1);
    assert_eq!(releases_of(&reg, queue_id), 1);
    assert_eq!(reg.objects[device_id - 1].refcount, 0);
}

#[test]
fn whole_size_marker_is_all_ones() {
    assert_eq!(WHOLE_SIZE, u64::MAX);
}

#[test]
fn bind_group_entries_collapse_onto_native_slots() {
    let (mut reg, device) = setup();
    let layout = device.create_bind_group_layout(
        &mut reg,
        &BindGroupLayoutDescriptor { label: None, entries: &[] },
    );
    let layout_id = reg.objects.len();
    let buffer = device.create_buffer(
        &mut reg,
        &BufferDescriptor { label: None, size: 64, usage: BufferUsage::uniform() },
    );
    let buffer_id = reg.objects.len();
    let sampler = device.create_sampler(
        &mut reg,
        &SamplerDescriptor {
            label: None,
            address_mode_u: dawn_rs::AddressMode::ClampToEdge,
            address_mode_v: dawn_rs::AddressMode::ClampToEdge,
            address_mode_w: dawn_rs::AddressMode::ClampToEdge,
            mag_filter: dawn_rs::FilterMode::Linear,
            min_filter: dawn_rs::FilterMode::Nearest,
            mipmap_filter: dawn_rs::FilterMode::Nearest,
            lod_min_clamp: dawn_rs::F32Bits { bits: 0f32.to_bits() },
            lod_max_clamp: dawn_rs::F32Bits { bits: 1000f32.to_bits() },
            compare: dawn_rs::CompareFunction::Never,
        },
    );
    let sampler_id = reg.objects.len();
    let entries = [
        BindGroupEntry {
            binding: 0,
            resource: BindingResource::BufferBinding(BufferBinding {
                buffer: &buffer,
                offset: 16,
                size: WHOLE_SIZE,
            }),
        },
        BindGroupEntry { binding: 1, resource: BindingResource::Sampler(&sampler) },
    ];
    let _group = device.create_bind_group(
        &mut reg,
        &BindGroupDescriptor { label: Some("group"), layout: &layout, entries: &entries },
    );
    match reg.calls.last().unwrap() {
        NativeCall::CreateBindGroup { descriptor, .. } => {
            assert_eq!(descriptor.label.as_slice(), b"group\0");
            assert_eq!(descriptor.layout, layout_id);
            assert_eq!(descriptor.bindings.len(), 2);
            let b0 = &descriptor.bindings[0];
            assert_eq!(b0.buffer, buffer_id);
            assert_eq!(b0.offset, 16);
            assert_eq!(b0.size, WHOLE_SIZE);
            assert_eq!(b0.sampler, 0);
            assert_eq!(b0.texture_view, 0);
            let b1 = &descriptor.bindings[1];
            assert_eq!(b1.buffer, 0);
            assert_eq!(b1.sampler, sampler_id);
        }
        _ => unreachable!(),
    }
}

#[test]
fn multiple_adapters_enumerate_in_table_order() {
    let mut reg = Registry::new();
    let adapter = |name: &str, backend| AdapterInfo {
        name: String::from(name),
        adapter_type: AdapterType::DiscreteGPU,
        backend_type: backend,
        vendor_id: 0,
        device_id: 0,
        properties: DeviceProperties { texture_compression_bc: false },
    };
    reg.install(ProcTable {
        adapters: vec![adapter("first", BackendType::Vulkan), adapter("second", BackendType::D3D12)],
        preferred_swap_chain_format: TextureFormat::BGRA8Unorm,
        vulkan_instance: 0,
    });
    let instance = Instance::new(&mut reg);
    let adapters = instance.enumerate_adapters(&mut reg);
    assert_eq!(adapters.len(), 2);
    assert_eq!(adapters[0].properties(&reg).name, "first");
    assert_eq!(adapters[1].properties(&reg).name, "second");
    assert_eq!(adapters[1].properties(&reg).backend_type, BackendType::D3D12);
}

#[test]
fn fence_creation_and_signal_are_logged_on_the_queue() {
    let (mut reg, device) = setup();
    let mut queue = device.default_queue(&mut reg);
    let fence = queue.create_fence_with(&mut reg, 5);
    let fence_id = reg.objects.len();
    queue.signal(&mut reg, &fence, 6);
    let created = reg
        .calls
        .iter()
        .any(|c| matches!(c, NativeCall::CreateFence { initial_value: 5, .. }));
    assert!(created);
    match reg.calls.last().unwrap() {
        NativeCall::Signal { fence: f, value, .. } => {
            assert_eq!(*f, fence_id);
            assert_eq!(*value, 6);
        }
        _ => unreachable!(),
    }
    queue.submit(&mut reg, &[]);
    queue.release(&mut reg);
}
