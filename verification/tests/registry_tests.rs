//! Tests of the proc-table registry: one-shot installation, the default
//! table, and the retain/release discipline of clonable handles.

use dawn_rs::{
    AdapterInfo, AdapterType, BackendType, BufferDescriptor, BufferUsage, DeviceDescriptor,
    DeviceProperties, Instance, NativeCall, ProcTable, Registry, TextureFormat,
};

fn mock_table() -> ProcTable {
    ProcTable {
        adapters: vec![AdapterInfo {
            name: String::from("mock-gpu"),
            adapter_type: AdapterType::DiscreteGPU,
            backend_type: BackendType::Vulkan,
            vendor_id: 0x1234,
            device_id: 0x5678,
            properties: DeviceProperties { texture_compression_bc: true },
        }],
        preferred_swap_chain_format: TextureFormat::BGRA8Unorm,
        vulkan_instance: 42,
    }
}

#[test]
fn install_takes_effect_once() {
    let mut reg = Registry::new();
    reg.install(mock_table());
    let second = ProcTable { adapters: vec![], preferred_swap_chain_format: TextureFormat::R8Unorm, vulkan_instance: 0 };
    reg.install(second);
    let table = reg.table.as_ref().unwrap();
    assert_eq!(table.adapters.len(), 1);
    assert_eq!(table.adapters[0].name, "mock-gpu");
}

#[test]
fn default_table_installed_lazily() {
    let mut reg = Registry::new();
    let instance = Instance::new(&mut reg);
    let adapters = instance.enumerate_adapters(&mut reg);
    assert_eq!(adapters.len(), 1);
    let properties = adapters[0].properties(&reg);
    assert_eq!(properties.name, "null");
    assert_eq!(properties.backend_type, BackendType::Null);
}

#[test]
fn install_after_first_handle_is_a_no_op() {
    let mut reg = Registry::new();
    let _instance = Instance::new(&mut reg);
    reg.install(mock_table());
    assert_eq!(reg.table.as_ref().unwrap().adapters[0].name, "null");
}

#[test]
fn clone_then_drop_both_releases_exactly_twice() {
    let mut reg = Registry::new();
    let instance = Instance::new(&mut reg);
    reg.install(mock_table());
    let adapters = instance.enumerate_adapters(&mut reg);
    let device = adapters[0].create_device(&mut reg, &DeviceDescriptor::default());
    let buffer = device.create_buffer(
        &mut reg,
        &BufferDescriptor { label: None, size: 4, usage: BufferUsage::vertex() },
    );
    // Handles are slot indices: the buffer was the latest object created.
    let buffer_id = reg.objects.len();
    let copy = buffer.clone_handle(&mut reg);
    copy.release(&mut reg);
    buffer.release(&mut reg);
    let retains = reg
        .calls
        .iter()
        .filter(|c| **c == NativeCall::Retain { handle: buffer_id })
        .count();
    let releases = reg
        .calls
        .iter()
        .filter(|c| **c == NativeCall::Release { handle: buffer_id })
        .count();
    assert_eq!(retains, 1);
    assert_eq!(releases, 2);
    // The buffer object is destroyed exactly when the second copy goes.
    assert_eq!(reg.objects[buffer_id - 1].refcount, 0);
}

#[test]
fn dropping_one_copy_keeps_the_object_alive() {
    let mut reg = Registry::new();
    let instance = Instance::new(&mut reg);
    reg.install(mock_table());
    let adapters = instance.enumerate_adapters(&mut reg);
    let device = adapters[0].create_device(&mut reg, &DeviceDescriptor::default());
    let buffer = device.create_buffer(
        &mut reg,
        &BufferDescriptor { label: None, size: 4, usage: BufferUsage::vertex() },
    );
    let buffer_id = reg.objects.len();
    let copy = buffer.clone_handle(&mut reg);
    copy.release(&mut reg);
    assert!(reg.objects[buffer_id - 1].refcount > 0);
}

#[test]
fn creations_yield_distinct_live_handles() {
    let mut reg = Registry::new();
    let instance = Instance::new(&mut reg);
    let adapters = instance.enumerate_adapters(&mut reg);
    let device = adapters[0].create_device(&mut reg, &DeviceDescriptor::default());
    let first = reg.objects.len() + 1;
    let _a = device.create_buffer(
        &mut reg,
        &BufferDescriptor { label: None, size: 1, usage: BufferUsage::vertex() },
    );
    let _b = device.create_buffer(
        &mut reg,
        &BufferDescriptor { label: None, size: 1, usage: BufferUsage::vertex() },
    );
    assert_ne!(first, first + 1);
    assert!(reg.objects[first - 1].refcount > 0);
    assert!(reg.objects[first].refcount > 0);
}

#[test]
fn device_teardown_releases_queue_device_and_instance_once() {
    let mut reg = Registry::new();
    let instance = Instance::new(&mut reg);
    let adapters = instance.enumerate_adapters(&mut reg);
    let device = adapters[0].create_device(&mut reg, &DeviceDescriptor::default());
    let device_id = reg.shared_devices[0].raw;
    let queue_id = reg.shared_devices[0].raw_default_queue;
    device.release(&mut reg);
    let releases_of = |h: usize| {
        reg.calls
            .iter()
            .filter(|c| **c == NativeCall::Release { handle: h })
            .count()
    };
    assert_eq!(releases_of(device_id), 1);
    assert_eq!(releases_of(queue_id), 1);
    assert_eq!(reg.objects[device_id - 1].refcount, 0);
    assert_eq!(reg.objects[queue_id - 1].refcount, 0);
}
