//! Tests of descriptor marshaling: the binding-type flattening, the vertex
//! attribute flattening, pipeline layouts and shader word packing.

use dawn_rs::convert::{adapter_type, backend_type};
use dawn_rs::native_desc::NativeBindingType;
use dawn_rs::util::spirv;
use dawn_rs::{AdapterType, BackendType, BufferUsage};
use dawn_rs::{
    BindGroupLayoutDescriptor, BindGroupLayoutEntry, BindingType, ColorStateDescriptor,
    DeviceDescriptor, IndexFormat, InputStepMode, Instance, NativeCall, PipelineLayoutDescriptor,
    PrimitiveTopology, ProgrammableStageDescriptor, Registry, RenderPipelineDescriptor,
    ShaderModuleDescriptor, ShaderStage, TextureComponentType, TextureFormat,
    TextureViewDimension, VertexAttributeDescriptor, VertexBufferLayoutDescriptor, VertexFormat,
    VertexStateDescriptor,
};

fn setup() -> (Registry, dawn_rs::Device) {
    let mut reg = Registry::new();
    let instance = Instance::new(&mut reg);
    let adapters = instance.enumerate_adapters(&mut reg);
    let device = adapters[0].create_device(&mut reg, &DeviceDescriptor::default());
    (reg, device)
}

fn storage_texture(readonly: bool, writeonly: bool) -> BindGroupLayoutEntry {
    BindGroupLayoutEntry {
        binding: 0,
        visibility: ShaderStage::fragment(),
        ty: BindingType::StorageTexture {
            dimension: TextureViewDimension::D2,
            component_type: TextureComponentType::Float,
            format: TextureFormat::RGBA8Unorm,
            readonly,
            writeonly,
        },
    }
}

fn flattened_binding_type(reg: &Registry, entry: BindGroupLayoutEntry) -> NativeBindingType {
    match reg.calls.last().unwrap() {
        NativeCall::CreateBindGroupLayout { descriptor, .. } => {
            assert_eq!(descriptor.bindings.len(), 1);
            assert_eq!(descriptor.bindings[0].binding, entry.binding);
            descriptor.bindings[0].binding_type
        }
        _ => unreachable!(),
    }
}

#[test]
fn storage_texture_flattening_covers_every_flag_pair() {
    let (mut reg, device) = setup();
    let cases = [
        (false, false, NativeBindingType::StorageTexture),
        (true, false, NativeBindingType::ReadonlyStorageTexture),
        (false, true, NativeBindingType::WriteonlyStorageTexture),
        // Both flags at once collapse onto the read-write value.
        (true, true, NativeBindingType::StorageTexture),
    ];
    for (readonly, writeonly, expected) in cases {
        let entry = storage_texture(readonly, writeonly);
        let _layout = device.create_bind_group_layout(
            &mut reg,
            &BindGroupLayoutDescriptor { label: None, entries: &[entry] },
        );
        assert_eq!(flattened_binding_type(&reg, entry), expected);
    }
}

#[test]
fn storage_buffer_flattening_and_dynamic_offset() {
    let (mut reg, device) = setup();
    let entry = BindGroupLayoutEntry {
        binding: 3,
        visibility: ShaderStage::compute(),
        ty: BindingType::StorageBuffer { dynamic: true, readonly: true },
    };
    let _layout = device.create_bind_group_layout(
        &mut reg,
        &BindGroupLayoutDescriptor { label: None, entries: &[entry] },
    );
    match reg.calls.last().unwrap() {
        NativeCall::CreateBindGroupLayout { descriptor, .. } => {
            let b = &descriptor.bindings[0];
            assert_eq!(b.binding_type, NativeBindingType::ReadonlyStorageBuffer);
            assert!(b.has_dynamic_offset);
            assert!(!b.multisampled);
            assert_eq!(b.visibility, 4);
        }
        _ => unreachable!(),
    }
}

#[test]
fn pipeline_layout_lists_layout_handles_in_order() {
    let (mut reg, device) = setup();
    let layout_a = device.create_bind_group_layout(
        &mut reg,
        &BindGroupLayoutDescriptor { label: None, entries: &[] },
    );
    let a_id = reg.objects.len();
    let layout_b = device.create_bind_group_layout(
        &mut reg,
        &BindGroupLayoutDescriptor { label: None, entries: &[] },
    );
    let b_id = reg.objects.len();
    let _pipeline_layout = device.create_pipeline_layout(
        &mut reg,
        &PipelineLayoutDescriptor {
            label: None,
            bind_group_layouts: &[layout_a, layout_b],
        },
    );
    match reg.calls.last().unwrap() {
        NativeCall::CreatePipelineLayout { descriptor, .. } => {
            assert_eq!(descriptor.bind_group_layouts.as_slice(), &[a_id, b_id]);
        }
        _ => unreachable!(),
    }
}

#[test]
fn render_pipeline_flattens_vertex_attributes_contiguously() {
    let (mut reg, device) = setup();
    let module = device.create_shader_module(
        &mut reg,
        &ShaderModuleDescriptor { label: None, code: &[0x0723_0203] },
    );
    let layout = device.create_pipeline_layout(
        &mut reg,
        &PipelineLayoutDescriptor { label: None, bind_group_layouts: &[] },
    );
    let attrs_a = [
        VertexAttributeDescriptor { format: VertexFormat::Float2, offset: 0, shader_location: 0 },
        VertexAttributeDescriptor { format: VertexFormat::Float4, offset: 8, shader_location: 1 },
    ];
    let attrs_b = [VertexAttributeDescriptor {
        format: VertexFormat::UInt,
        offset: 0,
        shader_location: 2,
    }];
    let vertex_state = VertexStateDescriptor {
        index_format: IndexFormat::Uint16,
        vertex_buffers: &[
            VertexBufferLayoutDescriptor {
                array_stride: 24,
                step_mode: InputStepMode::Vertex,
                attributes: &attrs_a,
            },
            VertexBufferLayoutDescriptor {
                array_stride: 4,
                step_mode: InputStepMode::Instance,
                attributes: &attrs_b,
            },
        ],
    };
    let descriptor = RenderPipelineDescriptor {
        label: None,
        layout: &layout,
        vertex_stage: ProgrammableStageDescriptor { module: &module, entry_point: "main" },
        fragment_stage: None,
        vertex_state: &vertex_state,
        primitive_topology: PrimitiveTopology::TriangleList,
        rasterization_state: None,
        sample_count: 1,
        depth_stencil_state: None,
        color_states: &[],
        sample_mask: !0,
        alpha_to_coverage_enabled: false,
    };
    let _pipeline = device.create_render_pipeline(&mut reg, &descriptor);
    match reg.calls.last().unwrap() {
        NativeCall::CreateRenderPipeline { descriptor: nd, .. } => {
            assert_eq!(nd.vertex_stage.entry_point.as_slice(), b"main\0");
            let vs = &nd.vertex_state;
            assert_eq!(vs.vertex_attributes.len(), 3);
            assert_eq!(vs.vertex_buffers.len(), 2);
            assert_eq!(vs.vertex_buffers[0].attributes_offset, 0);
            assert_eq!(vs.vertex_buffers[0].attribute_count, 2);
            assert_eq!(vs.vertex_buffers[1].attributes_offset, 2);
            assert_eq!(vs.vertex_buffers[1].attribute_count, 1);
            assert_eq!(vs.vertex_attributes[0], attrs_a[0]);
            assert_eq!(vs.vertex_attributes[1], attrs_a[1]);
            assert_eq!(vs.vertex_attributes[2], attrs_b[0]);
        }
        _ => unreachable!(),
    }
}

#[test]
fn shader_words_pack_little_endian_with_padding() {
    assert_eq!(spirv(&[]), vec![0]);
    assert_eq!(spirv(&[1, 0, 0, 0, 5]), vec![1, 5]);
    assert_eq!(spirv(&[0x12, 0x34, 0x56, 0x78]), vec![0x7856_3412]);
    assert_eq!(spirv(&[0xFF, 0xFF, 0xFF]), vec![0x00FF_FFFF]);
}

#[test]
fn adapter_and_backend_codes_round_trip() {
    assert_eq!(adapter_type(2), AdapterType::CPU);
    assert_eq!(adapter_type(0), AdapterType::DiscreteGPU);
    assert_eq!(backend_type(4), BackendType::Vulkan);
    assert_eq!(backend_type(0), BackendType::Null);
}

#[test]
fn usage_flag_unions_are_exact_bit_ors() {
    let u = BufferUsage::map_read().union(BufferUsage::index());
    assert_eq!(u.bits, 1 | 16);
    assert!(u.contains(BufferUsage::map_read()));
    assert!(!u.contains(BufferUsage::vertex()));
    let cs = ColorStateDescriptor {
        format: TextureFormat::RGBA8Unorm,
        alpha_blend: dawn_rs::BlendDescriptor {
            operation: dawn_rs::BlendOperation::Add,
            src_factor: dawn_rs::BlendFactor::One,
            dst_factor: dawn_rs::BlendFactor::Zero,
        },
        color_blend: dawn_rs::BlendDescriptor {
            operation: dawn_rs::BlendOperation::Add,
            src_factor: dawn_rs::BlendFactor::One,
            dst_factor: dawn_rs::BlendFactor::Zero,
        },
        write_mask: dawn_rs::ColorWrite::all(),
    };
    assert_eq!(cs.write_mask.bits, 15);
}
