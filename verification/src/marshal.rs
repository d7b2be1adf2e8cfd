//! Marshaling: turning the user-facing descriptors into the native
//! descriptor representation.  Each `marshal_*` function carries the exact
//! statement of the translation; the builders log the marshaled value with
//! the creation call, so the translation is what the native side receives.

use vstd::prelude::*;
use vstd::string::StringSliceAdditionalSpecFns;

use crate::convert::{Label, LABEL_MAX_INLINE_WITH_NULL_LEN};
use crate::descriptors::{
    BindGroupDescriptor, BindGroupEntry, BindGroupLayoutDescriptor, BindGroupLayoutEntry,
    BindingResource, BindingType, ComputePipelineDescriptor, DeviceDescriptor,
    PipelineLayoutDescriptor, ProgrammableStageDescriptor, RasterizationStateDescriptor,
    RenderPassColorAttachmentDescriptor, RenderPassDepthStencilAttachmentDescriptor,
    RenderPassDescriptor, RenderPipelineDescriptor, SamplerDescriptor, SwapChainDescriptor,
    TextureDescriptor, TextureViewDescriptor, VertexAttributeDescriptor, VertexStateDescriptor,
};
use crate::enums::{TextureComponentType, TextureFormat, TextureViewDimension};
use crate::native_desc::{
    NativeBindGroupBinding, NativeBindGroupDescriptor, NativeBindGroupLayoutBinding,
    NativeBindGroupLayoutDescriptor, NativeBindingType, NativeComputePipelineDescriptor,
    NativeDeviceDescriptor, NativePipelineLayoutDescriptor, NativeProgrammableStageDescriptor,
    NativeRasterizationStateDescriptor, NativeRenderPassColorAttachment,
    NativeRenderPassDepthStencilAttachment, NativeRenderPassDescriptor,
    NativeRenderPipelineDescriptor, NativeSamplerDescriptor, NativeSwapChainDescriptor,
    NativeTextureDescriptor, NativeTextureViewDescriptor, NativeVertexBufferLayout,
    NativeVertexStateDescriptor,
};
use crate::scratch::{scratch_handles, scratch_into_vec, scratch_new, scratch_push};

verus! {

/// The null-terminated bytes an optional label marshals to; empty stands for
/// the null name pointer.
pub open spec fn spec_label_bytes(name: Option<&str>) -> Seq<u8> {
    match name {
        Some(s) => s.spec_bytes().push(0u8),
        None => Seq::<u8>::empty(),
    }
}

/// A string can be marshaled as a C string: a long one must hold no interior
/// null byte (the native side would cut the name short there, so such a name
/// is rejected before the call rather than silently truncated).
pub open spec fn c_str_ok(s: &str) -> bool {
    &&& s.spec_bytes().len() < usize::MAX
    &&& s.spec_bytes().len() + 1 >= LABEL_MAX_INLINE_WITH_NULL_LEN ==> (forall|i: int|
        0 <= i < s.spec_bytes().len() ==> s.spec_bytes()[i] != 0)
}

pub open spec fn label_ok(name: Option<&str>) -> bool {
    match name {
        Some(s) => c_str_ok(s),
        None => true,
    }
}

/// The null-terminated bytes of one marshaled string.
pub open spec fn spec_c_str(s: &str) -> Seq<u8> {
    s.spec_bytes().push(0u8)
}

/// Builds the byte image of an optional label.
pub fn marshal_label(name: Option<&str>) -> (r: Vec<u8>)
    requires
        label_ok(name),
    ensures
        r@ == spec_label_bytes(name),
{
    let l = Label::from(name);
    proof {
        assert(l.wf());
    }
    l.to_c_bytes()
}

/// Builds the byte image of one C string.
pub fn marshal_c_str(s: &str) -> (r: Vec<u8>)
    requires
        c_str_ok(s),
    ensures
        r@ == spec_c_str(s),
{
    Label::from_str(s).to_c_bytes()
}

/// The string list behind an optional slice: an absent list marshals as an
/// empty one.
pub open spec fn opt_strs<'a>(l: Option<&'a [&'a str]>) -> Seq<&'a str> {
    match l {
        Some(s) => s@,
        None => Seq::<&str>::empty(),
    }
}

pub open spec fn strs_ok(l: Seq<&str>) -> bool {
    forall|i: int| 0 <= i < l.len() ==> c_str_ok(l[i])
}

/// `out` is the list `input`, each entry marshaled as a C string.
pub open spec fn c_strs_marshal(out: Seq<Vec<u8>>, input: Seq<&str>) -> bool {
    &&& out.len() == input.len()
    &&& forall|i: int| 0 <= i < input.len() ==> out[i]@ == spec_c_str(input[i])
}

fn marshal_c_strs(l: Option<&[&str]>) -> (r: Vec<Vec<u8>>)
    requires
        strs_ok(opt_strs(l)),
    ensures
        c_strs_marshal(r@, opt_strs(l)),
{
    let mut r: Vec<Vec<u8>> = Vec::new();
    match l {
        None => r,
        Some(list) => {
            let mut i: usize = 0;
            while i < list.len()
                invariant
                    i <= list@.len(),
                    strs_ok(list@),
                    r@.len() == i,
                    forall|k: int| 0 <= k < i ==> r@[k]@ == spec_c_str(list@[k]),
                decreases list@.len() - i,
            {
                r.push(marshal_c_str(list[i]));
                i = i + 1;
            }
            r
        },
    }
}

/// The device descriptor's three toggle lists, each marshaled to
/// null-terminated strings.
pub open spec fn device_descriptor_marshals(
    nd: NativeDeviceDescriptor,
    d: DeviceDescriptor,
) -> bool {
    &&& c_strs_marshal(nd.required_extensions@, opt_strs(d.required_extensions))
    &&& c_strs_marshal(nd.force_enabled_toggles@, opt_strs(d.force_enabled_toggles))
    &&& c_strs_marshal(nd.force_disabled_toggles@, opt_strs(d.force_disabled_toggles))
}

pub open spec fn device_descriptor_ok(d: DeviceDescriptor) -> bool {
    &&& strs_ok(opt_strs(d.required_extensions))
    &&& strs_ok(opt_strs(d.force_enabled_toggles))
    &&& strs_ok(opt_strs(d.force_disabled_toggles))
}

pub fn marshal_device_descriptor(d: &DeviceDescriptor) -> (r: NativeDeviceDescriptor)
    requires
        device_descriptor_ok(*d),
    ensures
        device_descriptor_marshals(r, *d),
{
    NativeDeviceDescriptor {
        required_extensions: marshal_c_strs(d.required_extensions),
        force_enabled_toggles: marshal_c_strs(d.force_enabled_toggles),
        force_disabled_toggles: marshal_c_strs(d.force_disabled_toggles),
    }
}

/// The flat binding code a user-facing binding type collapses onto.  A
/// storage texture with both the read-only and the write-only flag set
/// collapses onto the plain (read-write) storage value: the flat space has
/// no combination for it, and the read-write value is the one that admits
/// both accesses.
pub open spec fn spec_native_binding_type(ty: BindingType) -> NativeBindingType {
    match ty {
        BindingType::UniformBuffer { .. } => NativeBindingType::UniformBuffer,
        BindingType::StorageBuffer { readonly, .. } => if readonly {
            NativeBindingType::ReadonlyStorageBuffer
        } else {
            NativeBindingType::StorageBuffer
        },
        BindingType::Sampler { .. } => NativeBindingType::Sampler,
        BindingType::SampledTexture { .. } => NativeBindingType::SampledTexture,
        BindingType::StorageTexture { readonly, writeonly, .. } => if readonly && !writeonly {
            NativeBindingType::ReadonlyStorageTexture
        } else if !readonly && writeonly {
            NativeBindingType::WriteonlyStorageTexture
        } else {
            NativeBindingType::StorageTexture
        },
    }
}

/// One bind-group-layout entry, flattened onto the native binding code plus
/// its auxiliary fields; fields that do not apply to the binding's kind get
/// the fixed defaults the native library expects.
pub open spec fn spec_bgl_binding(e: BindGroupLayoutEntry) -> NativeBindGroupLayoutBinding {
    NativeBindGroupLayoutBinding {
        binding: e.binding,
        visibility: e.visibility.bits,
        binding_type: spec_native_binding_type(e.ty),
        has_dynamic_offset: match e.ty {
            BindingType::UniformBuffer { dynamic } => dynamic,
            BindingType::StorageBuffer { dynamic, .. } => dynamic,
            _ => false,
        },
        multisampled: match e.ty {
            BindingType::SampledTexture { multisampled, .. } => multisampled,
            _ => false,
        },
        texture_dimension: match e.ty {
            BindingType::SampledTexture { dimension, .. } => dimension,
            BindingType::StorageTexture { dimension, .. } => dimension,
            _ => TextureViewDimension::D1,
        },
        texture_component_type: match e.ty {
            BindingType::SampledTexture { component_type, .. } => component_type,
            BindingType::StorageTexture { component_type, .. } => component_type,
            _ => TextureComponentType::Float,
        },
        storage_texture_format: match e.ty {
            BindingType::StorageTexture { format, .. } => format,
            _ => TextureFormat::R8Sint,
        },
    }
}

pub fn marshal_bgl_entry(e: &BindGroupLayoutEntry) -> (r: NativeBindGroupLayoutBinding)
    ensures
        r == spec_bgl_binding(*e),
{
    NativeBindGroupLayoutBinding {
        binding: e.binding,
        visibility: e.visibility.bits,
        binding_type: match e.ty {
            BindingType::UniformBuffer { .. } => NativeBindingType::UniformBuffer,
            BindingType::StorageBuffer { readonly, .. } => match readonly {
                false => NativeBindingType::StorageBuffer,
                true => NativeBindingType::ReadonlyStorageBuffer,
            },
            BindingType::Sampler { .. } => NativeBindingType::Sampler,
            BindingType::SampledTexture { .. } => NativeBindingType::SampledTexture,
            BindingType::StorageTexture { readonly, writeonly, .. } => {
                match (readonly, writeonly) {
                    (false, false) => NativeBindingType::StorageTexture,
                    (true, false) => NativeBindingType::ReadonlyStorageTexture,
                    (false, true) => NativeBindingType::WriteonlyStorageTexture,
                    // Both flags at once collapse onto the read-write value;
                    // the flat native space has no separate combination.
                    (true, true) => NativeBindingType::StorageTexture,
                }
            },
        },
        has_dynamic_offset: match e.ty {
            BindingType::UniformBuffer { dynamic } => dynamic,
            BindingType::StorageBuffer { dynamic, .. } => dynamic,
            _ => false,
        },
        multisampled: match e.ty {
            BindingType::SampledTexture { multisampled, .. } => multisampled,
            _ => false,
        },
        texture_dimension: match e.ty {
            BindingType::SampledTexture { dimension, .. } => dimension,
            BindingType::StorageTexture { dimension, .. } => dimension,
            _ => TextureViewDimension::D1,
        },
        texture_component_type: match e.ty {
            BindingType::SampledTexture { component_type, .. } => component_type,
            BindingType::StorageTexture { component_type, .. } => component_type,
            _ => TextureComponentType::Float,
        },
        storage_texture_format: match e.ty {
            BindingType::StorageTexture { format, .. } => format,
            _ => TextureFormat::R8Sint,
        },
    }
}

pub open spec fn bind_group_layout_marshals(
    nd: NativeBindGroupLayoutDescriptor,
    d: BindGroupLayoutDescriptor,
) -> bool {
    &&& nd.label@ == spec_label_bytes(d.label)
    &&& nd.bindings@.len() == d.entries@.len()
    &&& forall|i: int| 0 <= i < d.entries@.len() ==> nd.bindings@[i] == spec_bgl_binding(
        d.entries@[i],
    )
}

pub fn marshal_bind_group_layout(d: &BindGroupLayoutDescriptor) -> (r:
    NativeBindGroupLayoutDescriptor)
    requires
        label_ok(d.label),
    ensures
        bind_group_layout_marshals(r, *d),
{
    let label = marshal_label(d.label);
    let mut bindings: Vec<NativeBindGroupLayoutBinding> = Vec::new();
    let mut i: usize = 0;
    while i < d.entries.len()
        invariant
            i <= d.entries@.len(),
            bindings@.len() == i,
            forall|k: int| 0 <= k < i ==> bindings@[k] == spec_bgl_binding(d.entries@[k]),
        decreases d.entries@.len() - i,
    {
        bindings.push(marshal_bgl_entry(&d.entries[i]));
        i = i + 1;
    }
    NativeBindGroupLayoutDescriptor { label, bindings }
}

/// One bind-group entry: the resource collapses onto the three native slots
/// (buffer with range, sampler, texture view), the unused slots staying null.
pub open spec fn spec_bind_group_binding(e: BindGroupEntry) -> NativeBindGroupBinding {
    NativeBindGroupBinding {
        binding: e.binding,
        buffer: match e.resource {
            BindingResource::BufferBinding(b) => b.buffer.raw(),
            _ => 0,
        },
        offset: match e.resource {
            BindingResource::BufferBinding(b) => b.offset,
            _ => 0,
        },
        size: match e.resource {
            BindingResource::BufferBinding(b) => b.size,
            _ => 0,
        },
        sampler: match e.resource {
            BindingResource::Sampler(s) => s.raw(),
            _ => 0,
        },
        texture_view: match e.resource {
            BindingResource::TextureView(t) => t.raw(),
            _ => 0,
        },
    }
}

pub fn marshal_bind_group_entry(e: &BindGroupEntry) -> (r: NativeBindGroupBinding)
    ensures
        r == spec_bind_group_binding(*e),
{
    NativeBindGroupBinding {
        binding: e.binding,
        buffer: match e.resource {
            BindingResource::BufferBinding(ref b) => b.buffer.raw,
            _ => 0,
        },
        offset: match e.resource {
            BindingResource::BufferBinding(ref b) => b.offset,
            _ => 0,
        },
        size: match e.resource {
            BindingResource::BufferBinding(ref b) => b.size,
            _ => 0,
        },
        sampler: match e.resource {
            BindingResource::Sampler(s) => s.raw,
            _ => 0,
        },
        texture_view: match e.resource {
            BindingResource::TextureView(t) => t.raw,
            _ => 0,
        },
    }
}

pub open spec fn bind_group_marshals(nd: NativeBindGroupDescriptor, d: BindGroupDescriptor) -> bool {
    &&& nd.label@ == spec_label_bytes(d.label)
    &&& nd.layout == d.layout.raw()
    &&& nd.bindings@.len() == d.entries@.len()
    &&& forall|i: int| 0 <= i < d.entries@.len() ==> nd.bindings@[i] == spec_bind_group_binding(
        d.entries@[i],
    )
}

pub fn marshal_bind_group(d: &BindGroupDescriptor) -> (r: NativeBindGroupDescriptor)
    requires
        label_ok(d.label),
    ensures
        bind_group_marshals(r, *d),
{
    let label = marshal_label(d.label);
    let mut bindings: Vec<NativeBindGroupBinding> = Vec::new();
    let mut i: usize = 0;
    while i < d.entries.len()
        invariant
            i <= d.entries@.len(),
            bindings@.len() == i,
            forall|k: int| 0 <= k < i ==> bindings@[k] == spec_bind_group_binding(d.entries@[k]),
        decreases d.entries@.len() - i,
    {
        bindings.push(marshal_bind_group_entry(&d.entries[i]));
        i = i + 1;
    }
    NativeBindGroupDescriptor { label, layout: d.layout.raw, bindings }
}

pub open spec fn pipeline_layout_marshals(
    nd: NativePipelineLayoutDescriptor,
    d: PipelineLayoutDescriptor,
) -> bool {
    &&& nd.label@ == spec_label_bytes(d.label)
    &&& nd.bind_group_layouts@.len() == d.bind_group_layouts@.len()
    &&& forall|i: int| 0 <= i < d.bind_group_layouts@.len() ==> nd.bind_group_layouts@[i]
        == d.bind_group_layouts@[i].raw()
}

pub fn marshal_pipeline_layout(d: &PipelineLayoutDescriptor) -> (r: NativePipelineLayoutDescriptor)
    requires
        label_ok(d.label),
        d.bind_group_layouts@.len() < 0x1000_0000,
    ensures
        pipeline_layout_marshals(r, *d),
{
    let label = marshal_label(d.label);
    let mut raws = scratch_new();
    let mut i: usize = 0;
    while i < d.bind_group_layouts.len()
        invariant
            i <= d.bind_group_layouts@.len(),
            d.bind_group_layouts@.len() < 0x1000_0000,
            scratch_handles(raws).len() == i,
            forall|k: int| 0 <= k < i ==> scratch_handles(raws)[k]
                == d.bind_group_layouts@[k].raw(),
        decreases d.bind_group_layouts@.len() - i,
    {
        scratch_push(&mut raws, d.bind_group_layouts[i].raw);
        i = i + 1;
    }
    NativePipelineLayoutDescriptor { label, bind_group_layouts: scratch_into_vec(raws) }
}

pub open spec fn stage_marshals(
    ns: NativeProgrammableStageDescriptor,
    s: ProgrammableStageDescriptor,
) -> bool {
    &&& ns.module == s.module.raw()
    &&& ns.entry_point@ == spec_c_str(s.entry_point)
}

pub fn marshal_stage(s: &ProgrammableStageDescriptor) -> (r: NativeProgrammableStageDescriptor)
    requires
        c_str_ok(s.entry_point),
    ensures
        stage_marshals(r, *s),
{
    NativeProgrammableStageDescriptor {
        module: s.module.raw,
        entry_point: marshal_c_str(s.entry_point),
    }
}

pub open spec fn compute_pipeline_marshals(
    nd: NativeComputePipelineDescriptor,
    d: ComputePipelineDescriptor,
) -> bool {
    &&& nd.label@ == spec_label_bytes(d.label)
    &&& nd.layout == d.layout.raw()
    &&& stage_marshals(nd.compute_stage, d.compute_stage)
}

pub fn marshal_compute_pipeline(d: &ComputePipelineDescriptor) -> (r:
    NativeComputePipelineDescriptor)
    requires
        label_ok(d.label),
        c_str_ok(d.compute_stage.entry_point),
    ensures
        compute_pipeline_marshals(r, *d),
{
    NativeComputePipelineDescriptor {
        label: marshal_label(d.label),
        layout: d.layout.raw,
        compute_stage: marshal_stage(&d.compute_stage),
    }
}

pub open spec fn spec_rasterization(
    s: RasterizationStateDescriptor,
) -> NativeRasterizationStateDescriptor {
    NativeRasterizationStateDescriptor {
        front_face: s.front_face,
        cull_mode: s.cull_mode,
        depth_bias: s.depth_bias,
        depth_bias_slope_scale: s.depth_bias_slope_scale,
        depth_bias_clamp: s.depth_bias_clamp,
    }
}

/// The number of vertex attributes of the slots before slot `j`: the offset
/// of slot `j`'s attributes in the flattened attribute vector.
pub open spec fn attr_prefix(
    bufs: Seq<crate::descriptors::VertexBufferLayoutDescriptor>,
    j: int,
) -> int
    decreases j,
{
    if j <= 0 {
        0
    } else {
        attr_prefix(bufs, j - 1) + bufs[j - 1].attributes@.len()
    }
}

/// The flattening of the vertex state: every slot's attributes are copied,
/// in slot order, into one contiguous vector, and each native slot points at
/// its own span of that vector.
pub open spec fn vertex_state_marshals(
    ns: NativeVertexStateDescriptor,
    s: VertexStateDescriptor,
) -> bool {
    &&& ns.index_format == s.index_format
    &&& ns.vertex_buffers@.len() == s.vertex_buffers@.len()
    &&& ns.vertex_attributes@.len() == attr_prefix(s.vertex_buffers@, s.vertex_buffers@.len() as int)
    &&& forall|j: int|
        0 <= j < s.vertex_buffers@.len() ==> {
            let vb = s.vertex_buffers@[j];
            let nvb = #[trigger] ns.vertex_buffers@[j];
            &&& nvb.array_stride == vb.array_stride
            &&& nvb.step_mode == vb.step_mode
            &&& nvb.attribute_count == vb.attributes@.len()
            &&& nvb.attributes_offset == attr_prefix(s.vertex_buffers@, j)
            &&& ns.vertex_attributes@.subrange(
                nvb.attributes_offset as int,
                nvb.attributes_offset + vb.attributes@.len(),
            ) == vb.attributes@
        }
}

pub open spec fn vertex_state_ok(s: VertexStateDescriptor) -> bool {
    &&& forall|j: int| 0 <= j < s.vertex_buffers@.len()
        ==> #[trigger] s.vertex_buffers@[j].attributes@.len() <= u32::MAX
    &&& attr_prefix(s.vertex_buffers@, s.vertex_buffers@.len() as int) <= usize::MAX
}

proof fn lemma_attr_prefix_nonneg(
    bufs: Seq<crate::descriptors::VertexBufferLayoutDescriptor>,
    j: int,
)
    ensures
        attr_prefix(bufs, j) >= 0,
    decreases j,
{
    if j > 0 {
        lemma_attr_prefix_nonneg(bufs, j - 1);
    }
}

proof fn lemma_attr_prefix_mono(
    bufs: Seq<crate::descriptors::VertexBufferLayoutDescriptor>,
    i: int,
    j: int,
)
    requires
        0 <= i <= j,
    ensures
        attr_prefix(bufs, i) <= attr_prefix(bufs, j),
    decreases j - i,
{
    if i < j {
        lemma_attr_prefix_mono(bufs, i, j - 1);
    }
}

pub fn marshal_vertex_state(s: &VertexStateDescriptor) -> (r: NativeVertexStateDescriptor)
    requires
        vertex_state_ok(*s),
    ensures
        vertex_state_marshals(r, *s),
{
    let mut vertex_attributes: Vec<VertexAttributeDescriptor> = Vec::new();
    let mut vertex_buffers: Vec<NativeVertexBufferLayout> = Vec::new();
    let mut j: usize = 0;
    while j < s.vertex_buffers.len()
        invariant
            j <= s.vertex_buffers@.len(),
            vertex_state_ok(*s),
            vertex_buffers@.len() == j,
            vertex_attributes@.len() == attr_prefix(s.vertex_buffers@, j as int),
            forall|k: int|
                0 <= k < j ==> {
                    let vb = s.vertex_buffers@[k];
                    let nvb = #[trigger] vertex_buffers@[k];
                    &&& nvb.array_stride == vb.array_stride
                    &&& nvb.step_mode == vb.step_mode
                    &&& nvb.attribute_count == vb.attributes@.len()
                    &&& nvb.attributes_offset == attr_prefix(s.vertex_buffers@, k)
                    &&& vertex_attributes@.subrange(
                        nvb.attributes_offset as int,
                        nvb.attributes_offset + vb.attributes@.len(),
                    ) == vb.attributes@
                },
        decreases s.vertex_buffers@.len() - j,
    {
        proof {
            lemma_attr_prefix_mono(s.vertex_buffers@, j as int + 1, s.vertex_buffers@.len() as int);
            lemma_attr_prefix_nonneg(s.vertex_buffers@, j as int);
        }
        let vb = &s.vertex_buffers[j];
        let attributes_offset = vertex_attributes.len();
        let ghost va0 = vertex_attributes@;
        let mut a: usize = 0;
        while a < vb.attributes.len()
            invariant
                a <= vb.attributes@.len(),
                attributes_offset == va0.len(),
                attributes_offset + vb.attributes@.len() <= usize::MAX,
                vertex_attributes@.len() == attributes_offset + a,
                vertex_attributes@.subrange(0, attributes_offset as int) == va0,
                forall|m: int| 0 <= m < a ==> vertex_attributes@[attributes_offset + m]
                    == vb.attributes@[m],
            decreases vb.attributes@.len() - a,
        {
            vertex_attributes.push(vb.attributes[a]);
            proof {
                assert(vertex_attributes@.subrange(0, attributes_offset as int) =~= va0);
            }
            a = a + 1;
        }
        vertex_buffers.push(
            NativeVertexBufferLayout {
                array_stride: vb.array_stride,
                step_mode: vb.step_mode,
                attribute_count: vb.attributes.len() as u32,
                attributes_offset,
            },
        );
        j = j + 1;
        proof {
            assert(vertex_attributes@.subrange(
                attributes_offset as int,
                attributes_offset + s.vertex_buffers@[j - 1].attributes@.len(),
            ) =~= s.vertex_buffers@[j - 1].attributes@);
            assert forall|k: int| 0 <= k < j - 1 implies {
                let vbk = s.vertex_buffers@[k];
                let nvb = #[trigger] vertex_buffers@[k];
                vertex_attributes@.subrange(
                    nvb.attributes_offset as int,
                    nvb.attributes_offset + vbk.attributes@.len(),
                ) == vbk.attributes@
            } by {
                let vbk = s.vertex_buffers@[k];
                let nvb = vertex_buffers@[k];
                lemma_attr_prefix_nonneg(s.vertex_buffers@, k);
                lemma_attr_prefix_mono(s.vertex_buffers@, k + 1, j - 1);
                assert(vertex_attributes@.subrange(
                    nvb.attributes_offset as int,
                    nvb.attributes_offset + vbk.attributes@.len(),
                ) =~= va0.subrange(
                    nvb.attributes_offset as int,
                    nvb.attributes_offset + vbk.attributes@.len(),
                ));
            }
        }
    }
    NativeVertexStateDescriptor { index_format: s.index_format, vertex_buffers, vertex_attributes }
}

/// The full render-pipeline translation: stages with their entry points as C
/// strings, handles flattened to raw values, optional states carried over,
/// color states copied in order, and the vertex state flattened as
/// [`vertex_state_marshals`] states.
pub open spec fn render_pipeline_marshals(
    nd: NativeRenderPipelineDescriptor,
    d: RenderPipelineDescriptor,
) -> bool {
    &&& nd.label@ == spec_label_bytes(d.label)
    &&& nd.layout == d.layout.raw()
    &&& stage_marshals(nd.vertex_stage, d.vertex_stage)
    &&& (nd.fragment_stage is Some <==> d.fragment_stage is Some)
    &&& (d.fragment_stage is Some ==> stage_marshals(nd.fragment_stage->0, d.fragment_stage->0))
    &&& vertex_state_marshals(nd.vertex_state, *d.vertex_state)
    &&& nd.primitive_topology == d.primitive_topology
    &&& (nd.rasterization_state is Some <==> d.rasterization_state is Some)
    &&& (d.rasterization_state is Some ==> nd.rasterization_state->0 == spec_rasterization(
        *d.rasterization_state->0,
    ))
    &&& nd.sample_count == d.sample_count
    &&& (nd.depth_stencil_state is Some <==> d.depth_stencil_state is Some)
    &&& (d.depth_stencil_state is Some ==> nd.depth_stencil_state->0 == *d.depth_stencil_state->0)
    &&& nd.color_states@ == d.color_states@
    &&& nd.sample_mask == d.sample_mask
    &&& nd.alpha_to_coverage_enabled == d.alpha_to_coverage_enabled
}

pub open spec fn render_pipeline_ok(d: RenderPipelineDescriptor) -> bool {
    &&& label_ok(d.label)
    &&& c_str_ok(d.vertex_stage.entry_point)
    &&& (d.fragment_stage is Some ==> c_str_ok(d.fragment_stage->0.entry_point))
    &&& vertex_state_ok(*d.vertex_state)
}

pub fn marshal_render_pipeline(d: &RenderPipelineDescriptor) -> (r: NativeRenderPipelineDescriptor)
    requires
        render_pipeline_ok(*d),
    ensures
        render_pipeline_marshals(r, *d),
{
    let fragment_stage = match d.fragment_stage {
        Some(ref stage) => Some(marshal_stage(stage)),
        None => None,
    };
    let rasterization_state = match d.rasterization_state {
        Some(state) => Some(
            NativeRasterizationStateDescriptor {
                front_face: state.front_face,
                cull_mode: state.cull_mode,
                depth_bias: state.depth_bias,
                depth_bias_slope_scale: state.depth_bias_slope_scale,
                depth_bias_clamp: state.depth_bias_clamp,
            },
        ),
        None => None,
    };
    let depth_stencil_state = match d.depth_stencil_state {
        Some(state) => Some(*state),
        None => None,
    };
    let mut color_states: Vec<crate::descriptors::ColorStateDescriptor> = Vec::new();
    let mut i: usize = 0;
    while i < d.color_states.len()
        invariant
            i <= d.color_states@.len(),
            color_states@ == d.color_states@.take(i as int),
        decreases d.color_states@.len() - i,
    {
        color_states.push(d.color_states[i]);
        proof {
            assert(color_states@ =~= d.color_states@.take(i as int + 1));
        }
        i = i + 1;
    }
    proof {
        assert(color_states@ =~= d.color_states@);
    }
    NativeRenderPipelineDescriptor {
        label: marshal_label(d.label),
        layout: d.layout.raw,
        vertex_stage: marshal_stage(&d.vertex_stage),
        fragment_stage,
        vertex_state: marshal_vertex_state(d.vertex_state),
        primitive_topology: d.primitive_topology,
        rasterization_state,
        sample_count: d.sample_count,
        depth_stencil_state,
        color_states,
        sample_mask: d.sample_mask,
        alpha_to_coverage_enabled: d.alpha_to_coverage_enabled,
    }
}

pub open spec fn texture_marshals(nd: NativeTextureDescriptor, d: TextureDescriptor) -> bool {
    nd == (NativeTextureDescriptor {
        label: nd.label,
        usage: d.usage.bits,
        dimension: d.dimension,
        size: d.size,
        array_layer_count: d.array_layer_count,
        format: d.format,
        mip_level_count: d.mip_level_count,
        sample_count: d.sample_count,
    }) && nd.label@ == spec_label_bytes(d.label)
}

pub fn marshal_texture(d: &TextureDescriptor) -> (r: NativeTextureDescriptor)
    requires
        label_ok(d.label),
    ensures
        texture_marshals(r, *d),
{
    NativeTextureDescriptor {
        label: marshal_label(d.label),
        usage: d.usage.bits,
        dimension: d.dimension,
        size: d.size,
        array_layer_count: d.array_layer_count,
        format: d.format,
        mip_level_count: d.mip_level_count,
        sample_count: d.sample_count,
    }
}

pub open spec fn sampler_marshals(nd: NativeSamplerDescriptor, d: SamplerDescriptor) -> bool {
    nd == (NativeSamplerDescriptor {
        label: nd.label,
        address_mode_u: d.address_mode_u,
        address_mode_v: d.address_mode_v,
        address_mode_w: d.address_mode_w,
        mag_filter: d.mag_filter,
        min_filter: d.min_filter,
        mipmap_filter: d.mipmap_filter,
        lod_min_clamp: d.lod_min_clamp,
        lod_max_clamp: d.lod_max_clamp,
        compare: d.compare,
    }) && nd.label@ == spec_label_bytes(d.label)
}

pub fn marshal_sampler(d: &SamplerDescriptor) -> (r: NativeSamplerDescriptor)
    requires
        label_ok(d.label),
    ensures
        sampler_marshals(r, *d),
{
    NativeSamplerDescriptor {
        label: marshal_label(d.label),
        address_mode_u: d.address_mode_u,
        address_mode_v: d.address_mode_v,
        address_mode_w: d.address_mode_w,
        mag_filter: d.mag_filter,
        min_filter: d.min_filter,
        mipmap_filter: d.mipmap_filter,
        lod_min_clamp: d.lod_min_clamp,
        lod_max_clamp: d.lod_max_clamp,
        compare: d.compare,
    }
}

pub open spec fn texture_view_marshals(
    nd: NativeTextureViewDescriptor,
    d: TextureViewDescriptor,
) -> bool {
    nd == (NativeTextureViewDescriptor {
        label: nd.label,
        format: d.format,
        dimension: d.dimension,
        base_mip_level: d.base_mip_level,
        mip_level_count: d.mip_level_count,
        base_array_layer: d.base_array_layer,
        array_layer_count: d.array_layer_count,
        aspect: d.aspect,
    }) && nd.label@ == spec_label_bytes(d.label)
}

pub fn marshal_texture_view(d: &TextureViewDescriptor) -> (r: NativeTextureViewDescriptor)
    requires
        label_ok(d.label),
    ensures
        texture_view_marshals(r, *d),
{
    NativeTextureViewDescriptor {
        label: marshal_label(d.label),
        format: d.format,
        dimension: d.dimension,
        base_mip_level: d.base_mip_level,
        mip_level_count: d.mip_level_count,
        base_array_layer: d.base_array_layer,
        array_layer_count: d.array_layer_count,
        aspect: d.aspect,
    }
}

pub open spec fn swap_chain_marshals(nd: NativeSwapChainDescriptor, d: SwapChainDescriptor) -> bool {
    nd == (NativeSwapChainDescriptor {
        label: nd.label,
        usage: d.usage.bits,
        format: d.format,
        width: d.width,
        height: d.height,
        present_mode: d.present_mode,
        implementation: d.implementation,
    }) && nd.label@ == spec_label_bytes(d.label)
}

pub fn marshal_swap_chain(d: &SwapChainDescriptor) -> (r: NativeSwapChainDescriptor)
    requires
        label_ok(d.label),
    ensures
        swap_chain_marshals(r, *d),
{
    NativeSwapChainDescriptor {
        label: marshal_label(d.label),
        usage: d.usage.bits,
        format: d.format,
        width: d.width,
        height: d.height,
        present_mode: d.present_mode,
        implementation: d.implementation,
    }
}

/// One render-pass color attachment: view handles flattened, an absent
/// resolve target becoming the null handle.
pub open spec fn spec_color_attachment(
    a: RenderPassColorAttachmentDescriptor,
) -> NativeRenderPassColorAttachment {
    NativeRenderPassColorAttachment {
        attachment: a.attachment.raw(),
        resolve_target: match a.resolve_target {
            Some(t) => t.raw(),
            None => 0,
        },
        load_op: a.load_op,
        store_op: a.store_op,
        clear_color: a.clear_color,
    }
}

pub open spec fn spec_depth_stencil_attachment(
    a: RenderPassDepthStencilAttachmentDescriptor,
) -> NativeRenderPassDepthStencilAttachment {
    NativeRenderPassDepthStencilAttachment {
        attachment: a.attachment.raw(),
        depth_load_op: a.depth_load_op,
        depth_store_op: a.depth_store_op,
        clear_depth: a.clear_depth,
        stencil_load_op: a.stencil_load_op,
        stencil_store_op: a.stencil_store_op,
        clear_stencil: a.clear_stencil,
    }
}

pub open spec fn render_pass_marshals(nd: NativeRenderPassDescriptor, d: RenderPassDescriptor) -> bool {
    &&& nd.label@ == spec_label_bytes(d.label)
    &&& nd.color_attachments@.len() == d.color_attachments@.len()
    &&& forall|i: int| 0 <= i < d.color_attachments@.len() ==> nd.color_attachments@[i]
        == spec_color_attachment(d.color_attachments@[i])
    &&& (nd.depth_stencil_attachment is Some <==> d.depth_stencil_attachment is Some)
    &&& (d.depth_stencil_attachment is Some ==> nd.depth_stencil_attachment->0
        == spec_depth_stencil_attachment(*d.depth_stencil_attachment->0))
}

pub fn marshal_render_pass(d: &RenderPassDescriptor) -> (r: NativeRenderPassDescriptor)
    requires
        label_ok(d.label),
    ensures
        render_pass_marshals(r, *d),
{
    let label = marshal_label(d.label);
    let mut color_attachments: Vec<NativeRenderPassColorAttachment> = Vec::new();
    let mut i: usize = 0;
    while i < d.color_attachments.len()
        invariant
            i <= d.color_attachments@.len(),
            color_attachments@.len() == i,
            forall|k: int| 0 <= k < i ==> color_attachments@[k] == spec_color_attachment(
                d.color_attachments@[k],
            ),
        decreases d.color_attachments@.len() - i,
    {
        let a = &d.color_attachments[i];
        color_attachments.push(
            NativeRenderPassColorAttachment {
                attachment: a.attachment.raw,
                resolve_target: match a.resolve_target {
                    Some(t) => t.raw,
                    None => 0,
                },
                load_op: a.load_op,
                store_op: a.store_op,
                clear_color: a.clear_color,
            },
        );
        i = i + 1;
    }
    let depth_stencil_attachment = match d.depth_stencil_attachment {
        Some(a) => Some(
            NativeRenderPassDepthStencilAttachment {
                attachment: a.attachment.raw,
                depth_load_op: a.depth_load_op,
                depth_store_op: a.depth_store_op,
                clear_depth: a.clear_depth,
                stencil_load_op: a.stencil_load_op,
                stencil_store_op: a.stencil_store_op,
                clear_stencil: a.clear_stencil,
            },
        ),
        None => None,
    };
    NativeRenderPassDescriptor { label, color_attachments, depth_stencil_attachment }
}

} // verus!
