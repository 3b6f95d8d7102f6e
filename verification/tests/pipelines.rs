use lattice::gfx_map::{
    AddressMode, BufferBindingType, CompareFunction, Face, FilterMode, FrontFace, GfxError,
    IndexFormat, PrimitiveTopology, SamplerBindingType, StencilOperation, StorageTextureAccess,
    TextureDimension, TextureFormat, TextureSampleType, TextureViewDimension, VertexFormat,
    VertexStepMode,
};
use lattice::pipeline_plan::{
    plan_bind_group, plan_bind_group_entry, plan_bind_group_layout, plan_layout_entry, plan_sampler,
    plan_texture_create, plan_texture_view, BindGroupCreate, BindGroupEntryDesc, BindGroupLayoutCreate, BindGroupLayoutEntryDesc,
    BindingResource,
    BindingType, BufferLayoutDesc, SamplerCreateDesc, SamplerLayoutDesc,
    StorageTextureLayoutDesc, TextureCreateDesc, TextureLayoutDesc, TextureSizeDesc,
    TextureViewCreateDesc,
};
use lattice::render_pipeline::{
    color_write_mask, plan_pipeline, PipelineCreate, VertexAttributeDesc, VertexBufferLayoutDesc,
};

fn entry(binding: u32) -> BindGroupLayoutEntryDesc {
    BindGroupLayoutEntryDesc { binding, visibility: 3, buffer: None, sampler: None, texture: None, storage_texture: None }
}

#[test]
fn layout_entries_by_priority() {
    let mut e = entry(0);
    e.buffer = Some(BufferLayoutDesc { binding_type: Some("storage".to_string()), has_dynamic_offset: None, min_binding_size: Some(0) });
    e.sampler = Some(SamplerLayoutDesc { binding_type: None });
    let p = plan_layout_entry(&e).unwrap();
    assert_eq!(p.binding, 0);
    assert_eq!(p.visibility, 3);
    assert_eq!(p.ty, BindingType::Buffer { ty: BufferBindingType::Storage { read_only: false }, has_dynamic_offset: false, min_binding_size: None });

    let mut t = entry(1);
    t.texture = Some(TextureLayoutDesc { sample_type: Some("depth".to_string()), view_dimension: Some("cube".to_string()), multisampled: Some(true) });
    assert_eq!(plan_layout_entry(&t).unwrap().ty, BindingType::Texture { sample_type: TextureSampleType::Depth, view_dimension: TextureViewDimension::Cube, multisampled: true });

    let mut s = entry(2);
    s.storage_texture = Some(StorageTextureLayoutDesc { access: Some("read-write".to_string()), format: None, view_dimension: None });
    assert_eq!(plan_layout_entry(&s).unwrap().ty, BindingType::StorageTexture { access: StorageTextureAccess::ReadWrite, format: TextureFormat::Rgba8Unorm, view_dimension: TextureViewDimension::D2 });

    let mut m = entry(3);
    m.sampler = Some(SamplerLayoutDesc { binding_type: Some("comparison".to_string()) });
    assert_eq!(plan_layout_entry(&m).unwrap().ty, BindingType::Sampler(SamplerBindingType::Comparison));

    let mut b = entry(4);
    b.buffer = Some(BufferLayoutDesc { binding_type: None, has_dynamic_offset: Some(true), min_binding_size: Some(64) });
    assert_eq!(plan_layout_entry(&b).unwrap().ty, BindingType::Buffer { ty: BufferBindingType::Uniform, has_dynamic_offset: true, min_binding_size: Some(64) });
}

#[test]
fn empty_layout_entry_is_refused() {
    assert_eq!(plan_layout_entry(&entry(0)), Err(GfxError::InvalidBindGroupLayoutEntry));
    let mut ok = entry(0);
    ok.sampler = Some(SamplerLayoutDesc { binding_type: None });
    let layout = |entries| BindGroupLayoutCreate { label: None, entries };
    assert_eq!(plan_bind_group_layout(&layout(vec![ok.clone(), entry(1)])), Err(GfxError::InvalidBindGroupLayoutEntry));
    assert_eq!(plan_bind_group_layout(&layout(vec![ok])).unwrap().len(), 1);
    assert_eq!(plan_bind_group_layout(&layout(vec![])).unwrap().len(), 0);
}

#[test]
fn bind_group_entries() {
    let e = BindGroupEntryDesc { binding: 2, buffer_rid: Some(7), offset: 16, size: Some(0), sampler_rid: Some(1), texture_view_rid: None };
    assert_eq!(plan_bind_group_entry(&e), Ok((2, BindingResource::Buffer { rid: 7, offset: 16, size: None })));
    let s = BindGroupEntryDesc { binding: 0, buffer_rid: None, offset: 0, size: None, sampler_rid: Some(1), texture_view_rid: Some(2) };
    assert_eq!(plan_bind_group_entry(&s), Ok((0, BindingResource::Sampler { rid: 1 })));
    let v = BindGroupEntryDesc { binding: 1, buffer_rid: None, offset: 0, size: None, sampler_rid: None, texture_view_rid: Some(2) };
    assert_eq!(plan_bind_group_entry(&v), Ok((1, BindingResource::TextureView { rid: 2 })));
    let n = BindGroupEntryDesc { binding: 1, buffer_rid: None, offset: 0, size: None, sampler_rid: None, texture_view_rid: None };
    assert_eq!(plan_bind_group_entry(&n), Err(GfxError::BindGroupEntryMissingResource));
    let group = |entries| BindGroupCreate { label: Some("g".to_string()), layout_rid: 3, entries };
    let (bound, err) = plan_bind_group(&group(vec![e, s, v]));
    assert!(err.is_none());
    assert_eq!(bound, vec![
        (2, BindingResource::Buffer { rid: 7, offset: 16, size: None }),
        (0, BindingResource::Sampler { rid: 1 }),
        (1, BindingResource::TextureView { rid: 2 }),
    ]);
    let (bound, err) = plan_bind_group(&group(vec![s, n, v]));
    assert_eq!(bound, vec![(0, BindingResource::Sampler { rid: 1 })]);
    assert_eq!(err, Some(GfxError::BindGroupEntryMissingResource));
}

#[test]
fn samplers_compare_only_when_named() {
    let d = SamplerCreateDesc { label: None, mag_filter: Some("nearest".to_string()), min_filter: None, mipmap_filter: Some("nearest".to_string()), address_mode_u: Some("repeat".to_string()), address_mode_v: None, address_mode_w: None, compare: None };
    let p = plan_sampler(&d);
    assert_eq!(p.mag_filter, FilterMode::Nearest);
    assert_eq!(p.min_filter, FilterMode::Linear);
    assert_eq!(p.mipmap_filter, FilterMode::Nearest);
    assert_eq!(p.address_mode_u, AddressMode::Repeat);
    assert_eq!(p.address_mode_v, AddressMode::ClampToEdge);
    assert_eq!(p.compare, None);
    let mut c = d.clone();
    c.compare = Some("less-equal".to_string());
    assert_eq!(plan_sampler(&c).compare, Some(CompareFunction::LessEqual));
}

#[test]
fn texture_views_remember_base_level_size() {
    let d = TextureViewCreateDesc { texture_rid: 1, label: None, format: Some("r32float".to_string()), dimension: Some("2d-array".to_string()), usage: None, base_mip_level: Some(2), mip_level_count: Some(1), base_array_layer: None, array_layer_count: Some(6) };
    let p = plan_texture_view(&d, 256, 100);
    assert_eq!(p.format, Some(TextureFormat::R32Float));
    assert_eq!(p.dimension, Some(TextureViewDimension::D2Array));
    assert_eq!((p.base_mip_level, p.mip_level_count, p.base_array_layer, p.array_layer_count), (2, Some(1), 0, Some(6)));
    assert_eq!((p.width, p.height), (64, 25));
}

fn pipeline_desc() -> PipelineCreate {
    PipelineCreate {
        vertex_module_rid: 1, vertex_entry: "vs_main".to_string(), fragment_module_rid: Some(2),
        fragment_entry: None,
        vertex_buffers: vec![VertexBufferLayoutDesc { array_stride: 12, step_mode: None, attributes: vec![
            VertexAttributeDesc { format: "float32x3".to_string(), offset: 0, shader_location: 0 }] }],
        pipeline_layout_rid: None, primitive_topology: Some("triangle-strip".to_string()),
        primitive_front_face: Some("cw".to_string()), primitive_cull_mode: Some("back".to_string()),
        depth_format: None, depth_write_enabled: None, depth_compare: None, depth_bias: None,
        depth_bias_slope_scale_bits: None, depth_bias_clamp_bits: None,
        stencil_front_compare: None, stencil_front_pass_op: None, stencil_front_fail_op: None,
        stencil_front_depth_fail_op: None, stencil_back_compare: None, stencil_back_pass_op: None,
        stencil_back_fail_op: None, stencil_back_depth_fail_op: None, stencil_read_mask: None,
        stencil_write_mask: None, color_format: None, color_write_mask: None, sample_count: None,
        alpha_to_coverage_enabled: None,
    }
}

#[test]
fn pipeline_defaults() {
    let p = plan_pipeline(&pipeline_desc(), TextureFormat::Bgra8Unorm).unwrap();
    assert_eq!(p.topology, PrimitiveTopology::TriangleStrip);
    assert_eq!(p.strip_index_format, Some(IndexFormat::Uint32));
    assert_eq!(p.front_face, FrontFace::Cw);
    assert_eq!(p.cull_mode, Some(Face::Back));
    assert!(p.depth_stencil.is_none());
    let f = p.fragment.unwrap();
    assert_eq!(f.module_rid, 2);
    assert_eq!(f.entry_point, "fs_main");
    assert_eq!(f.color_format, TextureFormat::Bgra8Unorm);
    assert_eq!(f.write_mask, 0xF);
    assert_eq!(p.sample_count, 1);
    assert!(!p.alpha_to_coverage_enabled);
    assert_eq!(p.vertex_buffers[0].step_mode, VertexStepMode::Vertex);
    assert_eq!(p.vertex_buffers[0].attributes[0].format, VertexFormat::Float32x3);
}

#[test]
fn pipeline_depth_stencil() {
    let mut d = pipeline_desc();
    d.depth_format = Some("depth24plus-stencil8".to_string());
    d.stencil_back_compare = Some("equal".to_string());
    d.stencil_back_pass_op = Some("replace".to_string());
    d.depth_bias = Some(2);
    d.fragment_module_rid = None;
    d.primitive_topology = None;
    let p = plan_pipeline(&d, TextureFormat::Bgra8Unorm).unwrap();
    assert_eq!(p.strip_index_format, None);
    assert!(p.fragment.is_none());
    let ds = p.depth_stencil.unwrap();
    assert_eq!(ds.format, TextureFormat::Depth24PlusStencil8);
    assert!(ds.depth_write_enabled);
    assert_eq!(ds.depth_compare, CompareFunction::Less);
    assert_eq!(ds.bias_constant, 2);
    let st = ds.stencil.unwrap();
    assert_eq!(st.front.compare, CompareFunction::Less);
    assert_eq!(st.back.compare, CompareFunction::Equal);
    assert_eq!(st.back.pass_op, StencilOperation::Replace);
    assert_eq!(st.back.fail_op, StencilOperation::Keep);
    assert_eq!((st.read_mask, st.write_mask), (0xFF, 0xFF));
}

#[test]
fn unknown_vertex_format_refuses_pipeline() {
    let mut d = pipeline_desc();
    d.vertex_buffers.push(VertexBufferLayoutDesc { array_stride: 4, step_mode: Some("instance".to_string()), attributes: vec![
        VertexAttributeDesc { format: "float32".to_string(), offset: 0, shader_location: 1 },
        VertexAttributeDesc { format: "half".to_string(), offset: 4, shader_location: 2 },
        VertexAttributeDesc { format: "quad".to_string(), offset: 8, shader_location: 3 }] });
    match plan_pipeline(&d, TextureFormat::Rgba8Unorm) {
        Err(GfxError::UnsupportedVertexFormat(f)) => assert_eq!(f, "half"),
        _ => panic!("refusal expected"),
    }
}

#[test]
fn write_masks() {
    assert_eq!(color_write_mask(None), 0xF);
    assert_eq!(color_write_mask(Some(0x3)), 0x3);
    assert_eq!(color_write_mask(Some(0)), 0);
    assert_eq!(color_write_mask(Some(0x10)), 0xF);
}

#[test]
fn texture_descriptor_formats_and_dimension() {
    let d = TextureCreateDesc {
        label: Some("shadow".to_string()),
        size: TextureSizeDesc { width: 1024, height: 1024, depth_or_array_layers: 4 },
        mip_level_count: 1,
        sample_count: 1,
        dimension: "3d".to_string(),
        format: "depth32float".to_string(),
        usage: 16,
        view_formats: vec!["rgba8unorm-srgb".to_string(), "nonsense".to_string()],
    };
    let p = plan_texture_create(&d);
    assert_eq!(p.format, TextureFormat::Depth32Float);
    assert_eq!(p.dimension, TextureDimension::D3);
    assert_eq!(p.view_formats, vec![TextureFormat::Rgba8UnormSrgb, TextureFormat::Rgba8Unorm]);
    let mut e = d.clone();
    e.dimension = "2d".to_string();
    e.view_formats = vec![];
    let p = plan_texture_create(&e);
    assert_eq!(p.dimension, TextureDimension::D2);
    assert!(p.view_formats.is_empty());
}
