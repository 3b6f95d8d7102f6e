use lattice::gfx_map::{
    bytes_per_pixel, is_rgba8_compatible, map_address_mode, map_buffer_binding_type,
    map_compare_function, map_cull_mode, map_filter_mode, map_front_face, map_index_format,
    map_mipmap_filter_mode, map_primitive_topology, map_sampler_type, query_set_type,
    map_stencil_operation, map_step_mode, map_storage_access, map_store_op,
    map_texture_dimension, map_texture_format, map_texture_sample_type, map_vertex_format,
    map_view_dimension, mip_extent, is_load_op, AddressMode, QuerySetCreateDesc, BufferBindingType, CompareFunction,
    Face, FilterMode, FrontFace, GfxError, IndexFormat, PrimitiveTopology, QueryType,
    SamplerBindingType, StencilOperation, StorageTextureAccess, StoreOp, TextureDimension,
    TextureFormat, TextureSampleType, TextureViewDimension, VertexFormat, VertexStepMode,
};

#[test]
fn texture_formats_map_by_name() {
    assert_eq!(map_texture_format("rgba8unorm"), TextureFormat::Rgba8Unorm);
    assert_eq!(map_texture_format("bgra8unorm-srgb"), TextureFormat::Bgra8UnormSrgb);
    assert_eq!(map_texture_format("depth24plus-stencil8"), TextureFormat::Depth24PlusStencil8);
    assert_eq!(map_texture_format("rg32float"), TextureFormat::Rg32Float);
    assert_eq!(map_texture_format("r16float"), TextureFormat::R16Float);
}

#[test]
fn unknown_texture_format_falls_back_to_rgba8() {
    assert_eq!(map_texture_format("bc7-rgba-unorm"), TextureFormat::Rgba8Unorm);
    assert_eq!(map_texture_format(""), TextureFormat::Rgba8Unorm);
}

#[test]
fn bytes_per_texel_of_formats() {
    assert_eq!(bytes_per_pixel(TextureFormat::R8Unorm), Some(1));
    assert_eq!(bytes_per_pixel(TextureFormat::Rg8Uint), Some(2));
    assert_eq!(bytes_per_pixel(TextureFormat::Rgba8UnormSrgb), Some(4));
    assert_eq!(bytes_per_pixel(TextureFormat::Rgba16Float), Some(8));
    assert_eq!(bytes_per_pixel(TextureFormat::Rgba32Float), Some(16));
    assert_eq!(bytes_per_pixel(TextureFormat::Depth32Float), Some(4));
    assert_eq!(bytes_per_pixel(TextureFormat::Depth24Plus), None);
    assert_eq!(bytes_per_pixel(TextureFormat::Depth24PlusStencil8), None);
    assert_eq!(bytes_per_pixel(TextureFormat::Other), None);
}

#[test]
fn only_rgba8_like_formats_take_decoded_pixels() {
    assert!(is_rgba8_compatible(TextureFormat::Rgba8Unorm));
    assert!(is_rgba8_compatible(TextureFormat::Bgra8UnormSrgb));
    assert!(!is_rgba8_compatible(TextureFormat::Rgba16Float));
    assert!(!is_rgba8_compatible(TextureFormat::R8Unorm));
}

#[test]
fn dimensions_and_views() {
    assert_eq!(map_texture_dimension("1d"), TextureDimension::D1);
    assert_eq!(map_texture_dimension("3d"), TextureDimension::D3);
    assert_eq!(map_texture_dimension("2d"), TextureDimension::D2);
    assert_eq!(map_texture_dimension("weird"), TextureDimension::D2);
    assert_eq!(map_view_dimension(Some("cube-array")), TextureViewDimension::CubeArray);
    assert_eq!(map_view_dimension(Some("2d-array")), TextureViewDimension::D2Array);
    assert_eq!(map_view_dimension(None), TextureViewDimension::D2);
}

#[test]
fn binding_types() {
    assert_eq!(map_texture_sample_type(Some("depth")), TextureSampleType::Depth);
    assert_eq!(map_texture_sample_type(Some("unfilterable-float")), TextureSampleType::Float { filterable: false });
    assert_eq!(map_texture_sample_type(None), TextureSampleType::Float { filterable: true });
    assert_eq!(map_storage_access(Some("read-only")), StorageTextureAccess::ReadOnly);
    assert_eq!(map_storage_access(None), StorageTextureAccess::WriteOnly);
    assert_eq!(map_sampler_type(Some("comparison")), SamplerBindingType::Comparison);
    assert_eq!(map_sampler_type(Some("x")), SamplerBindingType::Filtering);
    assert_eq!(map_buffer_binding_type(Some("read-only-storage")), BufferBindingType::Storage { read_only: true });
    assert_eq!(map_buffer_binding_type(Some("storage")), BufferBindingType::Storage { read_only: false });
    assert_eq!(map_buffer_binding_type(None), BufferBindingType::Uniform);
}

#[test]
fn sampler_modes() {
    assert_eq!(map_filter_mode(Some("nearest")), FilterMode::Nearest);
    assert_eq!(map_filter_mode(Some("linear")), FilterMode::Linear);
    assert_eq!(map_mipmap_filter_mode(None), FilterMode::Linear);
    assert_eq!(map_address_mode(Some("repeat")), AddressMode::Repeat);
    assert_eq!(map_address_mode(Some("mirror-repeat")), AddressMode::MirrorRepeat);
    assert_eq!(map_address_mode(None), AddressMode::ClampToEdge);
}

#[test]
fn vertex_formats_and_their_error() {
    assert_eq!(map_vertex_format("float32x3"), Ok(VertexFormat::Float32x3));
    assert_eq!(map_vertex_format("snorm16x4"), Ok(VertexFormat::Snorm16x4));
    assert_eq!(map_vertex_format("float64"), Err(GfxError::UnsupportedVertexFormat("float64".to_string())));
    assert_eq!(map_step_mode(Some("instance")), VertexStepMode::Instance);
    assert_eq!(map_step_mode(None), VertexStepMode::Vertex);
}

#[test]
fn primitive_state() {
    assert_eq!(map_front_face(Some("cw")), FrontFace::Cw);
    assert_eq!(map_front_face(None), FrontFace::Ccw);
    assert_eq!(map_cull_mode(Some("back")), Some(Face::Back));
    assert_eq!(map_cull_mode(Some("none")), None);
    assert_eq!(map_primitive_topology(Some("line-strip")), PrimitiveTopology::LineStrip);
    assert_eq!(map_primitive_topology(None), PrimitiveTopology::TriangleList);
    assert_eq!(map_compare_function(Some("greater-equal")), CompareFunction::GreaterEqual);
    assert_eq!(map_compare_function(Some("bogus")), CompareFunction::Less);
    assert_eq!(map_stencil_operation(Some("decrement-wrap")), StencilOperation::DecrementWrap);
    assert_eq!(map_stencil_operation(None), StencilOperation::Keep);
}

#[test]
fn attachment_ops_and_queries() {
    assert_eq!(map_index_format(Some("uint16")), IndexFormat::Uint16);
    assert_eq!(map_index_format(Some("uint32")), IndexFormat::Uint32);
    assert_eq!(map_store_op(Some("discard")), StoreOp::Discard);
    assert_eq!(map_store_op(None), StoreOp::Store);
    assert!(is_load_op(Some("load")));
    assert!(!is_load_op(Some("clear")));
    let q = |t: &str| QuerySetCreateDesc { query_type: t.to_string(), count: 2 };
    assert_eq!(query_set_type(&q("timestamp")), Ok(QueryType::Timestamp));
    assert_eq!(query_set_type(&q("occlusion")), Ok(QueryType::Occlusion));
    assert_eq!(query_set_type(&q("pipeline")), Err(GfxError::UnknownQueryType("pipeline".to_string())));
}

#[test]
fn mip_extents_halve_down_to_one() {
    assert_eq!(mip_extent(1024, 0), 1024);
    assert_eq!(mip_extent(1024, 3), 128);
    assert_eq!(mip_extent(1000, 3), 125);
    assert_eq!(mip_extent(5, 4), 1);
    assert_eq!(mip_extent(0, 0), 1);
}

#[test]
fn descriptor_errors_read_as_reported() {
    assert_eq!(GfxError::UnsupportedVertexFormat("float16x3".to_string()).message(), "Unsupported vertex format in WebGPU pipeline: float16x3");
    assert_eq!(GfxError::UnknownQueryType("pipeline".to_string()).message(), "Unknown query type: pipeline");
    assert_eq!(GfxError::InvalidBindGroupLayoutEntry.message(), "invalid bind group layout entry");
    assert_eq!(GfxError::BindGroupEntryMissingResource.message(), "bind group entry missing resource");
}
