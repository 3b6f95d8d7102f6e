//! Mapping of WebGPU descriptor strings onto the GPU enums used by the host.

use vstd::prelude::*;
use vstd::string::StringExecFns;
use crate::text::str_eq;

verus! {

broadcast use vstd::string::group_string_axioms;

/// View of an optional string slice as an optional character sequence.
pub open spec fn opt_view(o: Option<&str>) -> Option<Seq<char>> {
    match o {
        Some(s) => Some(s@),
        None => None,
    }
}

/// Texture formats known to the host. `Other` stands for every format the
/// host never names itself (compressed formats and the like).
#[derive(Clone, Copy, Debug, PartialEq, Eq, Structural)]
pub enum TextureFormat {
    R8Unorm,
    R8Snorm,
    R8Uint,
    R8Sint,
    R16Uint,
    R16Sint,
    R16Unorm,
    R16Snorm,
    R16Float,
    Rg8Unorm,
    Rg8Snorm,
    Rg8Uint,
    Rg8Sint,
    R32Uint,
    R32Sint,
    R32Float,
    Rg16Uint,
    Rg16Sint,
    Rg16Unorm,
    Rg16Snorm,
    Rg16Float,
    Rgba8Unorm,
    Rgba8UnormSrgb,
    Rgba8Snorm,
    Rgba8Uint,
    Rgba8Sint,
    Bgra8Unorm,
    Bgra8UnormSrgb,
    Rg32Uint,
    Rg32Sint,
    Rg32Float,
    Rgba16Uint,
    Rgba16Sint,
    Rgba16Unorm,
    Rgba16Snorm,
    Rgba16Float,
    Rgba32Uint,
    Rgba32Sint,
    Rgba32Float,
    Depth16Unorm,
    Depth24Plus,
    Depth24PlusStencil8,
    Depth32Float,
    Depth32FloatStencil8,
    Stencil8,
    Other,
}

/// The format a WebGPU format string names; unknown strings fall back to `rgba8unorm`.
pub open spec fn texture_format_spec(s: Seq<char>) -> TextureFormat {
    if s == "r8unorm"@ { TextureFormat::R8Unorm }
    else if s == "r8snorm"@ { TextureFormat::R8Snorm }
    else if s == "r8uint"@ { TextureFormat::R8Uint }
    else if s == "r8sint"@ { TextureFormat::R8Sint }
    else if s == "rgba8unorm"@ { TextureFormat::Rgba8Unorm }
    else if s == "rgba8unorm-srgb"@ { TextureFormat::Rgba8UnormSrgb }
    else if s == "bgra8unorm"@ { TextureFormat::Bgra8Unorm }
    else if s == "bgra8unorm-srgb"@ { TextureFormat::Bgra8UnormSrgb }
    else if s == "rgba16float"@ { TextureFormat::Rgba16Float }
    else if s == "rgba32float"@ { TextureFormat::Rgba32Float }
    else if s == "r16float"@ { TextureFormat::R16Float }
    else if s == "r32float"@ { TextureFormat::R32Float }
    else if s == "r32uint"@ { TextureFormat::R32Uint }
    else if s == "r32sint"@ { TextureFormat::R32Sint }
    else if s == "rg32uint"@ { TextureFormat::Rg32Uint }
    else if s == "rg32sint"@ { TextureFormat::Rg32Sint }
    else if s == "rg32float"@ { TextureFormat::Rg32Float }
    else if s == "rgba32uint"@ { TextureFormat::Rgba32Uint }
    else if s == "rgba32sint"@ { TextureFormat::Rgba32Sint }
    else if s == "rgba8uint"@ { TextureFormat::Rgba8Uint }
    else if s == "rgba8sint"@ { TextureFormat::Rgba8Sint }
    else if s == "rgba16uint"@ { TextureFormat::Rgba16Uint }
    else if s == "rgba16sint"@ { TextureFormat::Rgba16Sint }
    else if s == "depth16unorm"@ { TextureFormat::Depth16Unorm }
    else if s == "depth24plus"@ { TextureFormat::Depth24Plus }
    else if s == "depth24plus-stencil8"@ { TextureFormat::Depth24PlusStencil8 }
    else if s == "depth32float"@ { TextureFormat::Depth32Float }
    else { TextureFormat::Rgba8Unorm }
}

/// Maps a WebGPU texture format string to a texture format.
pub fn map_texture_format(fmt: &str) -> (r: TextureFormat)
    ensures
        r == texture_format_spec(fmt@),
{
    if str_eq(fmt, "r8unorm") { TextureFormat::R8Unorm }
    else if str_eq(fmt, "r8snorm") { TextureFormat::R8Snorm }
    else if str_eq(fmt, "r8uint") { TextureFormat::R8Uint }
    else if str_eq(fmt, "r8sint") { TextureFormat::R8Sint }
    else if str_eq(fmt, "rgba8unorm") { TextureFormat::Rgba8Unorm }
    else if str_eq(fmt, "rgba8unorm-srgb") { TextureFormat::Rgba8UnormSrgb }
    else if str_eq(fmt, "bgra8unorm") { TextureFormat::Bgra8Unorm }
    else if str_eq(fmt, "bgra8unorm-srgb") { TextureFormat::Bgra8UnormSrgb }
    else if str_eq(fmt, "rgba16float") { TextureFormat::Rgba16Float }
    else if str_eq(fmt, "rgba32float") { TextureFormat::Rgba32Float }
    else if str_eq(fmt, "r16float") { TextureFormat::R16Float }
    else if str_eq(fmt, "r32float") { TextureFormat::R32Float }
    else if str_eq(fmt, "r32uint") { TextureFormat::R32Uint }
    else if str_eq(fmt, "r32sint") { TextureFormat::R32Sint }
    else if str_eq(fmt, "rg32uint") { TextureFormat::Rg32Uint }
    else if str_eq(fmt, "rg32sint") { TextureFormat::Rg32Sint }
    else if str_eq(fmt, "rg32float") { TextureFormat::Rg32Float }
    else if str_eq(fmt, "rgba32uint") { TextureFormat::Rgba32Uint }
    else if str_eq(fmt, "rgba32sint") { TextureFormat::Rgba32Sint }
    else if str_eq(fmt, "rgba8uint") { TextureFormat::Rgba8Uint }
    else if str_eq(fmt, "rgba8sint") { TextureFormat::Rgba8Sint }
    else if str_eq(fmt, "rgba16uint") { TextureFormat::Rgba16Uint }
    else if str_eq(fmt, "rgba16sint") { TextureFormat::Rgba16Sint }
    else if str_eq(fmt, "depth16unorm") { TextureFormat::Depth16Unorm }
    else if str_eq(fmt, "depth24plus") { TextureFormat::Depth24Plus }
    else if str_eq(fmt, "depth24plus-stencil8") { TextureFormat::Depth24PlusStencil8 }
    else if str_eq(fmt, "depth32float") { TextureFormat::Depth32Float }
    else { TextureFormat::Rgba8Unorm }
}

/// Bytes one texel of an uncompressed, directly writable format occupies.
pub open spec fn bytes_per_pixel_spec(f: TextureFormat) -> Option<u32> {
    match f {
        TextureFormat::R8Unorm | TextureFormat::R8Snorm | TextureFormat::R8Uint
        | TextureFormat::R8Sint | TextureFormat::Stencil8 => Some(1u32),
        TextureFormat::R16Uint | TextureFormat::R16Sint | TextureFormat::R16Unorm
        | TextureFormat::R16Snorm | TextureFormat::R16Float | TextureFormat::Rg8Unorm
        | TextureFormat::Rg8Snorm | TextureFormat::Rg8Uint | TextureFormat::Rg8Sint
        | TextureFormat::Depth16Unorm => Some(2u32),
        TextureFormat::R32Uint | TextureFormat::R32Sint | TextureFormat::R32Float
        | TextureFormat::Rg16Uint | TextureFormat::Rg16Sint | TextureFormat::Rg16Unorm
        | TextureFormat::Rg16Snorm | TextureFormat::Rg16Float | TextureFormat::Rgba8Unorm
        | TextureFormat::Rgba8UnormSrgb | TextureFormat::Rgba8Snorm | TextureFormat::Rgba8Uint
        | TextureFormat::Rgba8Sint | TextureFormat::Bgra8Unorm | TextureFormat::Bgra8UnormSrgb
        | TextureFormat::Depth32Float => Some(4u32),
        TextureFormat::Rg32Uint | TextureFormat::Rg32Sint | TextureFormat::Rg32Float
        | TextureFormat::Rgba16Uint | TextureFormat::Rgba16Sint | TextureFormat::Rgba16Unorm
        | TextureFormat::Rgba16Snorm | TextureFormat::Rgba16Float => Some(8u32),
        TextureFormat::Rgba32Uint | TextureFormat::Rgba32Sint
        | TextureFormat::Rgba32Float => Some(16u32),
        _ => None,
    }
}

/// Bytes per texel for formats that accept raw pixel writes; `None` for depth
/// formats with an implementation-defined layout and for compressed formats.
pub fn bytes_per_pixel(format: TextureFormat) -> (r: Option<u32>)
    ensures
        r == bytes_per_pixel_spec(format),
{
    match format {
        TextureFormat::R8Unorm | TextureFormat::R8Snorm | TextureFormat::R8Uint
        | TextureFormat::R8Sint | TextureFormat::Stencil8 => Some(1),
        TextureFormat::R16Uint | TextureFormat::R16Sint | TextureFormat::R16Unorm
        | TextureFormat::R16Snorm | TextureFormat::R16Float | TextureFormat::Rg8Unorm
        | TextureFormat::Rg8Snorm | TextureFormat::Rg8Uint | TextureFormat::Rg8Sint
        | TextureFormat::Depth16Unorm => Some(2),
        TextureFormat::R32Uint | TextureFormat::R32Sint | TextureFormat::R32Float
        | TextureFormat::Rg16Uint | TextureFormat::Rg16Sint | TextureFormat::Rg16Unorm
        | TextureFormat::Rg16Snorm | TextureFormat::Rg16Float | TextureFormat::Rgba8Unorm
        | TextureFormat::Rgba8UnormSrgb | TextureFormat::Rgba8Snorm | TextureFormat::Rgba8Uint
        | TextureFormat::Rgba8Sint | TextureFormat::Bgra8Unorm | TextureFormat::Bgra8UnormSrgb
        | TextureFormat::Depth32Float => Some(4),
        TextureFormat::Rg32Uint | TextureFormat::Rg32Sint | TextureFormat::Rg32Float
        | TextureFormat::Rgba16Uint | TextureFormat::Rgba16Sint | TextureFormat::Rgba16Unorm
        | TextureFormat::Rgba16Snorm | TextureFormat::Rgba16Float => Some(8),
        TextureFormat::Rgba32Uint | TextureFormat::Rgba32Sint
        | TextureFormat::Rgba32Float => Some(16),
        _ => None,
    }
}

/// Formats that RGBA8 image data can be uploaded into unchanged.
pub open spec fn rgba8_compatible_spec(f: TextureFormat) -> bool {
    f == TextureFormat::Rgba8Unorm || f == TextureFormat::Rgba8UnormSrgb
        || f == TextureFormat::Bgra8Unorm || f == TextureFormat::Bgra8UnormSrgb
}

/// Whether decoded RGBA8 pixels may be copied into a texture of this format.
pub fn is_rgba8_compatible(f: TextureFormat) -> (r: bool)
    ensures
        r == rgba8_compatible_spec(f),
{
    match f {
        TextureFormat::Rgba8Unorm | TextureFormat::Rgba8UnormSrgb
        | TextureFormat::Bgra8Unorm | TextureFormat::Bgra8UnormSrgb => true,
        _ => false,
    }
}

#[derive(Clone, Copy, Debug, PartialEq, Eq, Structural)]
pub enum TextureDimension {
    D1,
    D2,
    D3,
}

pub open spec fn texture_dimension_spec(s: Seq<char>) -> TextureDimension {
    if s == "1d"@ { TextureDimension::D1 }
    else if s == "3d"@ { TextureDimension::D3 }
    else { TextureDimension::D2 }
}

/// Maps a texture dimension string; anything but "1d" and "3d" is 2D.
pub fn map_texture_dimension(dim: &str) -> (r: TextureDimension)
    ensures
        r == texture_dimension_spec(dim@),
{
    if str_eq(dim, "1d") { TextureDimension::D1 }
    else if str_eq(dim, "3d") { TextureDimension::D3 }
    else { TextureDimension::D2 }
}

/// The WebGPU name of each texture dimension.
pub open spec fn texture_dimension_name(v: TextureDimension) -> Seq<char> {
    match v {
        TextureDimension::D1 => "1d"@,
        TextureDimension::D2 => "2d"@,
        TextureDimension::D3 => "3d"@,
    }
}

/// Every texture dimension is read by its name: `map_texture_dimension` given the name of any texture dimension
/// gives the texture dimension of that name.
pub proof fn lemma_texture_dimension_names(v: TextureDimension)
    ensures
        texture_dimension_name(texture_dimension_spec(texture_dimension_name(v))) == texture_dimension_name(v),
{
}

#[derive(Clone, Copy, Debug, PartialEq, Eq, Structural)]
pub enum TextureViewDimension {
    D1,
    D2,
    D2Array,
    Cube,
    CubeArray,
    D3,
}

pub open spec fn view_dimension_spec(d: Option<Seq<char>>) -> TextureViewDimension {
    match d {
        Some(s) => {
            if s == "1d"@ { TextureViewDimension::D1 }
            else if s == "2d"@ { TextureViewDimension::D2 }
            else if s == "2d-array"@ { TextureViewDimension::D2Array }
            else if s == "cube"@ { TextureViewDimension::Cube }
            else if s == "cube-array"@ { TextureViewDimension::CubeArray }
            else if s == "3d"@ { TextureViewDimension::D3 }
            else { TextureViewDimension::D2 }
        },
        None => TextureViewDimension::D2,
    }
}

/// Maps an optional view dimension string; absent or unknown means 2D.
pub fn map_view_dimension(dim: Option<&str>) -> (r: TextureViewDimension)
    ensures
        r == view_dimension_spec(opt_view(dim)),
{
    match dim {
        Some(s) => {
            if str_eq(s, "1d") { TextureViewDimension::D1 }
            else if str_eq(s, "2d") { TextureViewDimension::D2 }
            else if str_eq(s, "2d-array") { TextureViewDimension::D2Array }
            else if str_eq(s, "cube") { TextureViewDimension::Cube }
            else if str_eq(s, "cube-array") { TextureViewDimension::CubeArray }
            else if str_eq(s, "3d") { TextureViewDimension::D3 }
            else { TextureViewDimension::D2 }
        },
        None => TextureViewDimension::D2,
    }
}

/// The WebGPU name of each view dimension.
pub open spec fn view_dimension_name(v: TextureViewDimension) -> Seq<char> {
    match v {
        TextureViewDimension::D1 => "1d"@,
        TextureViewDimension::D2 => "2d"@,
        TextureViewDimension::D2Array => "2d-array"@,
        TextureViewDimension::Cube => "cube"@,
        TextureViewDimension::CubeArray => "cube-array"@,
        TextureViewDimension::D3 => "3d"@,
    }
}

/// Every view dimension is read by its name: `map_view_dimension` given the name of any view dimension
/// gives the view dimension of that name, and with no name at all "2d".
pub proof fn lemma_view_dimension_names(v: TextureViewDimension)
    ensures
        view_dimension_name(view_dimension_spec(Some(view_dimension_name(v)))) == view_dimension_name(v),
        view_dimension_spec(None) == TextureViewDimension::D2,
{
}

#[derive(Clone, Copy, Debug, PartialEq, Eq, Structural)]
pub enum TextureSampleType {
    Float { filterable: bool },
    Depth,
    Sint,
    Uint,
}

pub open spec fn sample_type_spec(t: Option<Seq<char>>) -> TextureSampleType {
    match t {
        Some(s) => {
            if s == "unfilterable-float"@ { TextureSampleType::Float { filterable: false } }
            else if s == "depth"@ { TextureSampleType::Depth }
            else if s == "sint"@ { TextureSampleType::Sint }
            else if s == "uint"@ { TextureSampleType::Uint }
            else { TextureSampleType::Float { filterable: true } }
        },
        None => TextureSampleType::Float { filterable: true },
    }
}

/// Maps a texture sample type; the default is filterable float.
pub fn map_texture_sample_type(t: Option<&str>) -> (r: TextureSampleType)
    ensures
        r == sample_type_spec(opt_view(t)),
{
    match t {
        Some(s) => {
            if str_eq(s, "unfilterable-float") { TextureSampleType::Float { filterable: false } }
            else if str_eq(s, "depth") { TextureSampleType::Depth }
            else if str_eq(s, "sint") { TextureSampleType::Sint }
            else if str_eq(s, "uint") { TextureSampleType::Uint }
            else { TextureSampleType::Float { filterable: true } }
        },
        None => TextureSampleType::Float { filterable: true },
    }
}

/// The WebGPU name of each texture sample type.
pub open spec fn sample_type_name(v: TextureSampleType) -> Seq<char> {
    match v {
        TextureSampleType::Float { filterable: true } => "float"@,
        TextureSampleType::Float { filterable: false } => "unfilterable-float"@,
        TextureSampleType::Depth => "depth"@,
        TextureSampleType::Sint => "sint"@,
        TextureSampleType::Uint => "uint"@,
    }
}

/// Every texture sample type is read by its name: `map_texture_sample_type` given the name of any texture sample type
/// gives the texture sample type of that name, and with no name at all "float".
pub proof fn lemma_sample_type_names(v: TextureSampleType)
    ensures
        sample_type_name(sample_type_spec(Some(sample_type_name(v)))) == sample_type_name(v),
        sample_type_spec(None) == (TextureSampleType::Float { filterable: true }),
{
}

#[derive(Clone, Copy, Debug, PartialEq, Eq, Structural)]
pub enum StorageTextureAccess {
    ReadOnly,
    ReadWrite,
    WriteOnly,
}

pub open spec fn storage_access_spec(a: Option<Seq<char>>) -> StorageTextureAccess {
    match a {
        Some(s) => {
            if s == "read-only"@ { StorageTextureAccess::ReadOnly }
            else if s == "read-write"@ { StorageTextureAccess::ReadWrite }
            else { StorageTextureAccess::WriteOnly }
        },
        None => StorageTextureAccess::WriteOnly,
    }
}

/// Maps a storage texture access string; the default is write-only.
pub fn map_storage_access(a: Option<&str>) -> (r: StorageTextureAccess)
    ensures
        r == storage_access_spec(opt_view(a)),
{
    match a {
        Some(s) => {
            if str_eq(s, "read-only") { StorageTextureAccess::ReadOnly }
            else if str_eq(s, "read-write") { StorageTextureAccess::ReadWrite }
            else { StorageTextureAccess::WriteOnly }
        },
        None => StorageTextureAccess::WriteOnly,
    }
}

/// The WebGPU name of each storage texture access.
pub open spec fn storage_access_name(v: StorageTextureAccess) -> Seq<char> {
    match v {
        StorageTextureAccess::ReadOnly => "read-only"@,
        StorageTextureAccess::ReadWrite => "read-write"@,
        StorageTextureAccess::WriteOnly => "write-only"@,
    }
}

/// Every storage texture access is read by its name: `map_storage_access` given the name of any storage texture access
/// gives the storage texture access of that name, and with no name at all "write-only".
pub proof fn lemma_storage_access_names(v: StorageTextureAccess)
    ensures
        storage_access_name(storage_access_spec(Some(storage_access_name(v)))) == storage_access_name(v),
        storage_access_spec(None) == StorageTextureAccess::WriteOnly,
{
}

#[derive(Clone, Copy, Debug, PartialEq, Eq, Structural)]
pub enum SamplerBindingType {
    Comparison,
    NonFiltering,
    Filtering,
}

pub open spec fn sampler_type_spec(t: Option<Seq<char>>) -> SamplerBindingType {
    match t {
        Some(s) => {
            if s == "comparison"@ { SamplerBindingType::Comparison }
            else if s == "non-filtering"@ { SamplerBindingType::NonFiltering }
            else { SamplerBindingType::Filtering }
        },
        None => SamplerBindingType::Filtering,
    }
}

/// Maps a sampler binding type; the default is filtering.
pub fn map_sampler_type(t: Option<&str>) -> (r: SamplerBindingType)
    ensures
        r == sampler_type_spec(opt_view(t)),
{
    match t {
        Some(s) => {
            if str_eq(s, "comparison") { SamplerBindingType::Comparison }
            else if str_eq(s, "non-filtering") { SamplerBindingType::NonFiltering }
            else { SamplerBindingType::Filtering }
        },
        None => SamplerBindingType::Filtering,
    }
}

/// The WebGPU name of each sampler binding type.
pub open spec fn sampler_type_name(v: SamplerBindingType) -> Seq<char> {
    match v {
        SamplerBindingType::Comparison => "comparison"@,
        SamplerBindingType::NonFiltering => "non-filtering"@,
        SamplerBindingType::Filtering => "filtering"@,
    }
}

/// Every sampler binding type is read by its name: `map_sampler_type` given the name of any sampler binding type
/// gives the sampler binding type of that name, and with no name at all "filtering".
pub proof fn lemma_sampler_type_names(v: SamplerBindingType)
    ensures
        sampler_type_name(sampler_type_spec(Some(sampler_type_name(v)))) == sampler_type_name(v),
        sampler_type_spec(None) == SamplerBindingType::Filtering,
{
}

#[derive(Clone, Copy, Debug, PartialEq, Eq, Structural)]
pub enum BufferBindingType {
    Storage { read_only: bool },
    Uniform,
}

pub open spec fn buffer_binding_type_spec(t: Option<Seq<char>>) -> BufferBindingType {
    match t {
        Some(s) => {
            if s == "storage"@ { BufferBindingType::Storage { read_only: false } }
            else if s == "read-only-storage"@ { BufferBindingType::Storage { read_only: true } }
            else { BufferBindingType::Uniform }
        },
        None => BufferBindingType::Uniform,
    }
}

/// Maps a buffer binding type; the default is uniform.
pub fn map_buffer_binding_type(t: Option<&str>) -> (r: BufferBindingType)
    ensures
        r == buffer_binding_type_spec(opt_view(t)),
{
    match t {
        Some(s) => {
            if str_eq(s, "storage") { BufferBindingType::Storage { read_only: false } }
            else if str_eq(s, "read-only-storage") { BufferBindingType::Storage { read_only: true } }
            else { BufferBindingType::Uniform }
        },
        None => BufferBindingType::Uniform,
    }
}

/// The WebGPU name of each buffer binding type.
pub open spec fn buffer_binding_type_name(v: BufferBindingType) -> Seq<char> {
    match v {
        BufferBindingType::Storage { read_only: false } => "storage"@,
        BufferBindingType::Storage { read_only: true } => "read-only-storage"@,
        BufferBindingType::Uniform => "uniform"@,
    }
}

/// Every buffer binding type is read by its name: `map_buffer_binding_type` given the name of any buffer binding type
/// gives the buffer binding type of that name, and with no name at all "uniform".
pub proof fn lemma_buffer_binding_type_names(v: BufferBindingType)
    ensures
        buffer_binding_type_name(buffer_binding_type_spec(Some(buffer_binding_type_name(v)))) == buffer_binding_type_name(v),
        buffer_binding_type_spec(None) == BufferBindingType::Uniform,
{
}

#[derive(Clone, Copy, Debug, PartialEq, Eq, Structural)]
pub enum FilterMode {
    Nearest,
    Linear,
}

pub open spec fn filter_mode_spec(s: Option<Seq<char>>) -> FilterMode {
    if s == Some("nearest"@) { FilterMode::Nearest } else { FilterMode::Linear }
}

/// Maps a filter mode; only "nearest" selects nearest filtering.
pub fn map_filter_mode(s: Option<&str>) -> (r: FilterMode)
    ensures
        r == filter_mode_spec(opt_view(s)),
{
    match s {
        Some(v) => if str_eq(v, "nearest") { FilterMode::Nearest } else { FilterMode::Linear },
        None => FilterMode::Linear,
    }
}

/// The WebGPU name of each filter mode.
pub open spec fn filter_mode_name(v: FilterMode) -> Seq<char> {
    match v {
        FilterMode::Nearest => "nearest"@,
        FilterMode::Linear => "linear"@,
    }
}

/// Every filter mode is read by its name: `map_filter_mode` given the name of any filter mode
/// gives the filter mode of that name, and with no name at all "linear".
pub proof fn lemma_filter_mode_names(v: FilterMode)
    ensures
        filter_mode_name(filter_mode_spec(Some(filter_mode_name(v)))) == filter_mode_name(v),
        filter_mode_spec(None) == FilterMode::Linear,
{
}

/// Maps a mipmap filter mode; only "nearest" selects nearest filtering.
pub fn map_mipmap_filter_mode(s: Option<&str>) -> (r: FilterMode)
    ensures
        r == filter_mode_spec(opt_view(s)),
{
    map_filter_mode(s)
}

#[derive(Clone, Copy, Debug, PartialEq, Eq, Structural)]
pub enum AddressMode {
    Repeat,
    MirrorRepeat,
    ClampToEdge,
}

pub open spec fn address_mode_spec(s: Option<Seq<char>>) -> AddressMode {
    if s == Some("repeat"@) { AddressMode::Repeat }
    else if s == Some("mirror-repeat"@) { AddressMode::MirrorRepeat }
    else { AddressMode::ClampToEdge }
}

/// Maps an address mode; the default is clamp-to-edge.
pub fn map_address_mode(s: Option<&str>) -> (r: AddressMode)
    ensures
        r == address_mode_spec(opt_view(s)),
{
    match s {
        Some(v) => {
            if str_eq(v, "repeat") { AddressMode::Repeat }
            else if str_eq(v, "mirror-repeat") { AddressMode::MirrorRepeat }
            else { AddressMode::ClampToEdge }
        },
        None => AddressMode::ClampToEdge,
    }
}

/// The WebGPU name of each address mode.
pub open spec fn address_mode_name(v: AddressMode) -> Seq<char> {
    match v {
        AddressMode::Repeat => "repeat"@,
        AddressMode::MirrorRepeat => "mirror-repeat"@,
        AddressMode::ClampToEdge => "clamp-to-edge"@,
    }
}

/// Every address mode is read by its name: `map_address_mode` given the name of any address mode
/// gives the address mode of that name, and with no name at all "clamp-to-edge".
pub proof fn lemma_address_mode_names(v: AddressMode)
    ensures
        address_mode_name(address_mode_spec(Some(address_mode_name(v)))) == address_mode_name(v),
        address_mode_spec(None) == AddressMode::ClampToEdge,
{
}

#[derive(Clone, Copy, Debug, PartialEq, Eq, Structural)]
pub enum VertexFormat {
    Float32,
    Float32x2,
    Float32x3,
    Float32x4,
    Float16x2,
    Float16x4,
    Uint32,
    Uint32x2,
    Uint32x3,
    Uint32x4,
    Sint32,
    Sint32x2,
    Sint32x3,
    Sint32x4,
    Uint8x2,
    Uint8x4,
    Sint8x2,
    Sint8x4,
    Unorm8x2,
    Unorm8x4,
    Snorm8x2,
    Snorm8x4,
    Uint16x2,
    Uint16x4,
    Sint16x2,
    Sint16x4,
    Unorm16x2,
    Unorm16x4,
    Snorm16x2,
    Snorm16x4,
}

/// The vertex format a WebGPU vertex format string names, if any.
pub open spec fn vertex_format_spec(s: Seq<char>) -> Option<VertexFormat> {
    if s == "float32"@ { Some(VertexFormat::Float32) }
    else if s == "float32x2"@ { Some(VertexFormat::Float32x2) }
    else if s == "float32x3"@ { Some(VertexFormat::Float32x3) }
    else if s == "float32x4"@ { Some(VertexFormat::Float32x4) }
    else if s == "float16x2"@ { Some(VertexFormat::Float16x2) }
    else if s == "float16x4"@ { Some(VertexFormat::Float16x4) }
    else if s == "uint32"@ { Some(VertexFormat::Uint32) }
    else if s == "uint32x2"@ { Some(VertexFormat::Uint32x2) }
    else if s == "uint32x3"@ { Some(VertexFormat::Uint32x3) }
    else if s == "uint32x4"@ { Some(VertexFormat::Uint32x4) }
    else if s == "sint32"@ { Some(VertexFormat::Sint32) }
    else if s == "sint32x2"@ { Some(VertexFormat::Sint32x2) }
    else if s == "sint32x3"@ { Some(VertexFormat::Sint32x3) }
    else if s == "sint32x4"@ { Some(VertexFormat::Sint32x4) }
    else if s == "uint8x2"@ { Some(VertexFormat::Uint8x2) }
    else if s == "uint8x4"@ { Some(VertexFormat::Uint8x4) }
    else if s == "sint8x2"@ { Some(VertexFormat::Sint8x2) }
    else if s == "sint8x4"@ { Some(VertexFormat::Sint8x4) }
    else if s == "unorm8x2"@ { Some(VertexFormat::Unorm8x2) }
    else if s == "unorm8x4"@ { Some(VertexFormat::Unorm8x4) }
    else if s == "snorm8x2"@ { Some(VertexFormat::Snorm8x2) }
    else if s == "snorm8x4"@ { Some(VertexFormat::Snorm8x4) }
    else if s == "uint16x2"@ { Some(VertexFormat::Uint16x2) }
    else if s == "uint16x4"@ { Some(VertexFormat::Uint16x4) }
    else if s == "sint16x2"@ { Some(VertexFormat::Sint16x2) }
    else if s == "sint16x4"@ { Some(VertexFormat::Sint16x4) }
    else if s == "unorm16x2"@ { Some(VertexFormat::Unorm16x2) }
    else if s == "unorm16x4"@ { Some(VertexFormat::Unorm16x4) }
    else if s == "snorm16x2"@ { Some(VertexFormat::Snorm16x2) }
    else if s == "snorm16x4"@ { Some(VertexFormat::Snorm16x4) }
    else { None }
}

/// Maps a vertex format string; unknown strings are refused.
pub fn map_vertex_format(fmt: &str) -> (r: Result<VertexFormat, GfxError>)
    ensures
        match vertex_format_spec(fmt@) {
            Some(f) => r == Ok::<VertexFormat, GfxError>(f),
            None => r matches Err(GfxError::UnsupportedVertexFormat(m)) && m@ == fmt@,
        },
{
    if str_eq(fmt, "float32") { Ok(VertexFormat::Float32) }
    else if str_eq(fmt, "float32x2") { Ok(VertexFormat::Float32x2) }
    else if str_eq(fmt, "float32x3") { Ok(VertexFormat::Float32x3) }
    else if str_eq(fmt, "float32x4") { Ok(VertexFormat::Float32x4) }
    else if str_eq(fmt, "float16x2") { Ok(VertexFormat::Float16x2) }
    else if str_eq(fmt, "float16x4") { Ok(VertexFormat::Float16x4) }
    else if str_eq(fmt, "uint32") { Ok(VertexFormat::Uint32) }
    else if str_eq(fmt, "uint32x2") { Ok(VertexFormat::Uint32x2) }
    else if str_eq(fmt, "uint32x3") { Ok(VertexFormat::Uint32x3) }
    else if str_eq(fmt, "uint32x4") { Ok(VertexFormat::Uint32x4) }
    else if str_eq(fmt, "sint32") { Ok(VertexFormat::Sint32) }
    else if str_eq(fmt, "sint32x2") { Ok(VertexFormat::Sint32x2) }
    else if str_eq(fmt, "sint32x3") { Ok(VertexFormat::Sint32x3) }
    else if str_eq(fmt, "sint32x4") { Ok(VertexFormat::Sint32x4) }
    else if str_eq(fmt, "uint8x2") { Ok(VertexFormat::Uint8x2) }
    else if str_eq(fmt, "uint8x4") { Ok(VertexFormat::Uint8x4) }
    else if str_eq(fmt, "sint8x2") { Ok(VertexFormat::Sint8x2) }
    else if str_eq(fmt, "sint8x4") { Ok(VertexFormat::Sint8x4) }
    else if str_eq(fmt, "unorm8x2") { Ok(VertexFormat::Unorm8x2) }
    else if str_eq(fmt, "unorm8x4") { Ok(VertexFormat::Unorm8x4) }
    else if str_eq(fmt, "snorm8x2") { Ok(VertexFormat::Snorm8x2) }
    else if str_eq(fmt, "snorm8x4") { Ok(VertexFormat::Snorm8x4) }
    else if str_eq(fmt, "uint16x2") { Ok(VertexFormat::Uint16x2) }
    else if str_eq(fmt, "uint16x4") { Ok(VertexFormat::Uint16x4) }
    else if str_eq(fmt, "sint16x2") { Ok(VertexFormat::Sint16x2) }
    else if str_eq(fmt, "sint16x4") { Ok(VertexFormat::Sint16x4) }
    else if str_eq(fmt, "unorm16x2") { Ok(VertexFormat::Unorm16x2) }
    else if str_eq(fmt, "unorm16x4") { Ok(VertexFormat::Unorm16x4) }
    else if str_eq(fmt, "snorm16x2") { Ok(VertexFormat::Snorm16x2) }
    else if str_eq(fmt, "snorm16x4") { Ok(VertexFormat::Snorm16x4) }
    else { Err(GfxError::UnsupportedVertexFormat(crate::text::owned(fmt))) }
}

/// The name of each vertex format, as scripts write it.
pub open spec fn vertex_format_name(v: VertexFormat) -> Seq<char> {
    match v {
        VertexFormat::Float32 => "float32"@,
        VertexFormat::Float32x2 => "float32x2"@,
        VertexFormat::Float32x3 => "float32x3"@,
        VertexFormat::Float32x4 => "float32x4"@,
        VertexFormat::Float16x2 => "float16x2"@,
        VertexFormat::Float16x4 => "float16x4"@,
        VertexFormat::Uint32 => "uint32"@,
        VertexFormat::Uint32x2 => "uint32x2"@,
        VertexFormat::Uint32x3 => "uint32x3"@,
        VertexFormat::Uint32x4 => "uint32x4"@,
        VertexFormat::Sint32 => "sint32"@,
        VertexFormat::Sint32x2 => "sint32x2"@,
        VertexFormat::Sint32x3 => "sint32x3"@,
        VertexFormat::Sint32x4 => "sint32x4"@,
        VertexFormat::Uint8x2 => "uint8x2"@,
        VertexFormat::Uint8x4 => "uint8x4"@,
        VertexFormat::Sint8x2 => "sint8x2"@,
        VertexFormat::Sint8x4 => "sint8x4"@,
        VertexFormat::Unorm8x2 => "unorm8x2"@,
        VertexFormat::Unorm8x4 => "unorm8x4"@,
        VertexFormat::Snorm8x2 => "snorm8x2"@,
        VertexFormat::Snorm8x4 => "snorm8x4"@,
        VertexFormat::Uint16x2 => "uint16x2"@,
        VertexFormat::Uint16x4 => "uint16x4"@,
        VertexFormat::Sint16x2 => "sint16x2"@,
        VertexFormat::Sint16x4 => "sint16x4"@,
        VertexFormat::Unorm16x2 => "unorm16x2"@,
        VertexFormat::Unorm16x4 => "unorm16x4"@,
        VertexFormat::Snorm16x2 => "snorm16x2"@,
        VertexFormat::Snorm16x4 => "snorm16x4"@,
    }
}

/// Every vertex format is found under its name, as the vertex format of that name.
pub proof fn lemma_vertex_format_names(v: VertexFormat)
    ensures
        vertex_format_spec(vertex_format_name(v)) is Some,
        vertex_format_name(vertex_format_spec(vertex_format_name(v))->0) == vertex_format_name(v),
{
}

/// Errors the host reports for malformed GPU descriptors.
#[derive(Clone, Debug, PartialEq, Eq)]
pub enum GfxError {
    UnsupportedVertexFormat(String),
    UnknownQueryType(String),
    InvalidBindGroupLayoutEntry,
    BindGroupEntryMissingResource,
}

/// The text a descriptor error is reported with.
pub open spec fn gfx_error_message_spec(e: GfxError) -> Seq<char> {
    match e {
        GfxError::UnsupportedVertexFormat(f) => "Unsupported vertex format in WebGPU pipeline: "@ + f@,
        GfxError::UnknownQueryType(t) => "Unknown query type: "@ + t@,
        GfxError::InvalidBindGroupLayoutEntry => "invalid bind group layout entry"@,
        GfxError::BindGroupEntryMissingResource => "bind group entry missing resource"@,
    }
}

impl GfxError {
    /// The text a descriptor error is reported with.
    pub fn message(&self) -> (r: String)
        ensures
            r@ == gfx_error_message_spec(*self),
    {
        match self {
            GfxError::UnsupportedVertexFormat(f) => {
                let mut m = String::from_str("Unsupported vertex format in WebGPU pipeline: ");
                m.append(f.as_str());
                m
            },
            GfxError::UnknownQueryType(t) => {
                let mut m = String::from_str("Unknown query type: ");
                m.append(t.as_str());
                m
            },
            GfxError::InvalidBindGroupLayoutEntry => String::from_str("invalid bind group layout entry"),
            GfxError::BindGroupEntryMissingResource => String::from_str("bind group entry missing resource"),
        }
    }
}

#[derive(Clone, Copy, Debug, PartialEq, Eq, Structural)]
pub enum VertexStepMode {
    Vertex,
    Instance,
}

pub open spec fn step_mode_spec(s: Option<Seq<char>>) -> VertexStepMode {
    if s == Some("instance"@) { VertexStepMode::Instance } else { VertexStepMode::Vertex }
}

/// Maps a vertex step mode; only "instance" selects per-instance stepping.
pub fn map_step_mode(mode: Option<&str>) -> (r: VertexStepMode)
    ensures
        r == step_mode_spec(opt_view(mode)),
{
    match mode {
        Some(v) => if str_eq(v, "instance") { VertexStepMode::Instance } else { VertexStepMode::Vertex },
        None => VertexStepMode::Vertex,
    }
}

/// The WebGPU name of each vertex step mode.
pub open spec fn step_mode_name(v: VertexStepMode) -> Seq<char> {
    match v {
        VertexStepMode::Vertex => "vertex"@,
        VertexStepMode::Instance => "instance"@,
    }
}

/// Every vertex step mode is read by its name: `map_step_mode` given the name of any vertex step mode
/// gives the vertex step mode of that name, and with no name at all "vertex".
pub proof fn lemma_step_mode_names(v: VertexStepMode)
    ensures
        step_mode_name(step_mode_spec(Some(step_mode_name(v)))) == step_mode_name(v),
        step_mode_spec(None) == VertexStepMode::Vertex,
{
}

#[derive(Clone, Copy, Debug, PartialEq, Eq, Structural)]
pub enum FrontFace {
    Ccw,
    Cw,
}

pub open spec fn front_face_spec(s: Option<Seq<char>>) -> FrontFace {
    if s == Some("cw"@) { FrontFace::Cw } else { FrontFace::Ccw }
}

/// Maps a front-face winding; only "cw" selects clockwise.
pub fn map_front_face(s: Option<&str>) -> (r: FrontFace)
    ensures
        r == front_face_spec(opt_view(s)),
{
    match s {
        Some(v) => if str_eq(v, "cw") { FrontFace::Cw } else { FrontFace::Ccw },
        None => FrontFace::Ccw,
    }
}

/// The WebGPU name of each front-face winding.
pub open spec fn front_face_name(v: FrontFace) -> Seq<char> {
    match v {
        FrontFace::Ccw => "ccw"@,
        FrontFace::Cw => "cw"@,
    }
}

/// Every front-face winding is read by its name: `map_front_face` given the name of any front-face winding
/// gives the front-face winding of that name, and with no name at all "ccw".
pub proof fn lemma_front_face_names(v: FrontFace)
    ensures
        front_face_name(front_face_spec(Some(front_face_name(v)))) == front_face_name(v),
        front_face_spec(None) == FrontFace::Ccw,
{
}

#[derive(Clone, Copy, Debug, PartialEq, Eq, Structural)]
pub enum Face {
    Front,
    Back,
}

pub open spec fn cull_mode_spec(s: Option<Seq<char>>) -> Option<Face> {
    if s == Some("front"@) { Some(Face::Front) }
    else if s == Some("back"@) { Some(Face::Back) }
    else { None }
}

/// Maps a cull mode; anything but "front" and "back" disables culling.
pub fn map_cull_mode(s: Option<&str>) -> (r: Option<Face>)
    ensures
        r == cull_mode_spec(opt_view(s)),
{
    match s {
        Some(v) => {
            if str_eq(v, "front") { Some(Face::Front) }
            else if str_eq(v, "back") { Some(Face::Back) }
            else { None }
        },
        None => None,
    }
}

/// The name of each culled face, as scripts write it.
pub open spec fn face_name(v: Face) -> Seq<char> {
    match v {
        Face::Front => "front"@,
        Face::Back => "back"@,
    }
}

/// Every face is culled when asked for by its name, and nothing is culled
/// when no cull mode is given.
pub proof fn lemma_cull_mode_names(v: Face)
    ensures
        cull_mode_spec(Some(face_name(v))) is Some,
        face_name(cull_mode_spec(Some(face_name(v)))->0) == face_name(v),
        cull_mode_spec(None) is None,
{
}

#[derive(Clone, Copy, Debug, PartialEq, Eq, Structural)]
pub enum CompareFunction {
    Never,
    Less,
    Equal,
    LessEqual,
    Greater,
    NotEqual,
    GreaterEqual,
    Always,
}

pub open spec fn compare_function_spec(s: Option<Seq<char>>) -> CompareFunction {
    match s {
        Some(v) => {
            if v == "never"@ { CompareFunction::Never }
            else if v == "less"@ { CompareFunction::Less }
            else if v == "equal"@ { CompareFunction::Equal }
            else if v == "less-equal"@ { CompareFunction::LessEqual }
            else if v == "greater"@ { CompareFunction::Greater }
            else if v == "not-equal"@ { CompareFunction::NotEqual }
            else if v == "greater-equal"@ { CompareFunction::GreaterEqual }
            else if v == "always"@ { CompareFunction::Always }
            else { CompareFunction::Less }
        },
        None => CompareFunction::Less,
    }
}

/// Maps a compare function; absent or unknown means "less".
pub fn map_compare_function(s: Option<&str>) -> (r: CompareFunction)
    ensures
        r == compare_function_spec(opt_view(s)),
{
    match s {
        Some(v) => {
            if str_eq(v, "never") { CompareFunction::Never }
            else if str_eq(v, "less") { CompareFunction::Less }
            else if str_eq(v, "equal") { CompareFunction::Equal }
            else if str_eq(v, "less-equal") { CompareFunction::LessEqual }
            else if str_eq(v, "greater") { CompareFunction::Greater }
            else if str_eq(v, "not-equal") { CompareFunction::NotEqual }
            else if str_eq(v, "greater-equal") { CompareFunction::GreaterEqual }
            else if str_eq(v, "always") { CompareFunction::Always }
            else { CompareFunction::Less }
        },
        None => CompareFunction::Less,
    }
}

/// The WebGPU name of each compare function.
pub open spec fn compare_function_name(v: CompareFunction) -> Seq<char> {
    match v {
        CompareFunction::Never => "never"@,
        CompareFunction::Less => "less"@,
        CompareFunction::Equal => "equal"@,
        CompareFunction::LessEqual => "less-equal"@,
        CompareFunction::Greater => "greater"@,
        CompareFunction::NotEqual => "not-equal"@,
        CompareFunction::GreaterEqual => "greater-equal"@,
        CompareFunction::Always => "always"@,
    }
}

/// Every compare function is read by its name: `map_compare_function` given the name of any compare function
/// gives the compare function of that name, and with no name at all "less".
pub proof fn lemma_compare_function_names(v: CompareFunction)
    ensures
        compare_function_name(compare_function_spec(Some(compare_function_name(v)))) == compare_function_name(v),
        compare_function_spec(None) == CompareFunction::Less,
{
}

#[derive(Clone, Copy, Debug, PartialEq, Eq, Structural)]
pub enum StencilOperation {
    Keep,
    Zero,
    Replace,
    Invert,
    IncrementClamp,
    DecrementClamp,
    IncrementWrap,
    DecrementWrap,
}

pub open spec fn stencil_operation_spec(s: Option<Seq<char>>) -> StencilOperation {
    match s {
        Some(v) => {
            if v == "keep"@ { StencilOperation::Keep }
            else if v == "zero"@ { StencilOperation::Zero }
            else if v == "replace"@ { StencilOperation::Replace }
            else if v == "invert"@ { StencilOperation::Invert }
            else if v == "increment-clamp"@ { StencilOperation::IncrementClamp }
            else if v == "decrement-clamp"@ { StencilOperation::DecrementClamp }
            else if v == "increment-wrap"@ { StencilOperation::IncrementWrap }
            else if v == "decrement-wrap"@ { StencilOperation::DecrementWrap }
            else { StencilOperation::Keep }
        },
        None => StencilOperation::Keep,
    }
}

/// Maps a stencil operation; absent or unknown means "keep".
pub fn map_stencil_operation(s: Option<&str>) -> (r: StencilOperation)
    ensures
        r == stencil_operation_spec(opt_view(s)),
{
    match s {
        Some(v) => {
            if str_eq(v, "keep") { StencilOperation::Keep }
            else if str_eq(v, "zero") { StencilOperation::Zero }
            else if str_eq(v, "replace") { StencilOperation::Replace }
            else if str_eq(v, "invert") { StencilOperation::Invert }
            else if str_eq(v, "increment-clamp") { StencilOperation::IncrementClamp }
            else if str_eq(v, "decrement-clamp") { StencilOperation::DecrementClamp }
            else if str_eq(v, "increment-wrap") { StencilOperation::IncrementWrap }
            else if str_eq(v, "decrement-wrap") { StencilOperation::DecrementWrap }
            else { StencilOperation::Keep }
        },
        None => StencilOperation::Keep,
    }
}

/// The WebGPU name of each stencil operation.
pub open spec fn stencil_operation_name(v: StencilOperation) -> Seq<char> {
    match v {
        StencilOperation::Keep => "keep"@,
        StencilOperation::Zero => "zero"@,
        StencilOperation::Replace => "replace"@,
        StencilOperation::Invert => "invert"@,
        StencilOperation::IncrementClamp => "increment-clamp"@,
        StencilOperation::DecrementClamp => "decrement-clamp"@,
        StencilOperation::IncrementWrap => "increment-wrap"@,
        StencilOperation::DecrementWrap => "decrement-wrap"@,
    }
}

/// Every stencil operation is read by its name: `map_stencil_operation` given the name of any stencil operation
/// gives the stencil operation of that name, and with no name at all "keep".
pub proof fn lemma_stencil_operation_names(v: StencilOperation)
    ensures
        stencil_operation_name(stencil_operation_spec(Some(stencil_operation_name(v)))) == stencil_operation_name(v),
        stencil_operation_spec(None) == StencilOperation::Keep,
{
}

#[derive(Clone, Copy, Debug, PartialEq, Eq, Structural)]
pub enum PrimitiveTopology {
    PointList,
    LineList,
    LineStrip,
    TriangleList,
    TriangleStrip,
}

pub open spec fn topology_spec(s: Option<Seq<char>>) -> PrimitiveTopology {
    if s == Some("point-list"@) { PrimitiveTopology::PointList }
    else if s == Some("line-list"@) { PrimitiveTopology::LineList }
    else if s == Some("line-strip"@) { PrimitiveTopology::LineStrip }
    else if s == Some("triangle-strip"@) { PrimitiveTopology::TriangleStrip }
    else { PrimitiveTopology::TriangleList }
}

/// Maps a primitive topology; absent or unknown means triangle list.
pub fn map_primitive_topology(s: Option<&str>) -> (r: PrimitiveTopology)
    ensures
        r == topology_spec(opt_view(s)),
{
    match s {
        Some(v) => {
            if str_eq(v, "point-list") { PrimitiveTopology::PointList }
            else if str_eq(v, "line-list") { PrimitiveTopology::LineList }
            else if str_eq(v, "line-strip") { PrimitiveTopology::LineStrip }
            else if str_eq(v, "triangle-strip") { PrimitiveTopology::TriangleStrip }
            else { PrimitiveTopology::TriangleList }
        },
        None => PrimitiveTopology::TriangleList,
    }
}

/// The WebGPU name of each primitive topology.
pub open spec fn topology_name(v: PrimitiveTopology) -> Seq<char> {
    match v {
        PrimitiveTopology::PointList => "point-list"@,
        PrimitiveTopology::LineList => "line-list"@,
        PrimitiveTopology::LineStrip => "line-strip"@,
        PrimitiveTopology::TriangleList => "triangle-list"@,
        PrimitiveTopology::TriangleStrip => "triangle-strip"@,
    }
}

/// Every primitive topology is read by its name: `map_primitive_topology` given the name of any primitive topology
/// gives the primitive topology of that name, and with no name at all "triangle-list".
pub proof fn lemma_topology_names(v: PrimitiveTopology)
    ensures
        topology_name(topology_spec(Some(topology_name(v)))) == topology_name(v),
        topology_spec(None) == PrimitiveTopology::TriangleList,
{
}

#[derive(Clone, Copy, Debug, PartialEq, Eq, Structural)]
pub enum IndexFormat {
    Uint16,
    Uint32,
}

pub open spec fn index_format_spec(s: Option<Seq<char>>) -> IndexFormat {
    if s == Some("uint16"@) { IndexFormat::Uint16 } else { IndexFormat::Uint32 }
}

/// Maps an index format; only "uint16" selects 16-bit indices.
pub fn map_index_format(s: Option<&str>) -> (r: IndexFormat)
    ensures
        r == index_format_spec(opt_view(s)),
{
    match s {
        Some(v) => if str_eq(v, "uint16") { IndexFormat::Uint16 } else { IndexFormat::Uint32 },
        None => IndexFormat::Uint32,
    }
}

/// The WebGPU name of each index format.
pub open spec fn index_format_name(v: IndexFormat) -> Seq<char> {
    match v {
        IndexFormat::Uint16 => "uint16"@,
        IndexFormat::Uint32 => "uint32"@,
    }
}

/// Every index format is read by its name: `map_index_format` given the name of any index format
/// gives the index format of that name, and with no name at all "uint32".
pub proof fn lemma_index_format_names(v: IndexFormat)
    ensures
        index_format_name(index_format_spec(Some(index_format_name(v)))) == index_format_name(v),
        index_format_spec(None) == IndexFormat::Uint32,
{
}

#[derive(Clone, Copy, Debug, PartialEq, Eq, Structural)]
pub enum StoreOp {
    Store,
    Discard,
}

pub open spec fn store_op_spec(s: Option<Seq<char>>) -> StoreOp {
    if s == Some("discard"@) { StoreOp::Discard } else { StoreOp::Store }
}

/// Maps an attachment store op; only "discard" discards.
pub fn map_store_op(s: Option<&str>) -> (r: StoreOp)
    ensures
        r == store_op_spec(opt_view(s)),
{
    match s {
        Some(v) => if str_eq(v, "discard") { StoreOp::Discard } else { StoreOp::Store },
        None => StoreOp::Store,
    }
}

/// The WebGPU name of each store op.
pub open spec fn store_op_name(v: StoreOp) -> Seq<char> {
    match v {
        StoreOp::Store => "store"@,
        StoreOp::Discard => "discard"@,
    }
}

/// Every store op is read by its name: `map_store_op` given the name of any store op
/// gives the store op of that name, and with no name at all "store".
pub proof fn lemma_store_op_names(v: StoreOp)
    ensures
        store_op_name(store_op_spec(Some(store_op_name(v)))) == store_op_name(v),
        store_op_spec(None) == StoreOp::Store,
{
}

/// An attachment load op is "load" (keep the contents) only when asked for by name.
pub open spec fn loads_spec(s: Option<Seq<char>>) -> bool {
    s == Some("load"@)
}

/// Whether an attachment load op string asks to keep the previous contents.
pub fn is_load_op(s: Option<&str>) -> (r: bool)
    ensures
        r == loads_spec(opt_view(s)),
{
    match s {
        Some(v) => str_eq(v, "load"),
        None => false,
    }
}

#[derive(Clone, Copy, Debug, PartialEq, Eq, Structural)]
pub enum QueryType {
    Timestamp,
    Occlusion,
}

/// A query set as a script describes it.
#[derive(Clone, Debug)]
pub struct QuerySetCreateDesc {
    pub query_type: String,
    pub count: u32,
}

/// The type of a query set; anything but "timestamp" and "occlusion" is refused.
pub fn query_set_type(d: &QuerySetCreateDesc) -> (r: Result<QueryType, GfxError>)
    ensures
        d.query_type@ == "timestamp"@ ==> r == Ok::<QueryType, GfxError>(QueryType::Timestamp),
        d.query_type@ != "timestamp"@ && d.query_type@ == "occlusion"@
            ==> r == Ok::<QueryType, GfxError>(QueryType::Occlusion),
        d.query_type@ != "timestamp"@ && d.query_type@ != "occlusion"@
            ==> (r matches Err(GfxError::UnknownQueryType(m)) && m@ == d.query_type@),
{
    let s = d.query_type.as_str();
    if str_eq(s, "timestamp") { Ok(QueryType::Timestamp) }
    else if str_eq(s, "occlusion") { Ok(QueryType::Occlusion) }
    else { Err(GfxError::UnknownQueryType(d.query_type.clone())) }
}

/// The size of a mip level along one axis: the base size halved per level, at least one.
pub open spec fn mip_extent_spec(size: u32, level: u32) -> u32 {
    let shifted = (size >> level) as u32;
    if shifted == 0 { 1 } else { shifted }
}

/// The size of mip level `level` of an axis of `size` texels.
pub fn mip_extent(size: u32, level: u32) -> (r: u32)
    requires
        level < 32,
    ensures
        r == mip_extent_spec(size, level),
        r >= 1,
{
    let shifted = size >> level;
    if shifted == 0 { 1 } else { shifted }
}

/// The WebGPU name of each texture format (empty for a format WebGPU has no name for).
pub open spec fn format_name(f: TextureFormat) -> Seq<char> {
    match f {
        TextureFormat::R8Unorm => "r8unorm"@,
        TextureFormat::R8Snorm => "r8snorm"@,
        TextureFormat::R8Uint => "r8uint"@,
        TextureFormat::R8Sint => "r8sint"@,
        TextureFormat::R16Uint => "r16uint"@,
        TextureFormat::R16Sint => "r16sint"@,
        TextureFormat::R16Unorm => "r16unorm"@,
        TextureFormat::R16Snorm => "r16snorm"@,
        TextureFormat::R16Float => "r16float"@,
        TextureFormat::Rg8Unorm => "rg8unorm"@,
        TextureFormat::Rg8Snorm => "rg8snorm"@,
        TextureFormat::Rg8Uint => "rg8uint"@,
        TextureFormat::Rg8Sint => "rg8sint"@,
        TextureFormat::R32Uint => "r32uint"@,
        TextureFormat::R32Sint => "r32sint"@,
        TextureFormat::R32Float => "r32float"@,
        TextureFormat::Rg16Uint => "rg16uint"@,
        TextureFormat::Rg16Sint => "rg16sint"@,
        TextureFormat::Rg16Unorm => "rg16unorm"@,
        TextureFormat::Rg16Snorm => "rg16snorm"@,
        TextureFormat::Rg16Float => "rg16float"@,
        TextureFormat::Rgba8Unorm => "rgba8unorm"@,
        TextureFormat::Rgba8UnormSrgb => "rgba8unorm-srgb"@,
        TextureFormat::Rgba8Snorm => "rgba8snorm"@,
        TextureFormat::Rgba8Uint => "rgba8uint"@,
        TextureFormat::Rgba8Sint => "rgba8sint"@,
        TextureFormat::Bgra8Unorm => "bgra8unorm"@,
        TextureFormat::Bgra8UnormSrgb => "bgra8unorm-srgb"@,
        TextureFormat::Rg32Uint => "rg32uint"@,
        TextureFormat::Rg32Sint => "rg32sint"@,
        TextureFormat::Rg32Float => "rg32float"@,
        TextureFormat::Rgba16Uint => "rgba16uint"@,
        TextureFormat::Rgba16Sint => "rgba16sint"@,
        TextureFormat::Rgba16Unorm => "rgba16unorm"@,
        TextureFormat::Rgba16Snorm => "rgba16snorm"@,
        TextureFormat::Rgba16Float => "rgba16float"@,
        TextureFormat::Rgba32Uint => "rgba32uint"@,
        TextureFormat::Rgba32Sint => "rgba32sint"@,
        TextureFormat::Rgba32Float => "rgba32float"@,
        TextureFormat::Depth16Unorm => "depth16unorm"@,
        TextureFormat::Depth24Plus => "depth24plus"@,
        TextureFormat::Depth24PlusStencil8 => "depth24plus-stencil8"@,
        TextureFormat::Depth32Float => "depth32float"@,
        TextureFormat::Depth32FloatStencil8 => "depth32float-stencil8"@,
        TextureFormat::Stencil8 => "stencil8"@,
        TextureFormat::Other => ""@,
    }
}

/// The format names that scripts may give for a texture, surface or pipeline target.
pub open spec fn known_format_name(s: Seq<char>) -> bool {
    s == "r8unorm"@
    || s == "r8snorm"@
    || s == "r8uint"@
    || s == "r8sint"@
    || s == "rgba8unorm"@
    || s == "rgba8unorm-srgb"@
    || s == "bgra8unorm"@
    || s == "bgra8unorm-srgb"@
    || s == "rgba16float"@
    || s == "rgba32float"@
    || s == "r16float"@
    || s == "r32float"@
    || s == "r32uint"@
    || s == "r32sint"@
    || s == "rg32uint"@
    || s == "rg32sint"@
    || s == "rg32float"@
    || s == "rgba32uint"@
    || s == "rgba32sint"@
    || s == "rgba8uint"@
    || s == "rgba8sint"@
    || s == "rgba16uint"@
    || s == "rgba16sint"@
    || s == "depth16unorm"@
    || s == "depth24plus"@
    || s == "depth24plus-stencil8"@
    || s == "depth32float"@
}

/// A format name is read by its meaning: every name scripts may give maps to
/// the format of that same name, and only a name outside that list falls back
/// to `rgba8unorm`.
pub proof fn lemma_format_names_map_to_their_format(s: Seq<char>)
    ensures
        known_format_name(s) ==> format_name(texture_format_spec(s)) == s,
        !known_format_name(s) ==> texture_format_spec(s) == TextureFormat::Rgba8Unorm,
{
}

/// Of the formats scripts can name, exactly the two packed depth formats
/// (`depth24plus` and `depth24plus-stencil8`) refuse raw pixel writes;
/// every other name, known or not, gives a format with a texel size.
pub proof fn lemma_named_formats_writable(s: Seq<char>)
    ensures
        bytes_per_pixel_spec(texture_format_spec(s)) is None
            <==> (s == "depth24plus"@ || s == "depth24plus-stencil8"@),
        texture_format_spec(s) != TextureFormat::Other,
{
    reveal_strlit("r8unorm");
    reveal_strlit("r8snorm");
    reveal_strlit("r8uint");
    reveal_strlit("r8sint");
    reveal_strlit("rgba8unorm");
    reveal_strlit("rgba8unorm-srgb");
    reveal_strlit("bgra8unorm");
    reveal_strlit("bgra8unorm-srgb");
    reveal_strlit("rgba16float");
    reveal_strlit("rgba32float");
    reveal_strlit("r16float");
    reveal_strlit("r32float");
    reveal_strlit("r32uint");
    reveal_strlit("r32sint");
    reveal_strlit("rg32uint");
    reveal_strlit("rg32sint");
    reveal_strlit("rg32float");
    reveal_strlit("rgba32uint");
    reveal_strlit("rgba32sint");
    reveal_strlit("rgba8uint");
    reveal_strlit("rgba8sint");
    reveal_strlit("rgba16uint");
    reveal_strlit("rgba16sint");
    reveal_strlit("depth16unorm");
    reveal_strlit("depth24plus");
    reveal_strlit("depth24plus-stencil8");
    reveal_strlit("depth32float");
    assert("depth24plus"@.len() != "r8unorm"@.len());
    assert("depth24plus"@.len() != "r8snorm"@.len());
    assert("depth24plus"@.len() != "r8uint"@.len());
    assert("depth24plus"@.len() != "r8sint"@.len());
    assert("depth24plus"@.len() != "rgba8unorm"@.len());
    assert("depth24plus"@.len() != "rgba8unorm-srgb"@.len());
    assert("depth24plus"@.len() != "bgra8unorm"@.len());
    assert("depth24plus"@.len() != "bgra8unorm-srgb"@.len());
    assert("depth24plus"@[0] != "rgba16float"@[0]);
    assert("depth24plus"@[0] != "rgba32float"@[0]);
    assert("depth24plus"@.len() != "r16float"@.len());
    assert("depth24plus"@.len() != "r32float"@.len());
    assert("depth24plus"@.len() != "r32uint"@.len());
    assert("depth24plus"@.len() != "r32sint"@.len());
    assert("depth24plus"@.len() != "rg32uint"@.len());
    assert("depth24plus"@.len() != "rg32sint"@.len());
    assert("depth24plus"@.len() != "rg32float"@.len());
    assert("depth24plus"@.len() != "rgba32uint"@.len());
    assert("depth24plus"@.len() != "rgba32sint"@.len());
    assert("depth24plus"@.len() != "rgba8uint"@.len());
    assert("depth24plus"@.len() != "rgba8sint"@.len());
    assert("depth24plus"@.len() != "rgba16uint"@.len());
    assert("depth24plus"@.len() != "rgba16sint"@.len());
    assert("depth24plus"@.len() != "depth16unorm"@.len());
    assert("depth24plus-stencil8"@.len() != "r8unorm"@.len());
    assert("depth24plus-stencil8"@.len() != "r8snorm"@.len());
    assert("depth24plus-stencil8"@.len() != "r8uint"@.len());
    assert("depth24plus-stencil8"@.len() != "r8sint"@.len());
    assert("depth24plus-stencil8"@.len() != "rgba8unorm"@.len());
    assert("depth24plus-stencil8"@.len() != "rgba8unorm-srgb"@.len());
    assert("depth24plus-stencil8"@.len() != "bgra8unorm"@.len());
    assert("depth24plus-stencil8"@.len() != "bgra8unorm-srgb"@.len());
    assert("depth24plus-stencil8"@.len() != "rgba16float"@.len());
    assert("depth24plus-stencil8"@.len() != "rgba32float"@.len());
    assert("depth24plus-stencil8"@.len() != "r16float"@.len());
    assert("depth24plus-stencil8"@.len() != "r32float"@.len());
    assert("depth24plus-stencil8"@.len() != "r32uint"@.len());
    assert("depth24plus-stencil8"@.len() != "r32sint"@.len());
    assert("depth24plus-stencil8"@.len() != "rg32uint"@.len());
    assert("depth24plus-stencil8"@.len() != "rg32sint"@.len());
    assert("depth24plus-stencil8"@.len() != "rg32float"@.len());
    assert("depth24plus-stencil8"@.len() != "rgba32uint"@.len());
    assert("depth24plus-stencil8"@.len() != "rgba32sint"@.len());
    assert("depth24plus-stencil8"@.len() != "rgba8uint"@.len());
    assert("depth24plus-stencil8"@.len() != "rgba8sint"@.len());
    assert("depth24plus-stencil8"@.len() != "rgba16uint"@.len());
    assert("depth24plus-stencil8"@.len() != "rgba16sint"@.len());
    assert("depth24plus-stencil8"@.len() != "depth16unorm"@.len());
    assert("depth24plus-stencil8"@.len() != "depth24plus"@.len());
}

} // verus!
