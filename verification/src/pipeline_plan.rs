//! Reading of the descriptors scripts pass to create render pipelines,
//! bind group layouts, bind groups, samplers and texture views.

use vstd::prelude::*;
use crate::gfx_map::{GfxError, TextureFormat, TextureDimension, texture_dimension_spec,
    map_texture_dimension, BufferBindingType, SamplerBindingType,
    TextureSampleType, TextureViewDimension, StorageTextureAccess, FilterMode, AddressMode,
    CompareFunction, buffer_binding_type_spec, sampler_type_spec, sample_type_spec,
    view_dimension_spec, storage_access_spec, texture_format_spec, filter_mode_spec,
    address_mode_spec, compare_function_spec, mip_extent_spec, map_buffer_binding_type,
    map_sampler_type, map_texture_sample_type, map_view_dimension, map_storage_access,
    map_texture_format, map_filter_mode, map_mipmap_filter_mode, map_address_mode,
    map_compare_function, mip_extent};
use crate::text::{opt_str, opt_string_view};

verus! {

broadcast use vstd::string::group_string_axioms;

// ----------------------------------------------------------------------------
// Bind group layouts
// ----------------------------------------------------------------------------

/// Buffer binding of a layout entry.
#[derive(Clone, Debug)]
pub struct BufferLayoutDesc {
    pub binding_type: Option<String>,
    pub has_dynamic_offset: Option<bool>,
    pub min_binding_size: Option<u64>,
}

/// Sampler binding of a layout entry.
#[derive(Clone, Debug)]
pub struct SamplerLayoutDesc {
    pub binding_type: Option<String>,
}

/// Sampled texture binding of a layout entry.
#[derive(Clone, Debug)]
pub struct TextureLayoutDesc {
    pub sample_type: Option<String>,
    pub view_dimension: Option<String>,
    pub multisampled: Option<bool>,
}

/// Storage texture binding of a layout entry.
#[derive(Clone, Debug)]
pub struct StorageTextureLayoutDesc {
    pub access: Option<String>,
    pub format: Option<String>,
    pub view_dimension: Option<String>,
}

/// One entry of a bind group layout as a script describes it.
#[derive(Clone, Debug)]
pub struct BindGroupLayoutEntryDesc {
    pub binding: u32,
    pub visibility: u32,
    pub buffer: Option<BufferLayoutDesc>,
    pub sampler: Option<SamplerLayoutDesc>,
    pub texture: Option<TextureLayoutDesc>,
    pub storage_texture: Option<StorageTextureLayoutDesc>,
}

/// The resource type a layout entry binds.
#[derive(Clone, Copy, Debug, PartialEq, Eq, Structural)]
pub enum BindingType {
    /// `min_binding_size` is `None` for "no minimum" (absent or zero).
    Buffer { ty: BufferBindingType, has_dynamic_offset: bool, min_binding_size: Option<u64> },
    Sampler(SamplerBindingType),
    Texture { sample_type: TextureSampleType, view_dimension: TextureViewDimension, multisampled: bool },
    StorageTexture { access: StorageTextureAccess, format: TextureFormat, view_dimension: TextureViewDimension },
}

/// A layout entry ready to be created.
#[derive(Clone, Copy, Debug, PartialEq, Eq, Structural)]
pub struct LayoutEntryPlan {
    pub binding: u32,
    pub visibility: u32,
    pub ty: BindingType,
}

pub open spec fn nonzero(o: Option<u64>) -> Option<u64> {
    match o {
        Some(v) => if v == 0 { None } else { Some(v) },
        None => None,
    }
}

pub open spec fn flag_or(o: Option<bool>, d: bool) -> bool {
    match o { Some(v) => v, None => d }
}

/// The binding an entry asks for: its buffer, else its sampler, else its
/// texture, else its storage texture (whose format defaults to rgba8unorm).
pub open spec fn binding_type_spec(e: BindGroupLayoutEntryDesc) -> Option<BindingType> {
    if e.buffer is Some {
        let b = e.buffer->0;
        Some(BindingType::Buffer {
            ty: buffer_binding_type_spec(opt_string_view(b.binding_type)),
            has_dynamic_offset: flag_or(b.has_dynamic_offset, false),
            min_binding_size: nonzero(b.min_binding_size),
        })
    } else if e.sampler is Some {
        Some(BindingType::Sampler(sampler_type_spec(opt_string_view(e.sampler->0.binding_type))))
    } else if e.texture is Some {
        let t = e.texture->0;
        Some(BindingType::Texture {
            sample_type: sample_type_spec(opt_string_view(t.sample_type)),
            view_dimension: view_dimension_spec(opt_string_view(t.view_dimension)),
            multisampled: flag_or(t.multisampled, false),
        })
    } else if e.storage_texture is Some {
        let s = e.storage_texture->0;
        Some(BindingType::StorageTexture {
            access: storage_access_spec(opt_string_view(s.access)),
            format: match s.format {
                Some(f) => texture_format_spec(f@),
                None => TextureFormat::Rgba8Unorm,
            },
            view_dimension: view_dimension_spec(opt_string_view(s.view_dimension)),
        })
    } else {
        None
    }
}

/// Reads a layout entry; an entry that binds nothing is refused.
pub fn plan_layout_entry(e: &BindGroupLayoutEntryDesc) -> (r: Result<LayoutEntryPlan, GfxError>)
    ensures
        match binding_type_spec(*e) {
            Some(t) => r == Ok::<LayoutEntryPlan, GfxError>(
                LayoutEntryPlan { binding: e.binding, visibility: e.visibility, ty: t }),
            None => r == Err::<LayoutEntryPlan, GfxError>(GfxError::InvalidBindGroupLayoutEntry),
        },
{
    let ty = if let Some(b) = &e.buffer {
        BindingType::Buffer {
            ty: map_buffer_binding_type(opt_str(&b.binding_type)),
            has_dynamic_offset: match b.has_dynamic_offset { Some(v) => v, None => false },
            min_binding_size: match b.min_binding_size {
                Some(v) => if v == 0 { None } else { Some(v) },
                None => None,
            },
        }
    } else if let Some(s) = &e.sampler {
        BindingType::Sampler(map_sampler_type(opt_str(&s.binding_type)))
    } else if let Some(t) = &e.texture {
        BindingType::Texture {
            sample_type: map_texture_sample_type(opt_str(&t.sample_type)),
            view_dimension: map_view_dimension(opt_str(&t.view_dimension)),
            multisampled: match t.multisampled { Some(v) => v, None => false },
        }
    } else if let Some(st) = &e.storage_texture {
        BindingType::StorageTexture {
            access: map_storage_access(opt_str(&st.access)),
            format: match &st.format {
                Some(f) => map_texture_format(f.as_str()),
                None => TextureFormat::Rgba8Unorm,
            },
            view_dimension: map_view_dimension(opt_str(&st.view_dimension)),
        }
    } else {
        return Err(GfxError::InvalidBindGroupLayoutEntry);
    };
    Ok(LayoutEntryPlan { binding: e.binding, visibility: e.visibility, ty })
}

/// A bind group layout as a script describes it.
#[derive(Clone, Debug)]
pub struct BindGroupLayoutCreate {
    pub label: Option<String>,
    pub entries: Vec<BindGroupLayoutEntryDesc>,
}

/// Reads every entry of a layout, stopping at the first invalid one.
pub fn plan_bind_group_layout(d: &BindGroupLayoutCreate) -> (r: Result<Vec<LayoutEntryPlan>, GfxError>)
    ensures
        (forall|i: int| 0 <= i < d.entries@.len() ==> binding_type_spec(#[trigger] d.entries@[i]) is Some)
            <==> r is Ok,
        r matches Ok(v) ==> v@.len() == d.entries@.len() && forall|i: int| 0 <= i < d.entries@.len()
            ==> (#[trigger] v@[i]) == (LayoutEntryPlan { binding: d.entries@[i].binding,
                visibility: d.entries@[i].visibility, ty: binding_type_spec(d.entries@[i])->0 }),
        r is Err ==> r == Err::<Vec<LayoutEntryPlan>, GfxError>(GfxError::InvalidBindGroupLayoutEntry),
{
    let entries = &d.entries;
    let mut out: Vec<LayoutEntryPlan> = Vec::new();
    let mut i: usize = 0;
    while i < entries.len()
        invariant
            entries == &d.entries,
            i <= entries.len(),
            out@.len() == i,
            forall|k: int| 0 <= k < i ==> binding_type_spec(#[trigger] entries@[k]) is Some,
            forall|k: int| 0 <= k < i ==> (#[trigger] out@[k]) == (LayoutEntryPlan {
                binding: entries@[k].binding, visibility: entries@[k].visibility,
                ty: binding_type_spec(entries@[k])->0 }),
        decreases entries.len() - i,
    {
        match plan_layout_entry(&entries[i]) {
            Ok(p) => out.push(p),
            Err(e) => return Err(e),
        }
        i = i + 1;
    }
    Ok(out)
}

// ----------------------------------------------------------------------------
// Bind groups
// ----------------------------------------------------------------------------

/// One entry of a bind group as a script describes it.
#[derive(Clone, Copy, Debug, PartialEq, Eq, Structural)]
pub struct BindGroupEntryDesc {
    pub binding: u32,
    pub buffer_rid: Option<u32>,
    pub offset: u64,
    pub size: Option<u64>,
    pub sampler_rid: Option<u32>,
    pub texture_view_rid: Option<u32>,
}

/// The resource bound by a bind group entry.
#[derive(Clone, Copy, Debug, PartialEq, Eq, Structural)]
pub enum BindingResource {
    /// `size` is `None` for "to the end of the buffer" (absent or zero).
    Buffer { rid: u32, offset: u64, size: Option<u64> },
    Sampler { rid: u32 },
    TextureView { rid: u32 },
}

/// The resource an entry binds: its buffer, else its sampler, else its texture view.
pub open spec fn binding_resource_spec(e: BindGroupEntryDesc) -> Option<BindingResource> {
    match e.buffer_rid {
        Some(b) => Some(BindingResource::Buffer { rid: b, offset: e.offset, size: nonzero(e.size) }),
        None => match e.sampler_rid {
            Some(s) => Some(BindingResource::Sampler { rid: s }),
            None => match e.texture_view_rid {
                Some(v) => Some(BindingResource::TextureView { rid: v }),
                None => None,
            },
        },
    }
}

/// Reads a bind group entry; an entry without any resource is refused.
pub fn plan_bind_group_entry(e: &BindGroupEntryDesc) -> (r: Result<(u32, BindingResource), GfxError>)
    ensures
        match binding_resource_spec(*e) {
            Some(b) => r == Ok::<(u32, BindingResource), GfxError>((e.binding, b)),
            None => r == Err::<(u32, BindingResource), GfxError>(GfxError::BindGroupEntryMissingResource),
        },
{
    match e.buffer_rid {
        Some(b) => Ok((e.binding, BindingResource::Buffer {
            rid: b,
            offset: e.offset,
            size: match e.size { Some(v) => if v == 0 { None } else { Some(v) }, None => None },
        })),
        None => match e.sampler_rid {
            Some(s) => Ok((e.binding, BindingResource::Sampler { rid: s })),
            None => match e.texture_view_rid {
                Some(v) => Ok((e.binding, BindingResource::TextureView { rid: v })),
                None => Err(GfxError::BindGroupEntryMissingResource),
            },
        },
    }
}

/// A bind group as a script describes it.
#[derive(Clone, Debug)]
pub struct BindGroupCreate {
    pub label: Option<String>,
    pub layout_rid: u32,
    pub entries: Vec<BindGroupEntryDesc>,
}

/// Reads the entries of a bind group in order, up to the first one without
/// a resource: the bindings of the entries before it, and the error it is
/// refused with; no error when every entry binds a resource.
pub fn plan_bind_group(d: &BindGroupCreate) -> (r: (Vec<(u32, BindingResource)>, Option<GfxError>))
    ensures
        r.0@.len() <= d.entries@.len(),
        forall|i: int| 0 <= i < r.0@.len() ==> binding_resource_spec(#[trigger] d.entries@[i]) is Some,
        forall|i: int| 0 <= i < r.0@.len()
            ==> (#[trigger] r.0@[i]) == (d.entries@[i].binding, binding_resource_spec(d.entries@[i])->0),
        r.1 is None ==> r.0@.len() == d.entries@.len(),
        r.1 is Some ==> r.0@.len() < d.entries@.len()
            && binding_resource_spec(d.entries@[r.0@.len() as int]) is None
            && r.1 == Some(GfxError::BindGroupEntryMissingResource),
{
    let mut out: Vec<(u32, BindingResource)> = Vec::new();
    let mut i: usize = 0;
    while i < d.entries.len()
        invariant
            i <= d.entries@.len(),
            out@.len() == i,
            forall|k: int| 0 <= k < i ==> binding_resource_spec(#[trigger] d.entries@[k]) is Some,
            forall|k: int| 0 <= k < i
                ==> (#[trigger] out@[k]) == (d.entries@[k].binding, binding_resource_spec(d.entries@[k])->0),
        decreases d.entries@.len() - i,
    {
        match plan_bind_group_entry(&d.entries[i]) {
            Ok(b) => out.push(b),
            Err(e) => return (out, Some(e)),
        }
        i = i + 1;
    }
    (out, None)
}

// ----------------------------------------------------------------------------
// Samplers and texture views
// ----------------------------------------------------------------------------

/// A sampler as a script describes it.
#[derive(Clone, Debug)]
pub struct SamplerCreateDesc {
    pub label: Option<String>,
    pub mag_filter: Option<String>,
    pub min_filter: Option<String>,
    pub mipmap_filter: Option<String>,
    pub address_mode_u: Option<String>,
    pub address_mode_v: Option<String>,
    pub address_mode_w: Option<String>,
    pub compare: Option<String>,
}

/// A sampler ready to be created.
#[derive(Clone, Copy, Debug, PartialEq, Eq, Structural)]
pub struct SamplerPlan {
    pub mag_filter: FilterMode,
    pub min_filter: FilterMode,
    pub mipmap_filter: FilterMode,
    pub address_mode_u: AddressMode,
    pub address_mode_v: AddressMode,
    pub address_mode_w: AddressMode,
    /// A comparison sampler only when the script names a compare function.
    pub compare: Option<CompareFunction>,
}

/// Reads a sampler descriptor.
pub fn plan_sampler(d: &SamplerCreateDesc) -> (r: SamplerPlan)
    ensures
        r.mag_filter == filter_mode_spec(opt_string_view(d.mag_filter)),
        r.min_filter == filter_mode_spec(opt_string_view(d.min_filter)),
        r.mipmap_filter == filter_mode_spec(opt_string_view(d.mipmap_filter)),
        r.address_mode_u == address_mode_spec(opt_string_view(d.address_mode_u)),
        r.address_mode_v == address_mode_spec(opt_string_view(d.address_mode_v)),
        r.address_mode_w == address_mode_spec(opt_string_view(d.address_mode_w)),
        r.compare == (if d.compare is Some {
            Some(compare_function_spec(opt_string_view(d.compare)))
        } else {
            None
        }),
{
    SamplerPlan {
        mag_filter: map_filter_mode(opt_str(&d.mag_filter)),
        min_filter: map_filter_mode(opt_str(&d.min_filter)),
        mipmap_filter: map_mipmap_filter_mode(opt_str(&d.mipmap_filter)),
        address_mode_u: map_address_mode(opt_str(&d.address_mode_u)),
        address_mode_v: map_address_mode(opt_str(&d.address_mode_v)),
        address_mode_w: map_address_mode(opt_str(&d.address_mode_w)),
        compare: if d.compare.is_some() { Some(map_compare_function(opt_str(&d.compare))) } else { None },
    }
}

/// A texture view as a script describes it.
#[derive(Clone, Debug)]
pub struct TextureViewCreateDesc {
    pub texture_rid: u32,
    pub label: Option<String>,
    pub format: Option<String>,
    pub dimension: Option<String>,
    pub usage: Option<u32>,
    pub base_mip_level: Option<u32>,
    pub mip_level_count: Option<u32>,
    pub base_array_layer: Option<u32>,
    pub array_layer_count: Option<u32>,
}

/// A texture view ready to be created, with the size of its base mip level.
#[derive(Clone, Copy, Debug, PartialEq, Eq, Structural)]
pub struct TextureViewPlan {
    pub format: Option<TextureFormat>,
    pub dimension: Option<TextureViewDimension>,
    pub base_mip_level: u32,
    pub mip_level_count: Option<u32>,
    pub base_array_layer: u32,
    pub array_layer_count: Option<u32>,
    pub width: u32,
    pub height: u32,
}

/// Reads a texture view descriptor for a texture of the given size; the
/// view remembers the size of its base mip level.
pub fn plan_texture_view(d: &TextureViewCreateDesc, tex_width: u32, tex_height: u32) -> (r: TextureViewPlan)
    requires
        match d.base_mip_level { Some(m) => m < 32, None => true },
    ensures
        r.format == (match d.format { Some(f) => Some(texture_format_spec(f@)), None => None }),
        r.dimension == (match d.dimension {
            Some(v) => Some(view_dimension_spec(Some(v@))),
            None => None,
        }),
        r.base_mip_level == (match d.base_mip_level { Some(m) => m, None => 0u32 }),
        r.mip_level_count == d.mip_level_count,
        r.base_array_layer == (match d.base_array_layer { Some(m) => m, None => 0u32 }),
        r.array_layer_count == d.array_layer_count,
        r.width == mip_extent_spec(tex_width, r.base_mip_level),
        r.height == mip_extent_spec(tex_height, r.base_mip_level),
{
    let base = match d.base_mip_level { Some(m) => m, None => 0 };
    TextureViewPlan {
        format: match &d.format { Some(f) => Some(map_texture_format(f.as_str())), None => None },
        dimension: match &d.dimension { Some(v) => Some(map_view_dimension(Some(v.as_str()))), None => None },
        base_mip_level: base,
        mip_level_count: d.mip_level_count,
        base_array_layer: match d.base_array_layer { Some(m) => m, None => 0 },
        array_layer_count: d.array_layer_count,
        width: mip_extent(tex_width, base),
        height: mip_extent(tex_height, base),
    }
}

/// The size of a texture.
#[derive(Clone, Copy, Debug, PartialEq, Eq, Structural)]
pub struct TextureSizeDesc {
    pub width: u32,
    pub height: u32,
    pub depth_or_array_layers: u32,
}

/// A texture as a script describes it.
#[derive(Clone, Debug)]
pub struct TextureCreateDesc {
    pub label: Option<String>,
    pub size: TextureSizeDesc,
    pub mip_level_count: u32,
    pub sample_count: u32,
    pub dimension: String,
    pub format: String,
    pub usage: u32,
    pub view_formats: Vec<String>,
}

/// The formats and dimension a texture is created with.
#[derive(Clone, Debug)]
pub struct TextureCreatePlan {
    pub format: TextureFormat,
    pub view_formats: Vec<TextureFormat>,
    pub dimension: TextureDimension,
}

/// Reads the format strings and the dimension of a texture descriptor; the
/// size, mip and sample counts and usage are taken as given.
pub fn plan_texture_create(d: &TextureCreateDesc) -> (r: TextureCreatePlan)
    ensures
        r.format == texture_format_spec(d.format@),
        r.dimension == texture_dimension_spec(d.dimension@),
        r.view_formats@.len() == d.view_formats@.len(),
        forall|i: int| 0 <= i < d.view_formats@.len()
            ==> #[trigger] r.view_formats@[i] == texture_format_spec(d.view_formats@[i]@),
{
    let mut view_formats: Vec<TextureFormat> = Vec::new();
    let mut i: usize = 0;
    while i < d.view_formats.len()
        invariant
            i <= d.view_formats@.len(),
            view_formats@.len() == i,
            forall|k: int| 0 <= k < i
                ==> #[trigger] view_formats@[k] == texture_format_spec(d.view_formats@[k]@),
        decreases d.view_formats@.len() - i,
    {
        view_formats.push(map_texture_format(d.view_formats[i].as_str()));
        i = i + 1;
    }
    TextureCreatePlan {
        format: map_texture_format(d.format.as_str()),
        view_formats,
        dimension: map_texture_dimension(d.dimension.as_str()),
    }
}

} // verus!
