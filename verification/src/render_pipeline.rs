//! Reading of render pipeline descriptors.

use vstd::prelude::*;
use crate::gfx_map::{GfxError, TextureFormat, VertexFormat, VertexStepMode, PrimitiveTopology,
    IndexFormat, FrontFace, Face, CompareFunction, StencilOperation, vertex_format_spec,
    step_mode_spec, topology_spec, front_face_spec, cull_mode_spec, compare_function_spec,
    stencil_operation_spec, texture_format_spec, map_vertex_format, map_step_mode,
    map_primitive_topology, map_front_face, map_cull_mode, map_compare_function,
    map_stencil_operation, map_texture_format, format_name, known_format_name,
    lemma_format_names_map_to_their_format};
use crate::text::{opt_str, opt_string_view};

verus! {

broadcast use vstd::string::group_string_axioms;

/// One vertex attribute as a script describes it.
#[derive(Clone, Debug)]
pub struct VertexAttributeDesc {
    pub format: String,
    pub offset: u64,
    pub shader_location: u32,
}

/// One vertex buffer layout as a script describes it.
#[derive(Clone, Debug)]
pub struct VertexBufferLayoutDesc {
    pub array_stride: u64,
    pub step_mode: Option<String>,
    pub attributes: Vec<VertexAttributeDesc>,
}

/// A render pipeline as a script describes it. The two depth-bias floats
/// are carried as `f32` bit patterns.
#[derive(Clone, Debug)]
pub struct PipelineCreate {
    pub vertex_module_rid: u32,
    pub vertex_entry: String,
    pub fragment_module_rid: Option<u32>,
    pub fragment_entry: Option<String>,
    pub vertex_buffers: Vec<VertexBufferLayoutDesc>,
    pub pipeline_layout_rid: Option<u32>,
    pub primitive_topology: Option<String>,
    pub primitive_front_face: Option<String>,
    pub primitive_cull_mode: Option<String>,
    pub depth_format: Option<String>,
    pub depth_write_enabled: Option<bool>,
    pub depth_compare: Option<String>,
    pub depth_bias: Option<i32>,
    pub depth_bias_slope_scale_bits: Option<u32>,
    pub depth_bias_clamp_bits: Option<u32>,
    pub stencil_front_compare: Option<String>,
    pub stencil_front_pass_op: Option<String>,
    pub stencil_front_fail_op: Option<String>,
    pub stencil_front_depth_fail_op: Option<String>,
    pub stencil_back_compare: Option<String>,
    pub stencil_back_pass_op: Option<String>,
    pub stencil_back_fail_op: Option<String>,
    pub stencil_back_depth_fail_op: Option<String>,
    pub stencil_read_mask: Option<u32>,
    pub stencil_write_mask: Option<u32>,
    pub color_format: Option<String>,
    pub color_write_mask: Option<u32>,
    pub sample_count: Option<u32>,
    pub alpha_to_coverage_enabled: Option<bool>,
}

/// A vertex attribute ready to be used.
#[derive(Clone, Copy, Debug, PartialEq, Eq, Structural)]
pub struct VertexAttributePlan {
    pub format: VertexFormat,
    pub offset: u64,
    pub shader_location: u32,
}

/// A vertex buffer layout ready to be used.
#[derive(Clone, Debug)]
pub struct VertexBufferPlan {
    pub array_stride: u64,
    pub step_mode: VertexStepMode,
    pub attributes: Vec<VertexAttributePlan>,
}

/// Stencil test of one face.
#[derive(Clone, Copy, Debug, PartialEq, Eq, Structural)]
pub struct StencilFacePlan {
    pub compare: CompareFunction,
    pub pass_op: StencilOperation,
    pub fail_op: StencilOperation,
    pub depth_fail_op: StencilOperation,
}

/// Stencil state of a pipeline that tests stencil.
#[derive(Clone, Copy, Debug, PartialEq, Eq, Structural)]
pub struct StencilStatePlan {
    pub front: StencilFacePlan,
    pub back: StencilFacePlan,
    pub read_mask: u32,
    pub write_mask: u32,
}

/// Depth/stencil state of a pipeline. `stencil` is `None` when the pipeline
/// does not test stencil (the GPU's default stencil state).
#[derive(Clone, Copy, Debug, PartialEq, Eq, Structural)]
pub struct DepthStencilPlan {
    pub format: TextureFormat,
    pub depth_write_enabled: bool,
    pub depth_compare: CompareFunction,
    pub stencil: Option<StencilStatePlan>,
    pub bias_constant: i32,
    pub bias_slope_scale_bits: u32,
    pub bias_clamp_bits: u32,
}

/// Fragment stage of a pipeline: one colour target, alpha blended.
#[derive(Clone, Debug)]
pub struct FragmentPlan {
    pub module_rid: u32,
    pub entry_point: String,
    pub color_format: TextureFormat,
    pub write_mask: u32,
}

/// A render pipeline ready to be created.
#[derive(Clone, Debug)]
pub struct PipelinePlan {
    pub vertex_buffers: Vec<VertexBufferPlan>,
    pub topology: PrimitiveTopology,
    pub strip_index_format: Option<IndexFormat>,
    pub front_face: FrontFace,
    pub cull_mode: Option<Face>,
    pub depth_stencil: Option<DepthStencilPlan>,
    pub fragment: Option<FragmentPlan>,
    pub sample_count: u32,
    pub alpha_to_coverage_enabled: bool,
}

/// The first attribute format that names no vertex format.
pub open spec fn first_bad_attr(attrs: Seq<VertexAttributeDesc>) -> Option<Seq<char>>
    decreases attrs.len(),
{
    if attrs.len() == 0 {
        None
    } else if vertex_format_spec(attrs[0].format@) is None {
        Some(attrs[0].format@)
    } else {
        first_bad_attr(attrs.drop_first())
    }
}

/// The first unknown attribute format over all buffers, in order.
pub open spec fn first_bad_buffer(bufs: Seq<VertexBufferLayoutDesc>) -> Option<Seq<char>>
    decreases bufs.len(),
{
    if bufs.len() == 0 {
        None
    } else {
        match first_bad_attr(bufs[0].attributes@) {
            Some(f) => Some(f),
            None => first_bad_buffer(bufs.drop_first()),
        }
    }
}

pub open spec fn attr_ok(a: VertexAttributeDesc, p: VertexAttributePlan) -> bool {
    &&& vertex_format_spec(a.format@) == Some(p.format)
    &&& p.offset == a.offset
    &&& p.shader_location == a.shader_location
}

pub open spec fn buffer_ok(b: VertexBufferLayoutDesc, p: VertexBufferPlan) -> bool {
    &&& p.array_stride == b.array_stride
    &&& p.step_mode == step_mode_spec(opt_string_view(b.step_mode))
    &&& p.attributes@.len() == b.attributes@.len()
    &&& forall|i: int| 0 <= i < b.attributes@.len() ==> attr_ok(b.attributes@[i], #[trigger] p.attributes@[i])
}

fn plan_vertex_buffer(b: &VertexBufferLayoutDesc) -> (r: Result<VertexBufferPlan, GfxError>)
    ensures
        match first_bad_attr(b.attributes@) {
            Some(f) => r matches Err(GfxError::UnsupportedVertexFormat(m)) && m@ == f,
            None => r matches Ok(p) && buffer_ok(*b, p),
        },
{
    let mut attrs: Vec<VertexAttributePlan> = Vec::new();
    let mut i: usize = 0;
    assert(b.attributes@.subrange(0, b.attributes@.len() as int) =~= b.attributes@);
    while i < b.attributes.len()
        invariant
            i <= b.attributes.len(),
            attrs@.len() == i,
            first_bad_attr(b.attributes@) == first_bad_attr(
                b.attributes@.subrange(i as int, b.attributes@.len() as int)),
            forall|k: int| 0 <= k < i ==> attr_ok(b.attributes@[k], #[trigger] attrs@[k]),
        decreases b.attributes.len() - i,
    {
        let ghost rest = b.attributes@.subrange(i as int, b.attributes@.len() as int);
        assert(rest[0] == b.attributes@[i as int]);
        assert(rest.drop_first() =~= b.attributes@.subrange(i as int + 1, b.attributes@.len() as int));
        let a = &b.attributes[i];
        match map_vertex_format(a.format.as_str()) {
            Ok(f) => {
                attrs.push(VertexAttributePlan { format: f, offset: a.offset, shader_location: a.shader_location });
            },
            Err(e) => {
                return Err(e);
            },
        }
        i = i + 1;
    }
    Ok(VertexBufferPlan {
        array_stride: b.array_stride,
        step_mode: map_step_mode(opt_str(&b.step_mode)),
        attributes: attrs,
    })
}

/// Reads all vertex buffer layouts; the first attribute with an unknown
/// format refuses the pipeline.
pub fn plan_vertex_buffers(bufs: &Vec<VertexBufferLayoutDesc>) -> (r: Result<Vec<VertexBufferPlan>, GfxError>)
    ensures
        match first_bad_buffer(bufs@) {
            Some(f) => r matches Err(GfxError::UnsupportedVertexFormat(m)) && m@ == f,
            None => r matches Ok(v) && v@.len() == bufs@.len()
                && forall|i: int| 0 <= i < bufs@.len() ==> buffer_ok(bufs@[i], #[trigger] v@[i]),
        },
{
    let mut out: Vec<VertexBufferPlan> = Vec::new();
    let mut i: usize = 0;
    assert(bufs@.subrange(0, bufs@.len() as int) =~= bufs@);
    while i < bufs.len()
        invariant
            i <= bufs.len(),
            out@.len() == i,
            first_bad_buffer(bufs@) == first_bad_buffer(bufs@.subrange(i as int, bufs@.len() as int)),
            forall|k: int| 0 <= k < i ==> buffer_ok(bufs@[k], #[trigger] out@[k]),
        decreases bufs.len() - i,
    {
        let ghost rest = bufs@.subrange(i as int, bufs@.len() as int);
        assert(rest[0] == bufs@[i as int]);
        assert(rest.drop_first() =~= bufs@.subrange(i as int + 1, bufs@.len() as int));
        match plan_vertex_buffer(&bufs[i]) {
            Ok(p) => out.push(p),
            Err(e) => return Err(e),
        }
        i = i + 1;
    }
    Ok(out)
}

/// The colour write mask: the given bits (default all four channels) when
/// they name only channels, else all four channels.
pub open spec fn write_mask_spec(m: Option<u32>) -> u32 {
    let v = match m { Some(v) => v, None => 0xFu32 };
    if v & !0xFu32 == 0 { v } else { 0xFu32 }
}

/// The colour write mask names channels only: a given mask within the four
/// channel bits is kept as it is, any other mask and an absent one write all
/// four channels.
pub proof fn lemma_write_mask_channels(m: Option<u32>)
    ensures
        write_mask_spec(m) <= 0xFu32,
        m is Some && m->0 <= 0xFu32 ==> write_mask_spec(m) == m->0,
        m is Some && m->0 > 0xFu32 ==> write_mask_spec(m) == 0xFu32,
        m is None ==> write_mask_spec(m) == 0xFu32,
{
    let v: u32 = match m { Some(v) => v, None => 0xFu32 };
    assert(v & !0xFu32 == 0 <==> v <= 0xFu32) by (bit_vector);
}

/// Reads the colour write mask of a pipeline's colour target.
pub fn color_write_mask(m: Option<u32>) -> (r: u32)
    ensures
        r == write_mask_spec(m),
{
    let v = match m { Some(v) => v, None => 0xFu32 };
    if v & !0xFu32 == 0 { v } else { 0xFu32 }
}

pub open spec fn face_spec(compare: Option<String>, pass: Option<String>, fail: Option<String>,
    depth_fail: Option<String>) -> StencilFacePlan {
    StencilFacePlan {
        compare: compare_function_spec(opt_string_view(compare)),
        pass_op: stencil_operation_spec(opt_string_view(pass)),
        fail_op: stencil_operation_spec(opt_string_view(fail)),
        depth_fail_op: stencil_operation_spec(opt_string_view(depth_fail)),
    }
}

/// The depth/stencil state a descriptor asks for: present only with a
/// depth format; stencil is tested only when a face names a compare function.
pub open spec fn depth_stencil_spec(d: PipelineCreate) -> Option<DepthStencilPlan> {
    match d.depth_format {
        Some(f) => Some(DepthStencilPlan {
            format: texture_format_spec(f@),
            depth_write_enabled: match d.depth_write_enabled { Some(v) => v, None => true },
            depth_compare: compare_function_spec(opt_string_view(d.depth_compare)),
            stencil: if d.stencil_front_compare is Some || d.stencil_back_compare is Some {
                Some(StencilStatePlan {
                    front: face_spec(d.stencil_front_compare, d.stencil_front_pass_op,
                        d.stencil_front_fail_op, d.stencil_front_depth_fail_op),
                    back: face_spec(d.stencil_back_compare, d.stencil_back_pass_op,
                        d.stencil_back_fail_op, d.stencil_back_depth_fail_op),
                    read_mask: match d.stencil_read_mask { Some(v) => v, None => 0xFFu32 },
                    write_mask: match d.stencil_write_mask { Some(v) => v, None => 0xFFu32 },
                })
            } else {
                None
            },
            bias_constant: match d.depth_bias { Some(v) => v, None => 0i32 },
            bias_slope_scale_bits: match d.depth_bias_slope_scale_bits { Some(v) => v, None => 0u32 },
            bias_clamp_bits: match d.depth_bias_clamp_bits { Some(v) => v, None => 0u32 },
        }),
        None => None,
    }
}

/// A pipeline's depth/stencil state follows its descriptor: it is there
/// exactly when the descriptor names a depth format, in the format of that
/// name; depth writes are as the descriptor asks, and on only when it does
/// not say; the stencil state is there exactly when a face compare is given,
/// with the masks as given (all eight bits when absent); the depth bias is as
/// given (none when absent); the depth test is "less" unless another is
/// named, and each stencil face reads its own compare function and operations.
pub proof fn lemma_depth_state_follows_descriptor(d: PipelineCreate)
    ensures
        depth_stencil_spec(d) is Some <==> d.depth_format is Some,
        d.depth_format is Some && known_format_name(d.depth_format->0@)
            ==> format_name(depth_stencil_spec(d)->0.format) == d.depth_format->0@,
        d.depth_format is Some && d.depth_write_enabled is Some
            ==> depth_stencil_spec(d)->0.depth_write_enabled == d.depth_write_enabled->0,
        d.depth_format is Some && d.depth_write_enabled is None
            ==> depth_stencil_spec(d)->0.depth_write_enabled,
        d.depth_format is Some ==> (depth_stencil_spec(d)->0.stencil is Some
            <==> (d.stencil_front_compare is Some || d.stencil_back_compare is Some)),
        d.depth_format is Some && depth_stencil_spec(d)->0.stencil is Some ==> {
            let st = depth_stencil_spec(d)->0.stencil->0;
            &&& (d.stencil_read_mask is Some ==> st.read_mask == d.stencil_read_mask->0)
            &&& (d.stencil_read_mask is None ==> st.read_mask == 0xFFu32)
            &&& (d.stencil_write_mask is Some ==> st.write_mask == d.stencil_write_mask->0)
            &&& (d.stencil_write_mask is None ==> st.write_mask == 0xFFu32)
        },
        d.depth_format is Some && d.depth_bias is Some
            ==> depth_stencil_spec(d)->0.bias_constant == d.depth_bias->0,
        d.depth_format is Some && d.depth_bias is None
            ==> depth_stencil_spec(d)->0.bias_constant == 0i32,
        d.depth_format is Some && d.depth_compare is None
            ==> depth_stencil_spec(d)->0.depth_compare == CompareFunction::Less,
        d.depth_format is Some && depth_stencil_spec(d)->0.stencil is Some ==> {
            let st = depth_stencil_spec(d)->0.stencil->0;
            &&& st.front.compare == compare_function_spec(opt_string_view(d.stencil_front_compare))
            &&& st.front.pass_op == stencil_operation_spec(opt_string_view(d.stencil_front_pass_op))
            &&& st.front.fail_op == stencil_operation_spec(opt_string_view(d.stencil_front_fail_op))
            &&& st.front.depth_fail_op
                == stencil_operation_spec(opt_string_view(d.stencil_front_depth_fail_op))
            &&& st.back.compare == compare_function_spec(opt_string_view(d.stencil_back_compare))
            &&& st.back.pass_op == stencil_operation_spec(opt_string_view(d.stencil_back_pass_op))
            &&& st.back.fail_op == stencil_operation_spec(opt_string_view(d.stencil_back_fail_op))
            &&& st.back.depth_fail_op
                == stencil_operation_spec(opt_string_view(d.stencil_back_depth_fail_op))
        },
{
    if d.depth_format is Some {
        lemma_format_names_map_to_their_format(d.depth_format->0@);
    }
}

fn face(compare: &Option<String>, pass: &Option<String>, fail: &Option<String>,
    depth_fail: &Option<String>) -> (r: StencilFacePlan)
    ensures
        r == face_spec(*compare, *pass, *fail, *depth_fail),
{
    StencilFacePlan {
        compare: map_compare_function(opt_str(compare)),
        pass_op: map_stencil_operation(opt_str(pass)),
        fail_op: map_stencil_operation(opt_str(fail)),
        depth_fail_op: map_stencil_operation(opt_str(depth_fail)),
    }
}

fn depth_stencil(d: &PipelineCreate) -> (r: Option<DepthStencilPlan>)
    ensures
        r == depth_stencil_spec(*d),
{
    match &d.depth_format {
        Some(f) => {
            let stencil = if d.stencil_front_compare.is_some() || d.stencil_back_compare.is_some() {
                Some(StencilStatePlan {
                    front: face(&d.stencil_front_compare, &d.stencil_front_pass_op,
                        &d.stencil_front_fail_op, &d.stencil_front_depth_fail_op),
                    back: face(&d.stencil_back_compare, &d.stencil_back_pass_op,
                        &d.stencil_back_fail_op, &d.stencil_back_depth_fail_op),
                    read_mask: match d.stencil_read_mask { Some(v) => v, None => 0xFF },
                    write_mask: match d.stencil_write_mask { Some(v) => v, None => 0xFF },
                })
            } else {
                None
            };
            Some(DepthStencilPlan {
                format: map_texture_format(f.as_str()),
                depth_write_enabled: match d.depth_write_enabled { Some(v) => v, None => true },
                depth_compare: map_compare_function(opt_str(&d.depth_compare)),
                stencil,
                bias_constant: match d.depth_bias { Some(v) => v, None => 0 },
                bias_slope_scale_bits: match d.depth_bias_slope_scale_bits { Some(v) => v, None => 0 },
                bias_clamp_bits: match d.depth_bias_clamp_bits { Some(v) => v, None => 0 },
            })
        },
        None => None,
    }
}

/// Strip topologies restart strips on the 32-bit all-ones index.
pub open spec fn strip_index_spec(t: PrimitiveTopology) -> Option<IndexFormat> {
    if t == PrimitiveTopology::TriangleStrip || t == PrimitiveTopology::LineStrip {
        Some(IndexFormat::Uint32)
    } else {
        None
    }
}

/// Everything but the vertex buffers of a pipeline plan follows the descriptor.
pub open spec fn pipeline_plan_ok(d: PipelineCreate, surface_format: TextureFormat, p: PipelinePlan) -> bool {
    &&& p.vertex_buffers@.len() == d.vertex_buffers@.len()
    &&& forall|i: int| 0 <= i < d.vertex_buffers@.len() ==> buffer_ok(d.vertex_buffers@[i],
        #[trigger] p.vertex_buffers@[i])
    &&& p.topology == topology_spec(opt_string_view(d.primitive_topology))
    &&& p.strip_index_format == strip_index_spec(p.topology)
    &&& p.front_face == front_face_spec(opt_string_view(d.primitive_front_face))
    &&& p.cull_mode == cull_mode_spec(opt_string_view(d.primitive_cull_mode))
    &&& p.depth_stencil == depth_stencil_spec(d)
    &&& match d.fragment_module_rid {
        Some(m) => p.fragment matches Some(f) && f.module_rid == m
            && f.entry_point@ == (match d.fragment_entry { Some(e) => e@, None => "fs_main"@ })
            && f.color_format == (match d.color_format {
                Some(c) => texture_format_spec(c@),
                None => surface_format,
            })
            && f.write_mask == write_mask_spec(d.color_write_mask),
        None => p.fragment is None,
    }
    &&& p.sample_count == (match d.sample_count { Some(v) => v, None => 1u32 })
    &&& p.alpha_to_coverage_enabled == (match d.alpha_to_coverage_enabled { Some(v) => v, None => false })
}

/// A planned pipeline follows its descriptor where the descriptor is silent
/// too: the fragment stage is there exactly when a fragment module is given,
/// with entry point "fs_main" unless another is named and the surface's format
/// unless a colour format is named (a known name giving the format of that
/// name); one sample and no alpha-to-coverage unless asked; strips restart on
/// 32-bit indices and lists never restart.
pub proof fn lemma_pipeline_plan_follows_descriptor(d: PipelineCreate, surface_format: TextureFormat,
    p: PipelinePlan)
    requires
        pipeline_plan_ok(d, surface_format, p),
    ensures
        p.fragment is Some <==> d.fragment_module_rid is Some,
        d.fragment_module_rid is Some ==> p.fragment->0.module_rid == d.fragment_module_rid->0,
        d.fragment_module_rid is Some && d.fragment_entry is None
            ==> p.fragment->0.entry_point@ == "fs_main"@,
        d.fragment_module_rid is Some && d.fragment_entry is Some
            ==> p.fragment->0.entry_point@ == d.fragment_entry->0@,
        d.fragment_module_rid is Some && d.color_format is None
            ==> p.fragment->0.color_format == surface_format,
        d.fragment_module_rid is Some && d.color_format is Some
            && known_format_name(d.color_format->0@)
            ==> format_name(p.fragment->0.color_format) == d.color_format->0@,
        d.sample_count is Some ==> p.sample_count == d.sample_count->0,
        d.sample_count is None ==> p.sample_count == 1u32,
        p.alpha_to_coverage_enabled == (d.alpha_to_coverage_enabled == Some(true)),
        p.strip_index_format is Some <==> (p.topology == PrimitiveTopology::TriangleStrip
            || p.topology == PrimitiveTopology::LineStrip),
        p.strip_index_format is Some ==> p.strip_index_format->0 == IndexFormat::Uint32,
        p.depth_stencil == depth_stencil_spec(d),
{
    if d.color_format is Some {
        lemma_format_names_map_to_their_format(d.color_format->0@);
    }
}

/// Reads a render pipeline descriptor. Only an unknown vertex attribute
/// format refuses it; the colour format defaults to the surface format.
pub fn plan_pipeline(d: &PipelineCreate, surface_format: TextureFormat) -> (r: Result<PipelinePlan, GfxError>)
    ensures
        match first_bad_buffer(d.vertex_buffers@) {
            Some(f) => r matches Err(GfxError::UnsupportedVertexFormat(m)) && m@ == f,
            None => r matches Ok(p) && pipeline_plan_ok(*d, surface_format, p),
        },
{
    let vertex_buffers = match plan_vertex_buffers(&d.vertex_buffers) {
        Ok(v) => v,
        Err(e) => return Err(e),
    };
    let topology = map_primitive_topology(opt_str(&d.primitive_topology));
    let strip_index_format = match topology {
        PrimitiveTopology::TriangleStrip | PrimitiveTopology::LineStrip => Some(IndexFormat::Uint32),
        _ => None,
    };
    let fragment = match d.fragment_module_rid {
        Some(m) => {
            let entry_point = match &d.fragment_entry {
                Some(e) => e.clone(),
                None => crate::text::owned("fs_main"),
            };
            Some(FragmentPlan {
                module_rid: m,
                entry_point,
                color_format: match &d.color_format {
                    Some(c) => map_texture_format(c.as_str()),
                    None => surface_format,
                },
                write_mask: color_write_mask(d.color_write_mask),
            })
        },
        None => None,
    };
    Ok(PipelinePlan {
        vertex_buffers,
        topology,
        strip_index_format,
        front_face: map_front_face(opt_str(&d.primitive_front_face)),
        cull_mode: map_cull_mode(opt_str(&d.primitive_cull_mode)),
        depth_stencil: depth_stencil(d),
        fragment,
        sample_count: match d.sample_count { Some(v) => v, None => 1 },
        alpha_to_coverage_enabled: match d.alpha_to_coverage_enabled { Some(v) => v, None => false },
    })
}

} // verus!
