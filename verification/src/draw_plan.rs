//! Planning of render passes from the draw calls a script submits.
//!
//! A frame is a list of draw calls. Before anything is encoded the host
//! works out, from plain values alone, which resources each call touches,
//! how the depth/stencil and colour attachments are loaded and stored, and
//! which draw command each call turns into. Floating-point clear values are
//! carried as their IEEE-754 bit patterns and never computed with.

use vstd::prelude::*;
use crate::gfx_map::{IndexFormat, StoreOp, index_format_spec, store_op_spec, loads_spec,
    map_index_format, map_store_op, is_load_op};
use crate::text::{opt_str, opt_string_view};

verus! {

/// Bit pattern of the `f32` value 1.0, the default depth clear value.
pub const DEPTH_CLEAR_ONE_BITS: u32 = 0x3F80_0000u32;

/// One draw call as a script describes it. `clear_color_bits` holds the
/// bit patterns of the four `f64` channels (r, g, b, a) and
/// `depth_clear_bits` the bit pattern of the `f32` depth clear value.
#[derive(Clone, Debug)]
pub struct DrawCall {
    pub pipeline_rid: u32,
    pub vertex_buffer_rids: Vec<u32>,
    pub bind_group_rids: Vec<Option<u32>>,
    pub clear_color_bits: Option<(u64, u64, u64, u64)>,
    pub vertex_count: u32,
    pub instance_count: u32,
    pub first_vertex: u32,
    pub first_instance: u32,
    pub index_buffer_rid: Option<u32>,
    pub index_format: Option<String>,
    pub index_count: u32,
    pub first_index: u32,
    pub base_vertex: i32,
    pub depth_view_rid: Option<u32>,
    pub depth_clear_bits: Option<u32>,
    pub depth_load_op: Option<String>,
    pub depth_store_op: Option<String>,
    pub depth_read_only: Option<bool>,
    pub stencil_clear_value: Option<u32>,
    pub stencil_load_op: Option<String>,
    pub stencil_store_op: Option<String>,
    pub stencil_read_only: Option<bool>,
    pub stencil_reference: Option<u32>,
    pub is_multi_draw: Option<bool>,
    pub indirect_buffer_rid: Option<u32>,
    pub indirect_offset: Option<u64>,
    pub draw_count: Option<u32>,
    pub is_indirect: Option<bool>,
    pub scissor_rect: Option<[u32; 4]>,
}

/// The kinds of GPU resource a script refers to by id.
#[derive(Clone, Copy, Debug, PartialEq, Eq, Structural)]
pub enum ResourceKind {
    RenderPipeline,
    ComputePipeline,
    Buffer,
    BindGroup,
    Texture,
    TextureView,
    QuerySet,
}

/// A resource id together with the kind of resource it must name.
#[derive(Clone, Copy, Debug, PartialEq, Eq, Structural)]
pub struct ResourceRef {
    pub kind: ResourceKind,
    pub rid: u32,
}

/// How an attachment starts: with its previous contents or cleared to a value.
#[derive(Clone, Copy, Debug, PartialEq, Eq, Structural)]
pub enum LoadOp<T> {
    Load,
    Clear(T),
}

/// Depth/stencil attachment of a render pass.
#[derive(Clone, Copy, Debug, PartialEq, Eq, Structural)]
pub struct DepthAttachmentPlan {
    pub view_rid: u32,
    pub depth_load: LoadOp<u32>,
    pub depth_store: StoreOp,
    pub stencil: Option<StencilPlan>,
}

/// Stencil aspect operations of a depth/stencil attachment.
#[derive(Clone, Copy, Debug, PartialEq, Eq, Structural)]
pub struct StencilPlan {
    pub load: LoadOp<u32>,
    pub store: StoreOp,
}

/// The render paths that issue draw calls; they differ in which draws they take.
#[derive(Clone, Copy, Debug, PartialEq, Eq, Structural)]
pub enum DrawPath {
    /// The window surface pass.
    Surface,
    /// An XR eye pass.
    Xr,
    /// Render-to-texture and depth-only passes: direct draws only.
    Direct,
}

/// What a draw call turns into inside the pass. Ranges are half-open.
#[derive(Clone, Copy, Debug, PartialEq, Eq, Structural)]
pub enum DrawCommand {
    MultiDrawIndexedIndirect { index_format: IndexFormat, indirect_offset: u64, draw_count: u32 },
    /// Bind the index buffer and draw nothing.
    SetIndexBufferOnly { index_format: IndexFormat },
    DrawIndexedIndirect { index_format: IndexFormat, indirect_offset: u64 },
    DrawIndexed {
        index_format: IndexFormat,
        first_index: u32,
        end_index: u32,
        base_vertex: i32,
        first_instance: u32,
        end_instance: u32,
    },
    Draw { first_vertex: u32, end_vertex: u32, first_instance: u32, end_instance: u32 },
    Skip,
}

/// Everything a pass does for one draw call.
#[derive(Clone, Debug)]
pub struct PlannedDraw {
    pub pipeline_rid: u32,
    pub stencil_reference: u32,
    /// Vertex buffer bound at each slot, slot `i` taking element `i`.
    pub vertex_buffers: Vec<u32>,
    /// (group index, bind group id) for every group that is set.
    pub bind_groups: Vec<(u32, u32)>,
    pub index_buffer_rid: Option<u32>,
    pub indirect_buffer_rid: Option<u32>,
    pub scissor_rect: Option<[u32; 4]>,
    pub command: DrawCommand,
}

pub open spec fn opt_flag(b: Option<bool>) -> bool {
    match b {
        Some(v) => v,
        None => false,
    }
}

/// The call draws through an indirect buffer (multi-draw or single indirect).
pub open spec fn uses_indirect(dc: DrawCall) -> bool {
    opt_flag(dc.is_multi_draw) || opt_flag(dc.is_indirect)
}

/// The indirect buffer a call binds: only taken when it draws indirectly.
pub open spec fn indirect_buffer_spec(dc: DrawCall) -> Option<u32> {
    if uses_indirect(dc) { dc.indirect_buffer_rid } else { None }
}

/// Resources a call refers to, in the order the host looks them up:
/// pipeline, vertex buffers by slot, bind groups that are set, index
/// buffer, depth view, then the indirect buffer when drawing indirectly.
pub open spec fn draw_call_resources_spec(dc: DrawCall) -> Seq<ResourceRef> {
    seq![ResourceRef { kind: ResourceKind::RenderPipeline, rid: dc.pipeline_rid }]
        + dc.vertex_buffer_rids@.map_values(|r: u32| ResourceRef { kind: ResourceKind::Buffer, rid: r })
        + set_groups_spec(dc.bind_group_rids@).map_values(
            |p: (u32, u32)| ResourceRef { kind: ResourceKind::BindGroup, rid: p.1 })
        + opt_ref(ResourceKind::Buffer, dc.index_buffer_rid)
        + opt_ref(ResourceKind::TextureView, dc.depth_view_rid)
        + opt_ref(ResourceKind::Buffer, indirect_buffer_spec(dc))
}

/// An optional id as a list of zero or one references.
pub open spec fn opt_ref(kind: ResourceKind, rid: Option<u32>) -> Seq<ResourceRef> {
    match rid {
        Some(r) => seq![ResourceRef { kind, rid: r }],
        None => seq![],
    }
}

/// The bind groups that are set: (index, id) for every present entry, in order.
pub open spec fn set_groups_spec(s: Seq<Option<u32>>) -> Seq<(u32, u32)>
    decreases s.len(),
{
    if s.len() == 0 {
        seq![]
    } else {
        let prev = set_groups_spec(s.drop_last());
        match s.last() {
            Some(r) => prev.push(((s.len() - 1) as u32, r)),
            None => prev,
        }
    }
}

/// The (index, id) pairs of the bind groups that are set.
pub fn set_bind_groups(groups: &Vec<Option<u32>>) -> (r: Vec<(u32, u32)>)
    ensures
        r@ == set_groups_spec(groups@),
{
    let mut out: Vec<(u32, u32)> = Vec::new();
    let mut i: usize = 0;
    while i < groups.len()
        invariant
            i <= groups.len(),
            out@ == set_groups_spec(groups@.take(i as int)),
        decreases groups.len() - i,
    {
        assert(groups@.take(i as int + 1).drop_last() =~= groups@.take(i as int));
        match groups[i] {
            Some(r) => {
                out.push((i as u32, r));
            },
            None => {},
        }
        i = i + 1;
    }
    assert(groups@.take(groups.len() as int) =~= groups@);
    out
}

fn push_opt(out: &mut Vec<ResourceRef>, kind: ResourceKind, rid: Option<u32>)
    ensures
        final(out)@ == old(out)@ + opt_ref(kind, rid),
{
    match rid {
        Some(r) => {
            out.push(ResourceRef { kind, rid: r });
        },
        None => {},
    }
    assert(final(out)@ =~= old(out)@ + opt_ref(kind, rid));
}

/// The resources a draw call refers to, in the order the host looks them up.
pub fn draw_call_resources(dc: &DrawCall) -> (r: Vec<ResourceRef>)
    ensures
        r@ == draw_call_resources_spec(*dc),
{
    let mut out: Vec<ResourceRef> = Vec::new();
    out.push(ResourceRef { kind: ResourceKind::RenderPipeline, rid: dc.pipeline_rid });
    let ghost head = out@;
    let mut i: usize = 0;
    while i < dc.vertex_buffer_rids.len()
        invariant
            i <= dc.vertex_buffer_rids.len(),
            out@ == head + dc.vertex_buffer_rids@.take(i as int).map_values(
                |r: u32| ResourceRef { kind: ResourceKind::Buffer, rid: r }),
        decreases dc.vertex_buffer_rids.len() - i,
    {
        out.push(ResourceRef { kind: ResourceKind::Buffer, rid: dc.vertex_buffer_rids[i] });
        i = i + 1;
        assert(out@ =~= head + dc.vertex_buffer_rids@.take(i as int).map_values(
            |r: u32| ResourceRef { kind: ResourceKind::Buffer, rid: r }));
    }
    assert(dc.vertex_buffer_rids@.take(i as int) =~= dc.vertex_buffer_rids@);
    let groups = set_bind_groups(&dc.bind_group_rids);
    let ghost mid = out@;
    let mut j: usize = 0;
    while j < groups.len()
        invariant
            j <= groups.len(),
            out@ == mid + groups@.take(j as int).map_values(
                |p: (u32, u32)| ResourceRef { kind: ResourceKind::BindGroup, rid: p.1 }),
        decreases groups.len() - j,
    {
        out.push(ResourceRef { kind: ResourceKind::BindGroup, rid: groups[j].1 });
        j = j + 1;
        assert(out@ =~= mid + groups@.take(j as int).map_values(
            |p: (u32, u32)| ResourceRef { kind: ResourceKind::BindGroup, rid: p.1 }));
    }
    assert(groups@.take(j as int) =~= groups@);
    push_opt(&mut out, ResourceKind::Buffer, dc.index_buffer_rid);
    push_opt(&mut out, ResourceKind::TextureView, dc.depth_view_rid);
    let multi = match dc.is_multi_draw { Some(v) => v, None => false };
    let indirect = match dc.is_indirect { Some(v) => v, None => false };
    let ind = if multi || indirect { dc.indirect_buffer_rid } else { None };
    push_opt(&mut out, ResourceKind::Buffer, ind);
    assert(out@ =~= draw_call_resources_spec(*dc));
    out
}

/// The depth/stencil attachment a call asks for when it names a depth view.
pub open spec fn depth_plan_of(dc: DrawCall) -> DepthAttachmentPlan {
    DepthAttachmentPlan {
        view_rid: dc.depth_view_rid->0,
        depth_load: if loads_spec(opt_string_view(dc.depth_load_op)) {
            LoadOp::Load
        } else {
            LoadOp::Clear(match dc.depth_clear_bits { Some(b) => b, None => DEPTH_CLEAR_ONE_BITS })
        },
        depth_store: store_op_spec(opt_string_view(dc.depth_store_op)),
        stencil: stencil_plan_spec(dc),
    }
}

/// Stencil operations of a call: present only when it gives a stencil load or store op;
/// the stencil clear value defaults to 0.
pub open spec fn stencil_plan_spec(dc: DrawCall) -> Option<StencilPlan> {
    if dc.stencil_load_op is Some || dc.stencil_store_op is Some {
        Some(StencilPlan {
            load: if loads_spec(opt_string_view(dc.stencil_load_op)) {
                LoadOp::Load
            } else {
                LoadOp::Clear(match dc.stencil_clear_value { Some(v) => v, None => 0u32 })
            },
            store: store_op_spec(opt_string_view(dc.stencil_store_op)),
        })
    } else {
        None
    }
}

/// The depth/stencil attachment of a pass: taken from the first call that
/// names a depth view; none when no call does.
pub open spec fn depth_attachment_spec(calls: Seq<DrawCall>) -> Option<DepthAttachmentPlan>
    decreases calls.len(),
{
    if calls.len() == 0 {
        None
    } else if calls[0].depth_view_rid is Some {
        Some(depth_plan_of(calls[0]))
    } else {
        depth_attachment_spec(calls.drop_first())
    }
}

/// A call's stencil operations are there exactly when it gives a stencil load
/// or store op; the stencil is kept only when the load op is "load", and
/// otherwise cleared to the call's stencil clear value, or to 0 when it gives
/// none; it is discarded only when the store op is "discard".
pub proof fn lemma_stencil_ops_follow_call(dc: DrawCall)
    ensures
        stencil_plan_spec(dc) is Some <==> (dc.stencil_load_op is Some || dc.stencil_store_op is Some),
        stencil_plan_spec(dc) is Some && opt_string_view(dc.stencil_load_op) == Some("load"@)
            ==> stencil_plan_spec(dc)->0.load == LoadOp::<u32>::Load,
        stencil_plan_spec(dc) is Some && opt_string_view(dc.stencil_load_op) != Some("load"@)
            && dc.stencil_clear_value is Some
            ==> stencil_plan_spec(dc)->0.load == LoadOp::<u32>::Clear(dc.stencil_clear_value->0),
        stencil_plan_spec(dc) is Some && opt_string_view(dc.stencil_load_op) != Some("load"@)
            && dc.stencil_clear_value is None
            ==> stencil_plan_spec(dc)->0.load == LoadOp::<u32>::Clear(0u32),
        stencil_plan_spec(dc) is Some ==> (stencil_plan_spec(dc)->0.store == StoreOp::Discard
            <==> opt_string_view(dc.stencil_store_op) == Some("discard"@)),
{
}

/// The depth attachment of a pass comes from the first call that names a
/// depth view: it uses that view, keeps the old depth only when that call's
/// load op is "load", and otherwise clears to the call's own depth clear
/// value, or to 1.0 when the call gives none.
pub proof fn lemma_depth_attachment_from_first_view(calls: Seq<DrawCall>, i: int)
    requires
        0 <= i < calls.len(),
        calls[i].depth_view_rid is Some,
        forall|j: int| 0 <= j < i ==> (#[trigger] calls[j]).depth_view_rid is None,
    ensures
        depth_attachment_spec(calls) is Some,
        depth_attachment_spec(calls)->0.view_rid == calls[i].depth_view_rid->0,
        opt_string_view(calls[i].depth_load_op) == Some("load"@)
            ==> depth_attachment_spec(calls)->0.depth_load == LoadOp::<u32>::Load,
        opt_string_view(calls[i].depth_load_op) != Some("load"@) && calls[i].depth_clear_bits is Some
            ==> depth_attachment_spec(calls)->0.depth_load
                == LoadOp::<u32>::Clear(calls[i].depth_clear_bits->0),
        opt_string_view(calls[i].depth_load_op) != Some("load"@) && calls[i].depth_clear_bits is None
            ==> depth_attachment_spec(calls)->0.depth_load == LoadOp::<u32>::Clear(0x3F80_0000u32),
        depth_attachment_spec(calls)->0.depth_store
            == (if opt_string_view(calls[i].depth_store_op) == Some("discard"@) { StoreOp::Discard }
                else { StoreOp::Store }),
        depth_attachment_spec(calls)->0.stencil == stencil_plan_spec(calls[i]),
    decreases i,
{
    if i > 0 {
        assert(calls[0].depth_view_rid is None);
        let rest = calls.drop_first();
        assert forall|j: int| 0 <= j < i - 1 implies (#[trigger] rest[j]).depth_view_rid is None by {
            assert(rest[j] == calls[j + 1]);
        }
        assert(rest[i - 1] == calls[i]);
        lemma_depth_attachment_from_first_view(rest, i - 1);
    }
}

fn stencil_plan(dc: &DrawCall) -> (r: Option<StencilPlan>)
    ensures
        r == stencil_plan_spec(*dc),
{
    if dc.stencil_load_op.is_some() || dc.stencil_store_op.is_some() {
        let load = if is_load_op(opt_str(&dc.stencil_load_op)) {
            LoadOp::Load
        } else {
            LoadOp::Clear(match dc.stencil_clear_value { Some(v) => v, None => 0u32 })
        };
        Some(StencilPlan { load, store: map_store_op(opt_str(&dc.stencil_store_op)) })
    } else {
        None
    }
}

fn depth_plan(dc: &DrawCall) -> (r: DepthAttachmentPlan)
    requires
        dc.depth_view_rid is Some,
    ensures
        r == depth_plan_of(*dc),
{
    let view_rid = match dc.depth_view_rid { Some(v) => v, None => 0 };
    let depth_load = if is_load_op(opt_str(&dc.depth_load_op)) {
        LoadOp::Load
    } else {
        LoadOp::Clear(match dc.depth_clear_bits { Some(b) => b, None => DEPTH_CLEAR_ONE_BITS })
    };
    DepthAttachmentPlan {
        view_rid,
        depth_load,
        depth_store: map_store_op(opt_str(&dc.depth_store_op)),
        stencil: stencil_plan(dc),
    }
}

/// The depth/stencil attachment of a surface or render-to-texture pass.
pub fn depth_attachment_plan(calls: &Vec<DrawCall>) -> (r: Option<DepthAttachmentPlan>)
    ensures
        r == depth_attachment_spec(calls@),
{
    let mut i: usize = 0;
    assert(calls@.subrange(0, calls@.len() as int) =~= calls@);
    while i < calls.len()
        invariant
            i <= calls.len(),
            depth_attachment_spec(calls@) == depth_attachment_spec(calls@.subrange(i as int, calls@.len() as int)),
        decreases calls.len() - i,
    {
        let ghost rest = calls@.subrange(i as int, calls@.len() as int);
        assert(rest[0] == calls@[i as int]);
        if calls[i].depth_view_rid.is_some() {
            return Some(depth_plan(&calls[i]));
        }
        assert(rest.drop_first() =~= calls@.subrange(i as int + 1, calls@.len() as int));
        i = i + 1;
    }
    None
}

/// Stencil operations of an XR pass: from the first call that gives any.
pub open spec fn xr_stencil_spec(calls: Seq<DrawCall>) -> Option<StencilPlan>
    decreases calls.len(),
{
    if calls.len() == 0 {
        None
    } else if stencil_plan_spec(calls[0]) is Some {
        stencil_plan_spec(calls[0])
    } else {
        xr_stencil_spec(calls.drop_first())
    }
}

/// The stencil operations of an XR eye pass.
pub fn xr_stencil_plan(calls: &Vec<DrawCall>) -> (r: Option<StencilPlan>)
    ensures
        r == xr_stencil_spec(calls@),
{
    let mut i: usize = 0;
    assert(calls@.subrange(0, calls@.len() as int) =~= calls@);
    while i < calls.len()
        invariant
            i <= calls.len(),
            xr_stencil_spec(calls@) == xr_stencil_spec(calls@.subrange(i as int, calls@.len() as int)),
        decreases calls.len() - i,
    {
        let ghost rest = calls@.subrange(i as int, calls@.len() as int);
        assert(rest[0] == calls@[i as int]);
        let s = stencil_plan(&calls[i]);
        if s.is_some() {
            return s;
        }
        assert(rest.drop_first() =~= calls@.subrange(i as int + 1, calls@.len() as int));
        i = i + 1;
    }
    None
}

/// The colour load op of a pass: cleared to the first call's clear colour if it has one.
pub open spec fn color_load_spec(calls: Seq<DrawCall>) -> LoadOp<(u64, u64, u64, u64)> {
    if calls.len() > 0 && calls[0].clear_color_bits is Some {
        LoadOp::Clear(calls[0].clear_color_bits->0)
    } else {
        LoadOp::Load
    }
}

/// The colour load op of a surface or render-to-texture pass.
pub fn color_load_plan(calls: &Vec<DrawCall>) -> (r: LoadOp<(u64, u64, u64, u64)>)
    ensures
        r == color_load_spec(calls@),
{
    if calls.len() > 0 {
        match calls[0].clear_color_bits {
            Some(c) => LoadOp::Clear(c),
            None => LoadOp::Load,
        }
    } else {
        LoadOp::Load
    }
}

/// The stencil operations of an XR eye pass are those of the first call that
/// gives a stencil load or store op.
pub proof fn lemma_xr_stencil_from_first_call(calls: Seq<DrawCall>, i: int)
    requires
        0 <= i < calls.len(),
        calls[i].stencil_load_op is Some || calls[i].stencil_store_op is Some,
        forall|j: int| 0 <= j < i ==> (#[trigger] calls[j]).stencil_load_op is None
            && calls[j].stencil_store_op is None,
    ensures
        xr_stencil_spec(calls) == stencil_plan_spec(calls[i]),
        xr_stencil_spec(calls) is Some,
    decreases i,
{
    if i > 0 {
        assert(calls[0].stencil_load_op is None);
        let rest = calls.drop_first();
        assert forall|j: int| 0 <= j < i - 1 implies (#[trigger] rest[j]).stencil_load_op is None
            && rest[j].stencil_store_op is None by {
            assert(rest[j] == calls[j + 1]);
        }
        assert(rest[i - 1] == calls[i]);
        lemma_xr_stencil_from_first_call(rest, i - 1);
    }
}

/// The first call decides how a pass starts: the colour is cleared to its
/// clear colour when it gives one and loaded otherwise (also when there is no
/// call), and a depth-only pass clears to its depth clear value, or to 1.0.
pub proof fn lemma_pass_clears_follow_first_call(calls: Seq<DrawCall>)
    ensures
        calls.len() > 0 && calls[0].clear_color_bits is Some
            ==> color_load_spec(calls) == LoadOp::Clear(calls[0].clear_color_bits->0),
        calls.len() == 0 || calls[0].clear_color_bits is None
            ==> color_load_spec(calls) == LoadOp::<(u64, u64, u64, u64)>::Load,
        calls.len() > 0 && calls[0].depth_clear_bits is Some
            ==> depth_only_clear_spec(calls) == calls[0].depth_clear_bits->0,
        calls.len() == 0 || calls[0].depth_clear_bits is None
            ==> depth_only_clear_spec(calls) == 0x3F80_0000u32,
{
}

/// The depth clear value of a depth-only pass: the first call's, else 1.0.
pub open spec fn depth_only_clear_spec(calls: Seq<DrawCall>) -> u32 {
    if calls.len() > 0 && calls[0].depth_clear_bits is Some {
        calls[0].depth_clear_bits->0
    } else {
        DEPTH_CLEAR_ONE_BITS
    }
}

/// The depth clear value (as `f32` bits) of a depth-only pass.
pub fn depth_only_clear_bits(calls: &Vec<DrawCall>) -> (r: u32)
    ensures
        r == depth_only_clear_spec(calls@),
{
    if calls.len() > 0 {
        match calls[0].depth_clear_bits {
            Some(b) => b,
            None => DEPTH_CLEAR_ONE_BITS,
        }
    } else {
        DEPTH_CLEAR_ONE_BITS
    }
}

/// A direct draw: indexed when the call has an index buffer, else plain;
/// nothing when there is nothing to draw.
pub open spec fn direct_command_spec(dc: DrawCall) -> DrawCommand {
    if dc.index_buffer_rid is Some {
        if dc.index_count > 0 {
            DrawCommand::DrawIndexed {
                index_format: index_format_spec(opt_string_view(dc.index_format)),
                first_index: dc.first_index,
                end_index: (dc.first_index + dc.index_count) as u32,
                base_vertex: dc.base_vertex,
                first_instance: dc.first_instance,
                end_instance: (dc.first_instance + dc.instance_count) as u32,
            }
        } else {
            DrawCommand::Skip
        }
    } else if dc.vertex_count > 0 && dc.instance_count > 0 {
        DrawCommand::Draw {
            first_vertex: dc.first_vertex,
            end_vertex: (dc.first_vertex + dc.vertex_count) as u32,
            first_instance: dc.first_instance,
            end_instance: (dc.first_instance + dc.instance_count) as u32,
        }
    } else {
        DrawCommand::Skip
    }
}

/// A direct draw covers exactly what the call asks for: with an index buffer
/// and a nonzero index count, the indices from `first_index` on, `index_count`
/// of them, offset by `base_vertex`; without one, `vertex_count` vertices from
/// `first_vertex` on; in both, `instance_count` instances from
/// `first_instance` on. An empty draw issues nothing.
pub proof fn lemma_direct_draw_covers_call(dc: DrawCall)
    requires
        draw_ranges_fit(dc, DrawPath::Direct),
    ensures
        dc.index_buffer_rid is Some && dc.index_count > 0 ==> (direct_command_spec(dc) matches
            DrawCommand::DrawIndexed { index_format, first_index, end_index, base_vertex,
                first_instance, end_instance }
            && first_index == dc.first_index && end_index - first_index == dc.index_count
            && base_vertex == dc.base_vertex && first_instance == dc.first_instance
            && end_instance - first_instance == dc.instance_count
            && (index_format == IndexFormat::Uint16
                <==> opt_string_view(dc.index_format) == Some("uint16"@))),
        dc.index_buffer_rid is None && dc.vertex_count > 0 && dc.instance_count > 0
            ==> (direct_command_spec(dc) matches DrawCommand::Draw { first_vertex, end_vertex,
                first_instance, end_instance }
            && first_vertex == dc.first_vertex && end_vertex - first_vertex == dc.vertex_count
            && first_instance == dc.first_instance
            && end_instance - first_instance == dc.instance_count),
        (dc.index_buffer_rid is Some && dc.index_count == 0) || (dc.index_buffer_rid is None
            && (dc.vertex_count == 0 || dc.instance_count == 0))
            ==> direct_command_spec(dc) == DrawCommand::Skip,
        draw_command_spec(dc, DrawPath::Direct) == direct_command_spec(dc),
{
}

/// The command a call turns into on a given path.
pub open spec fn draw_command_spec(dc: DrawCall, path: DrawPath) -> DrawCommand {
    let fmt = index_format_spec(opt_string_view(dc.index_format));
    let offset = match dc.indirect_offset { Some(o) => o, None => 0u64 };
    let has_index = dc.index_buffer_rid is Some;
    let has_indirect = indirect_buffer_spec(dc) is Some;
    if path != DrawPath::Direct && opt_flag(dc.is_multi_draw) {
        if has_index && has_indirect {
            DrawCommand::MultiDrawIndexedIndirect {
                index_format: fmt,
                indirect_offset: offset,
                draw_count: match dc.draw_count { Some(c) => c, None => 0u32 },
            }
        } else if path == DrawPath::Xr && has_index {
            DrawCommand::SetIndexBufferOnly { index_format: fmt }
        } else {
            DrawCommand::Skip
        }
    } else if path != DrawPath::Direct && opt_flag(dc.is_indirect) {
        if has_index && has_indirect {
            DrawCommand::DrawIndexedIndirect { index_format: fmt, indirect_offset: offset }
        } else {
            DrawCommand::Skip
        }
    } else {
        direct_command_spec(dc)
    }
}

/// The half-open ranges of the draw a call would issue stay within `u32`.
pub open spec fn draw_ranges_fit(dc: DrawCall, path: DrawPath) -> bool {
    let indirect_taken = path != DrawPath::Direct && (opt_flag(dc.is_multi_draw)
        || opt_flag(dc.is_indirect));
    indirect_taken || (if dc.index_buffer_rid is Some {
        dc.index_count > 0 ==> (dc.first_index + dc.index_count <= u32::MAX
            && dc.first_instance + dc.instance_count <= u32::MAX)
    } else {
        (dc.vertex_count > 0 && dc.instance_count > 0) ==> (dc.first_vertex + dc.vertex_count
            <= u32::MAX && dc.first_instance + dc.instance_count <= u32::MAX)
    })
}

/// The draw command a call turns into on the given path.
pub fn draw_command(dc: &DrawCall, path: DrawPath) -> (r: DrawCommand)
    requires
        draw_ranges_fit(*dc, path),
    ensures
        r == draw_command_spec(*dc, path),
{
    let fmt = map_index_format(opt_str(&dc.index_format));
    let offset = match dc.indirect_offset { Some(o) => o, None => 0u64 };
    let multi = match dc.is_multi_draw { Some(v) => v, None => false };
    let indirect = match dc.is_indirect { Some(v) => v, None => false };
    let has_index = dc.index_buffer_rid.is_some();
    let has_indirect = (multi || indirect) && dc.indirect_buffer_rid.is_some();
    let not_direct = match path { DrawPath::Direct => false, _ => true };
    let is_xr = match path { DrawPath::Xr => true, _ => false };
    if not_direct && multi {
        if has_index && has_indirect {
            DrawCommand::MultiDrawIndexedIndirect {
                index_format: fmt,
                indirect_offset: offset,
                draw_count: match dc.draw_count { Some(c) => c, None => 0u32 },
            }
        } else if is_xr && has_index {
            DrawCommand::SetIndexBufferOnly { index_format: fmt }
        } else {
            DrawCommand::Skip
        }
    } else if not_direct && indirect {
        if has_index && has_indirect {
            DrawCommand::DrawIndexedIndirect { index_format: fmt, indirect_offset: offset }
        } else {
            DrawCommand::Skip
        }
    } else if has_index {
        if dc.index_count > 0 {
            DrawCommand::DrawIndexed {
                index_format: fmt,
                first_index: dc.first_index,
                end_index: dc.first_index + dc.index_count,
                base_vertex: dc.base_vertex,
                first_instance: dc.first_instance,
                end_instance: dc.first_instance + dc.instance_count,
            }
        } else {
            DrawCommand::Skip
        }
    } else if dc.vertex_count > 0 && dc.instance_count > 0 {
        DrawCommand::Draw {
            first_vertex: dc.first_vertex,
            end_vertex: dc.first_vertex + dc.vertex_count,
            first_instance: dc.first_instance,
            end_instance: dc.first_instance + dc.instance_count,
        }
    } else {
        DrawCommand::Skip
    }
}

/// Everything a pass does for one draw call on the given path. Only the
/// render-to-texture path applies scissor rectangles; indirect buffers are
/// bound only by paths that draw indirectly.
pub open spec fn planned_draw_ok(dc: DrawCall, path: DrawPath, scissor: bool, p: PlannedDraw) -> bool {
    &&& p.pipeline_rid == dc.pipeline_rid
    &&& p.stencil_reference == (match dc.stencil_reference { Some(v) => v, None => 0u32 })
    &&& p.vertex_buffers@ == dc.vertex_buffer_rids@
    &&& p.bind_groups@ == set_groups_spec(dc.bind_group_rids@)
    &&& p.index_buffer_rid == dc.index_buffer_rid
    &&& p.indirect_buffer_rid == (if path == DrawPath::Direct { None } else { indirect_buffer_spec(dc) })
    &&& p.scissor_rect == (if scissor { dc.scissor_rect } else { None })
    &&& p.command == draw_command_spec(dc, path)
}

/// Plans one draw call; `scissor` says whether the pass applies scissor rectangles.
pub fn plan_draw(dc: &DrawCall, path: DrawPath, scissor: bool) -> (r: PlannedDraw)
    requires
        draw_ranges_fit(*dc, path),
    ensures
        planned_draw_ok(*dc, path, scissor, r),
{
    let multi = match dc.is_multi_draw { Some(v) => v, None => false };
    let indirect = match dc.is_indirect { Some(v) => v, None => false };
    let direct = match path { DrawPath::Direct => true, _ => false };
    PlannedDraw {
        pipeline_rid: dc.pipeline_rid,
        stencil_reference: match dc.stencil_reference { Some(v) => v, None => 0u32 },
        vertex_buffers: dc.vertex_buffer_rids.clone(),
        bind_groups: set_bind_groups(&dc.bind_group_rids),
        index_buffer_rid: dc.index_buffer_rid,
        indirect_buffer_rid: if !direct && (multi || indirect) { dc.indirect_buffer_rid } else { None },
        scissor_rect: if scissor { dc.scissor_rect } else { None },
        command: draw_command(dc, path),
    }
}

/// Plans every draw call of a pass, in order.
pub fn plan_draws(calls: &Vec<DrawCall>, path: DrawPath, scissor: bool) -> (r: Vec<PlannedDraw>)
    requires
        forall|i: int| 0 <= i < calls@.len() ==> draw_ranges_fit(#[trigger] calls@[i], path),
    ensures
        r@.len() == calls@.len(),
        forall|i: int| 0 <= i < calls@.len() ==> planned_draw_ok(calls@[i], path, scissor, #[trigger] r@[i]),
{
    let mut out: Vec<PlannedDraw> = Vec::new();
    let mut i: usize = 0;
    while i < calls.len()
        invariant
            i <= calls.len(),
            out@.len() == i,
            forall|k: int| 0 <= k < calls@.len() ==> draw_ranges_fit(#[trigger] calls@[k], path),
            forall|k: int| 0 <= k < i ==> planned_draw_ok(calls@[k], path, scissor, #[trigger] out@[k]),
        decreases calls.len() - i,
    {
        let p = plan_draw(&calls[i], path, scissor);
        out.push(p);
        i = i + 1;
    }
    out
}

/// Whether every call's draw ranges stay within `u32` on the given path, so
/// that the calls can be planned.
pub fn draws_fit(calls: &Vec<DrawCall>, path: DrawPath) -> (r: bool)
    ensures
        r == (forall|i: int| 0 <= i < calls@.len() ==> draw_ranges_fit(#[trigger] calls@[i], path)),
{
    let mut i: usize = 0;
    while i < calls.len()
        invariant
            i <= calls.len(),
            forall|k: int| 0 <= k < i ==> draw_ranges_fit(#[trigger] calls@[k], path),
        decreases calls.len() - i,
    {
        let dc = &calls[i];
        let multi = match dc.is_multi_draw { Some(v) => v, None => false };
        let indirect = match dc.is_indirect { Some(v) => v, None => false };
        let direct = match path { DrawPath::Direct => true, _ => false };
        let taken = !direct && (multi || indirect);
        if !taken {
            if dc.index_buffer_rid.is_some() {
                if dc.index_count > 0 && (dc.first_index as u64 + dc.index_count as u64 > u32::MAX as u64
                    || dc.first_instance as u64 + dc.instance_count as u64 > u32::MAX as u64) {
                    return false;
                }
            } else if dc.vertex_count > 0 && dc.instance_count > 0
                && (dc.first_vertex as u64 + dc.vertex_count as u64 > u32::MAX as u64
                    || dc.first_instance as u64 + dc.instance_count as u64 > u32::MAX as u64) {
                return false;
            }
        }
        i = i + 1;
    }
    true
}

} // verus!
