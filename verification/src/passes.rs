//! Whole render passes: the window surface frame, XR eye passes,
//! render-to-texture, depth-only and standalone multi-draw passes.

use vstd::prelude::*;
use vstd::string::StringExecFns;
use crate::draw_plan::{DrawCall, DrawPath, PlannedDraw, DepthAttachmentPlan, LoadOp,
    DEPTH_CLEAR_ONE_BITS, depth_attachment_spec, color_load_spec, xr_stencil_spec,
    depth_only_clear_spec, draw_ranges_fit, planned_draw_ok, depth_attachment_plan,
    color_load_plan, xr_stencil_plan, depth_only_clear_bits, plan_draws, set_groups_spec,
    set_bind_groups};
use crate::compute_cmds::{BatchedComputeCommand, ComputeOp, TimestampWritesDesc,
    ResolveQuerySetDesc, CopyBufferDesc, known_command, missing_field_spec, op_matches, or_u64,
    inline_compute_op};
use crate::gfx_map::{StoreOp, IndexFormat, store_op_spec, index_format_spec, map_store_op,
    map_index_format};
use crate::text::{opt_str, opt_string_view};

verus! {

/// What acquiring the next surface texture gave.
#[derive(Clone, Copy, Debug, PartialEq, Eq, Structural)]
pub enum SurfaceAcquire {
    Ready { width: u32, height: u32 },
    Lost,
    Outdated,
    OutOfMemory,
    Timeout,
    OtherError,
}

/// What the host does with a frame.
#[derive(Clone, Copy, Debug, PartialEq, Eq, Structural)]
pub enum FrameAction {
    /// Encode and present the frame.
    Render,
    /// Drop the frame quietly.
    Skip,
    /// Report that the GPU ran out of memory.
    OutOfMemory,
}

/// A lost, outdated or timed-out surface, another surface error, or a
/// zero-sized texture skips the frame; only running out of memory is an error.
pub open spec fn surface_action_spec(a: SurfaceAcquire) -> FrameAction {
    match a {
        SurfaceAcquire::Ready { width, height } =>
            if width == 0 || height == 0 { FrameAction::Skip } else { FrameAction::Render },
        SurfaceAcquire::OutOfMemory => FrameAction::OutOfMemory,
        _ => FrameAction::Skip,
    }
}

/// Decides what to do with a frame once the surface texture has been asked for.
pub fn surface_frame_action(a: SurfaceAcquire) -> (r: FrameAction)
    ensures
        r == surface_action_spec(a),
{
    match a {
        SurfaceAcquire::Ready { width, height } =>
            if width == 0 || height == 0 { FrameAction::Skip } else { FrameAction::Render },
        SurfaceAcquire::OutOfMemory => FrameAction::OutOfMemory,
        _ => FrameAction::Skip,
    }
}

/// Every depth view named by a call has the surface's size.
pub open spec fn depth_views_fit_spec(sizes: Seq<(u32, u32)>, width: u32, height: u32) -> bool {
    forall|i: int| 0 <= i < sizes.len() ==> (#[trigger] sizes[i]).0 == width && sizes[i].1 == height
}

/// Whether every depth view (by its width and height) matches the surface;
/// a frame with a mismatching depth view is presented without drawing.
pub fn depth_views_fit(sizes: &Vec<(u32, u32)>, width: u32, height: u32) -> (r: bool)
    ensures
        r == depth_views_fit_spec(sizes@, width, height),
{
    let mut i: usize = 0;
    while i < sizes.len()
        invariant
            i <= sizes.len(),
            forall|k: int| 0 <= k < i ==> (#[trigger] sizes@[k]).0 == width && sizes@[k].1 == height,
        decreases sizes.len() - i,
    {
        if sizes[i].0 != width || sizes[i].1 != height {
            return false;
        }
        i = i + 1;
    }
    true
}

/// Why a surface frame fails.
#[derive(Clone, Copy, Debug, PartialEq, Eq, Structural)]
pub enum SurfaceFrameError {
    /// There is no window surface (the host runs in XR mode).
    NoSurface,
    /// Acquiring the surface texture ran out of GPU memory.
    OutOfMemory,
}

/// The text a failed surface frame is reported with.
pub open spec fn surface_error_message_spec(e: SurfaceFrameError) -> Seq<char> {
    match e {
        SurfaceFrameError::NoSurface => "No surface in XR mode"@,
        SurfaceFrameError::OutOfMemory => "GPU out of memory"@,
    }
}

impl SurfaceFrameError {
    /// The text a failed surface frame is reported with.
    pub fn message(&self) -> (r: String)
        ensures
            r@ == surface_error_message_spec(*self),
    {
        match self {
            SurfaceFrameError::NoSurface => String::from_str("No surface in XR mode"),
            SurfaceFrameError::OutOfMemory => String::from_str("GPU out of memory"),
        }
    }
}

/// What the host has found out about a surface frame so far: whether it
/// has draw calls, whether every resource they name resolves, whether a
/// window surface exists, what acquiring its texture gave (once asked)
/// and whether the depth views fit that texture (once compared).
#[derive(Clone, Copy, Debug, PartialEq, Eq, Structural)]
pub struct SurfaceFacts {
    pub has_calls: bool,
    pub resources_resolve: bool,
    pub has_surface: bool,
    pub acquired: Option<SurfaceAcquire>,
    pub depth_fits: Option<bool>,
}

/// The next thing the host does with a surface frame.
#[derive(Clone, Copy, Debug, PartialEq, Eq, Structural)]
pub enum SurfaceStep {
    /// Answer Ok; nothing more is acquired, submitted or presented, and
    /// the pending command buffers stay.
    Skip,
    /// Answer with the error; nothing is submitted or presented.
    Fail(SurfaceFrameError),
    /// Ask the surface for its next texture.
    Acquire,
    /// Compare the depth views with the acquired texture's size.
    CheckDepth,
    /// Present the acquired texture without submitting anything; the
    /// pending command buffers stay.
    PresentOnly,
    /// Encode the frame, submit the pending command buffers followed by
    /// it, and present.
    Render,
}

/// A frame without draw calls, or naming a resource that does not resolve,
/// is skipped whole before the surface is touched; without a surface it
/// fails; an unusable texture skips it and running out of memory fails
/// it; depth views that do not fit the texture present it undrawn.
pub open spec fn surface_step_spec(f: SurfaceFacts) -> SurfaceStep {
    if !f.has_calls || !f.resources_resolve {
        SurfaceStep::Skip
    } else if !f.has_surface {
        SurfaceStep::Fail(SurfaceFrameError::NoSurface)
    } else {
        match f.acquired {
            None => SurfaceStep::Acquire,
            Some(a) => match surface_action_spec(a) {
                FrameAction::Skip => SurfaceStep::Skip,
                FrameAction::OutOfMemory => SurfaceStep::Fail(SurfaceFrameError::OutOfMemory),
                FrameAction::Render => match f.depth_fits {
                    None => SurfaceStep::CheckDepth,
                    Some(false) => SurfaceStep::PresentOnly,
                    Some(true) => SurfaceStep::Render,
                },
            },
        }
    }
}

/// Decides the next step of a surface frame from what is known so far.
pub fn surface_step(f: &SurfaceFacts) -> (r: SurfaceStep)
    ensures
        r == surface_step_spec(*f),
{
    if !f.has_calls || !f.resources_resolve {
        return SurfaceStep::Skip;
    }
    if !f.has_surface {
        return SurfaceStep::Fail(SurfaceFrameError::NoSurface);
    }
    match f.acquired {
        None => SurfaceStep::Acquire,
        Some(a) => match surface_frame_action(a) {
            FrameAction::Skip => SurfaceStep::Skip,
            FrameAction::OutOfMemory => SurfaceStep::Fail(SurfaceFrameError::OutOfMemory),
            FrameAction::Render => match f.depth_fits {
                None => SurfaceStep::CheckDepth,
                Some(false) => SurfaceStep::PresentOnly,
                Some(true) => SurfaceStep::Render,
            },
        },
    }
}

/// Whether a pass records anything.
#[derive(Clone, Copy, Debug, PartialEq, Eq, Structural)]
pub enum PassStep {
    /// No draw calls: answer Ok with nothing looked up or queued.
    Nothing,
    /// Look the resources up, then record and queue one pass.
    Record,
}

/// An XR eye pass, a render-to-texture pass or a depth-only pass without
/// draw calls records nothing.
pub fn pass_step(calls: &Vec<DrawCall>) -> (r: PassStep)
    ensures
        r == (if calls@.len() == 0 { PassStep::Nothing } else { PassStep::Record }),
{
    if calls.len() == 0 { PassStep::Nothing } else { PassStep::Record }
}

/// A surface frame as a script submits it.
#[derive(Clone, Debug)]
pub struct SurfaceDrawArgs {
    pub draw_calls: Vec<DrawCall>,
    pub compute_commands: Option<Vec<BatchedComputeCommand>>,
    pub timestamp_writes: Option<TimestampWritesDesc>,
    pub resolve_query_sets: Option<Vec<ResolveQuerySetDesc>>,
    pub copy_buffers: Option<Vec<CopyBufferDesc>>,
}

/// The encoding plan of a surface frame.
#[derive(Clone, Debug)]
pub struct SurfaceFramePlan {
    /// Compute work recorded before the render pass, one entry per
    /// embedded command; commands that cannot be read are left out (`None`).
    pub compute: Vec<Option<ComputeOp>>,
    pub depth: Option<DepthAttachmentPlan>,
    pub color_load: LoadOp<(u64, u64, u64, u64)>,
    pub draws: Vec<PlannedDraw>,
    /// (query set, index) written before any work.
    pub start_timestamp: Option<(u32, u32)>,
    /// (query set, index) written after all work.
    pub end_timestamp: Option<(u32, u32)>,
}

/// The inline reading of an embedded command.
pub open spec fn inline_ok(c: BatchedComputeCommand, r: Option<ComputeOp>) -> bool {
    &&& (!known_command(c.cmd@) || missing_field_spec(c) is Some ==> r is None)
    &&& (known_command(c.cmd@) && missing_field_spec(c) is None ==> (r matches Some(op)
        && op_matches(c, op, or_u64(c.size, 0))))
}

pub open spec fn start_stamp_spec(t: Option<TimestampWritesDesc>) -> Option<(u32, u32)> {
    match t {
        Some(w) => match w.beginning_of_pass_write_index {
            Some(i) => Some((w.query_set_rid, i)),
            None => None,
        },
        None => None,
    }
}

pub open spec fn end_stamp_spec(t: Option<TimestampWritesDesc>) -> Option<(u32, u32)> {
    match t {
        Some(w) => match w.end_of_pass_write_index {
            Some(i) => Some((w.query_set_rid, i)),
            None => None,
        },
        None => None,
    }
}

pub open spec fn surface_plan_ok(args: SurfaceDrawArgs, p: SurfaceFramePlan) -> bool {
    let cmds: Seq<BatchedComputeCommand> = match args.compute_commands {
        Some(v) => v@,
        None => seq![],
    };
    &&& p.compute@.len() == cmds.len()
    &&& forall|i: int| 0 <= i < cmds.len() ==> inline_ok(cmds[i], #[trigger] p.compute@[i])
    &&& p.depth == depth_attachment_spec(args.draw_calls@)
    &&& p.color_load == color_load_spec(args.draw_calls@)
    &&& p.draws@.len() == args.draw_calls@.len()
    &&& forall|i: int| 0 <= i < args.draw_calls@.len() ==> planned_draw_ok(args.draw_calls@[i],
        DrawPath::Surface, false, #[trigger] p.draws@[i])
    &&& p.start_timestamp == start_stamp_spec(args.timestamp_writes)
    &&& p.end_timestamp == end_stamp_spec(args.timestamp_writes)
}

/// Plans a surface frame: embedded compute work first, then one render pass
/// whose depth/stencil attachment comes from the first call with a depth
/// view and whose colour is cleared to the first call's clear colour if it
/// has one, else loaded.
pub fn plan_surface_frame(args: &SurfaceDrawArgs) -> (r: SurfaceFramePlan)
    requires
        forall|i: int| 0 <= i < args.draw_calls@.len() ==> draw_ranges_fit(
            #[trigger] args.draw_calls@[i], DrawPath::Surface),
    ensures
        surface_plan_ok(*args, r),
{
    let mut compute: Vec<Option<ComputeOp>> = Vec::new();
    match &args.compute_commands {
        Some(cmds) => {
            let mut i: usize = 0;
            while i < cmds.len()
                invariant
                    i <= cmds.len(),
                    compute@.len() == i,
                    forall|k: int| 0 <= k < i ==> inline_ok(cmds@[k], #[trigger] compute@[k]),
                decreases cmds.len() - i,
            {
                let op = inline_compute_op(&cmds[i]);
                compute.push(op);
                i = i + 1;
            }
        },
        None => {},
    }
    let (start_timestamp, end_timestamp) = match args.timestamp_writes {
        Some(w) => (
            match w.beginning_of_pass_write_index { Some(i) => Some((w.query_set_rid, i)), None => None },
            match w.end_of_pass_write_index { Some(i) => Some((w.query_set_rid, i)), None => None },
        ),
        None => (None, None),
    };
    SurfaceFramePlan {
        compute,
        depth: depth_attachment_plan(&args.draw_calls),
        color_load: color_load_plan(&args.draw_calls),
        draws: plan_draws(&args.draw_calls, DrawPath::Surface, false),
        start_timestamp,
        end_timestamp,
    }
}

/// An XR eye pass as a script submits it; `clear_color_bits` and
/// `depth_clear_bits` carry the bit patterns of the float values.
#[derive(Clone, Debug)]
pub struct RenderXrFrameArgs {
    pub msaa_view_rid: u32,
    pub resolve_view_rid: u32,
    pub draw_calls: Vec<DrawCall>,
    pub depth_view_rid: Option<u32>,
    pub depth_clear_bits: Option<u32>,
    pub depth_store_op: Option<String>,
    pub color_store_op: Option<String>,
    pub clear_color_bits: Option<(u64, u64, u64, u64)>,
}

/// The encoding plan of an XR eye pass.
#[derive(Clone, Debug)]
pub struct XrPassPlan {
    pub depth: Option<DepthAttachmentPlan>,
    pub color_load: LoadOp<(u64, u64, u64, u64)>,
    pub color_store: StoreOp,
    pub draws: Vec<PlannedDraw>,
}

pub open spec fn xr_plan_ok(args: RenderXrFrameArgs, p: XrPassPlan) -> bool {
    &&& p.depth == (match args.depth_view_rid {
        Some(v) => Some(DepthAttachmentPlan {
            view_rid: v,
            depth_load: LoadOp::Clear(match args.depth_clear_bits { Some(b) => b, None => DEPTH_CLEAR_ONE_BITS }),
            depth_store: store_op_spec(opt_string_view(args.depth_store_op)),
            stencil: xr_stencil_spec(args.draw_calls@),
        }),
        None => None,
    })
    &&& p.color_load == (match args.clear_color_bits {
        Some(c) => LoadOp::Clear(c),
        None => LoadOp::Load,
    })
    &&& p.color_store == store_op_spec(opt_string_view(args.color_store_op))
    &&& p.draws@.len() == args.draw_calls@.len()
    &&& forall|i: int| 0 <= i < args.draw_calls@.len() ==> planned_draw_ok(args.draw_calls@[i],
        DrawPath::Xr, false, #[trigger] p.draws@[i])
}

/// An XR eye pass uses the depth view it is given and always clears it, to
/// the given depth clear value or to 1.0 when none is given; its colour is
/// cleared to the given clear colour, else loaded, and discarded only when the
/// colour store op is "discard".
pub proof fn lemma_xr_pass_follows_args(args: RenderXrFrameArgs, p: XrPassPlan)
    requires
        xr_plan_ok(args, p),
    ensures
        p.depth is Some <==> args.depth_view_rid is Some,
        args.depth_view_rid is Some ==> p.depth->0.view_rid == args.depth_view_rid->0,
        args.depth_view_rid is Some && args.depth_clear_bits is Some
            ==> p.depth->0.depth_load == LoadOp::<u32>::Clear(args.depth_clear_bits->0),
        args.depth_view_rid is Some && args.depth_clear_bits is None
            ==> p.depth->0.depth_load == LoadOp::<u32>::Clear(0x3F80_0000u32),
        args.clear_color_bits is Some ==> p.color_load == LoadOp::Clear(args.clear_color_bits->0),
        args.clear_color_bits is None ==> p.color_load == LoadOp::<(u64, u64, u64, u64)>::Load,
        p.color_store == StoreOp::Discard <==> opt_string_view(args.color_store_op) == Some("discard"@),
{
}

/// Plans an XR eye pass: the depth attachment, when a depth view is given,
/// is always cleared (to the given value, else 1.0) and takes its stencil
/// operations from the first call that gives any.
pub fn plan_xr_pass(args: &RenderXrFrameArgs) -> (r: XrPassPlan)
    requires
        forall|i: int| 0 <= i < args.draw_calls@.len() ==> draw_ranges_fit(
            #[trigger] args.draw_calls@[i], DrawPath::Xr),
    ensures
        xr_plan_ok(*args, r),
{
    let depth = match args.depth_view_rid {
        Some(v) => Some(DepthAttachmentPlan {
            view_rid: v,
            depth_load: LoadOp::Clear(match args.depth_clear_bits { Some(b) => b, None => DEPTH_CLEAR_ONE_BITS }),
            depth_store: map_store_op(opt_str(&args.depth_store_op)),
            stencil: xr_stencil_plan(&args.draw_calls),
        }),
        None => None,
    };
    XrPassPlan {
        depth,
        color_load: match args.clear_color_bits {
            Some(c) => LoadOp::Clear(c),
            None => LoadOp::Load,
        },
        color_store: map_store_op(opt_str(&args.color_store_op)),
        draws: plan_draws(&args.draw_calls, DrawPath::Xr, false),
    }
}

/// The encoding plan of a render-to-texture pass; its colour is always stored.
#[derive(Clone, Debug)]
pub struct TexturePassPlan {
    pub depth: Option<DepthAttachmentPlan>,
    pub color_load: LoadOp<(u64, u64, u64, u64)>,
    pub draws: Vec<PlannedDraw>,
}

/// Plans a render-to-texture pass: direct draws with scissor rectangles.
pub fn plan_texture_pass(calls: &Vec<DrawCall>) -> (r: TexturePassPlan)
    requires
        forall|i: int| 0 <= i < calls@.len() ==> draw_ranges_fit(#[trigger] calls@[i], DrawPath::Direct),
    ensures
        r.depth == depth_attachment_spec(calls@),
        r.color_load == color_load_spec(calls@),
        r.draws@.len() == calls@.len(),
        forall|i: int| 0 <= i < calls@.len() ==> planned_draw_ok(calls@[i], DrawPath::Direct, true,
            #[trigger] r.draws@[i]),
{
    TexturePassPlan {
        depth: depth_attachment_plan(calls),
        color_load: color_load_plan(calls),
        draws: plan_draws(calls, DrawPath::Direct, true),
    }
}

/// The encoding plan of a depth-only pass: depth cleared and stored, no colour.
#[derive(Clone, Debug)]
pub struct DepthOnlyPlan {
    pub depth_clear_bits: u32,
    pub draws: Vec<PlannedDraw>,
}

/// Plans a depth-only pass; the clear value comes from the first call.
pub fn plan_depth_only_pass(calls: &Vec<DrawCall>) -> (r: DepthOnlyPlan)
    requires
        forall|i: int| 0 <= i < calls@.len() ==> draw_ranges_fit(#[trigger] calls@[i], DrawPath::Direct),
    ensures
        r.depth_clear_bits == depth_only_clear_spec(calls@),
        r.draws@.len() == calls@.len(),
        forall|i: int| 0 <= i < calls@.len() ==> planned_draw_ok(calls@[i], DrawPath::Direct, false,
            #[trigger] r.draws@[i]),
{
    DepthOnlyPlan {
        depth_clear_bits: depth_only_clear_bits(calls),
        draws: plan_draws(calls, DrawPath::Direct, false),
    }
}

/// A standalone multi-draw-indexed-indirect pass as a script submits it.
#[derive(Clone, Debug)]
pub struct MultiDrawIndexedIndirectArgs {
    pub depth_view_rid: Option<u32>,
    pub depth_clear_bits: Option<u32>,
    pub target_view_rid: Option<u32>,
    pub clear_color_bits: Option<(u64, u64, u64, u64)>,
    pub pipeline_rid: u32,
    pub vertex_buffer_rids: Vec<u32>,
    pub bind_group_rids: Vec<Option<u32>>,
    pub index_buffer_rid: u32,
    pub index_format: String,
    pub indirect_buffer_rid: u32,
    pub indirect_offset: u64,
    pub count: u32,
}

/// The encoding plan of a standalone multi-draw pass.
#[derive(Clone, Debug)]
pub struct MultiDrawPlan {
    /// Colour target and its load op; the colour is stored.
    pub color: Option<(u32, LoadOp<(u64, u64, u64, u64)>)>,
    /// Depth view and clear value; depth is cleared and stored, no stencil.
    pub depth: Option<(u32, u32)>,
    pub bind_groups: Vec<(u32, u32)>,
    pub index_format: IndexFormat,
}

/// Plans a standalone multi-draw-indexed-indirect pass.
pub fn plan_multi_draw(args: &MultiDrawIndexedIndirectArgs) -> (r: MultiDrawPlan)
    ensures
        r.color == (match args.target_view_rid {
            Some(t) => Some((t, match args.clear_color_bits {
                Some(c) => LoadOp::Clear(c),
                None => LoadOp::<(u64, u64, u64, u64)>::Load,
            })),
            None => None,
        }),
        r.depth == (match args.depth_view_rid {
            Some(d) => Some((d, match args.depth_clear_bits { Some(b) => b, None => DEPTH_CLEAR_ONE_BITS })),
            None => None,
        }),
        r.bind_groups@ == set_groups_spec(args.bind_group_rids@),
        r.index_format == index_format_spec(Some(args.index_format@)),
{
    MultiDrawPlan {
        color: match args.target_view_rid {
            Some(t) => Some((t, match args.clear_color_bits {
                Some(c) => LoadOp::Clear(c),
                None => LoadOp::Load,
            })),
            None => None,
        },
        depth: match args.depth_view_rid {
            Some(d) => Some((d, match args.depth_clear_bits { Some(b) => b, None => DEPTH_CLEAR_ONE_BITS })),
            None => None,
        },
        bind_groups: set_bind_groups(&args.bind_group_rids),
        index_format: map_index_format(Some(args.index_format.as_str())),
    }
}

} // verus!
