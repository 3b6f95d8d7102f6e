//! Batched GPU commands: compute dispatches, buffer clears and texture copies
//! recorded together into one command buffer.
//!
//! A standalone batch is strict: a command that lacks a field it needs, or
//! has an unknown name, refuses the whole batch. Commands embedded in a
//! surface frame are lenient: such a command is left out.

use vstd::prelude::*;
use vstd::string::StringExecFns;
use crate::draw_plan::{ResourceKind, ResourceRef, set_groups_spec, set_bind_groups};
use crate::text::str_eq;

verus! {

broadcast use vstd::string::group_string_axioms;

/// Timestamp writes attached to a compute pass.
#[derive(Clone, Copy, Debug, PartialEq, Eq, Structural)]
pub struct TimestampWritesDesc {
    pub query_set_rid: u32,
    pub beginning_of_pass_write_index: Option<u32>,
    pub end_of_pass_write_index: Option<u32>,
}

/// One batched command as a script describes it; `cmd` names the command
/// and selects which of the optional fields matter.
#[derive(Clone, Debug)]
pub struct BatchedComputeCommand {
    pub cmd: String,
    pub buffer_rid: Option<u32>,
    pub offset: Option<u64>,
    pub size: Option<u64>,
    pub pipeline_rid: Option<u32>,
    pub bind_group_rids: Option<Vec<Option<u32>>>,
    pub workgroup_count_x: Option<u32>,
    pub workgroup_count_y: Option<u32>,
    pub workgroup_count_z: Option<u32>,
    pub timestamp_writes: Option<TimestampWritesDesc>,
    pub indirect_buffer_rid: Option<u32>,
    pub indirect_offset: Option<u64>,
    pub src_buffer_rid: Option<u32>,
    pub buffer_offset: Option<u64>,
    pub bytes_per_row: Option<u32>,
    pub rows_per_image: Option<u32>,
    pub texture_rid: Option<u32>,
    pub mip_level: Option<u32>,
    pub origin_x: Option<u32>,
    pub origin_y: Option<u32>,
    pub origin_z: Option<u32>,
    pub width: Option<u32>,
    pub height: Option<u32>,
    pub depth_or_array_layers: Option<u32>,
    pub src_texture_rid: Option<u32>,
    pub src_mip_level: Option<u32>,
    pub src_origin_x: Option<u32>,
    pub src_origin_y: Option<u32>,
    pub src_origin_z: Option<u32>,
}

/// A texel position in a texture: mip level and origin.
#[derive(Clone, Copy, Debug, PartialEq, Eq, Structural)]
pub struct TexelTarget {
    pub mip_level: u32,
    pub x: u32,
    pub y: u32,
    pub z: u32,
}

/// The size of a copy.
#[derive(Clone, Copy, Debug, PartialEq, Eq, Structural)]
pub struct CopyExtent {
    pub width: u32,
    pub height: u32,
    pub depth_or_array_layers: u32,
}

/// A command ready to be encoded, with every default filled in.
#[derive(Clone, Debug)]
pub enum ComputeOp {
    ClearBuffer { buffer_rid: u32, offset: u64, size: u64 },
    Dispatch {
        pipeline_rid: u32,
        bind_groups: Vec<(u32, u32)>,
        x: u32,
        y: u32,
        z: u32,
        timestamps: Option<TimestampWritesDesc>,
    },
    DispatchIndirect {
        pipeline_rid: u32,
        indirect_buffer_rid: u32,
        indirect_offset: u64,
        bind_groups: Vec<(u32, u32)>,
        timestamps: Option<TimestampWritesDesc>,
    },
    CopyBufferToTexture {
        buffer_rid: u32,
        buffer_offset: u64,
        bytes_per_row: u32,
        rows_per_image: u32,
        texture_rid: u32,
        dst: TexelTarget,
        extent: CopyExtent,
    },
    CopyTextureToTexture {
        src_texture_rid: u32,
        dst_texture_rid: u32,
        src: TexelTarget,
        dst: TexelTarget,
        extent: CopyExtent,
    },
}

/// Why a strict batch is refused.
#[derive(Clone, Debug, PartialEq, Eq)]
pub enum BatchError {
    /// "clear_buffer" without `buffer_rid`.
    MissingBufferRid,
    /// "dispatch" without `pipeline_rid`.
    MissingPipelineRid,
    /// "dispatch_indirect" without `pipeline_rid`.
    MissingIndirectPipelineRid,
    /// "dispatch_indirect" without `indirect_buffer_rid`.
    MissingIndirectBufferRid,
    /// "copy_buffer_to_texture" without `src_buffer_rid`.
    MissingSrcBufferRid,
    /// "copy_buffer_to_texture" without `texture_rid`.
    MissingTextureRid,
    /// "copy_texture_to_texture" without `src_texture_rid`.
    MissingSrcTextureRid,
    /// "copy_texture_to_texture" without `texture_rid`.
    MissingDstTextureRid,
    /// A command name the host does not know.
    UnknownCommand(String),
}

/// The text a refused batch is answered with.
pub open spec fn batch_error_message_spec(e: BatchError) -> Seq<char> {
    match e {
        BatchError::MissingBufferRid => "clear_buffer: missing buffer_rid"@,
        BatchError::MissingPipelineRid => "dispatch: missing pipeline_rid"@,
        BatchError::MissingIndirectPipelineRid => "dispatch_indirect: missing pipeline_rid"@,
        BatchError::MissingIndirectBufferRid => "dispatch_indirect: missing indirect_buffer_rid"@,
        BatchError::MissingSrcBufferRid => "copy: missing src_buffer_rid"@,
        BatchError::MissingTextureRid => "copy: missing texture_rid"@,
        BatchError::MissingSrcTextureRid => "copy_t2t: missing src_texture_rid"@,
        BatchError::MissingDstTextureRid => "copy_t2t: missing texture_rid"@,
        BatchError::UnknownCommand(name) => "Unknown batch command: "@ + name@,
    }
}

impl BatchError {
    /// The text a refused batch is answered with.
    pub fn message(&self) -> (r: String)
        ensures
            r@ == batch_error_message_spec(*self),
    {
        match self {
            BatchError::MissingBufferRid => String::from_str("clear_buffer: missing buffer_rid"),
            BatchError::MissingPipelineRid => String::from_str("dispatch: missing pipeline_rid"),
            BatchError::MissingIndirectPipelineRid => String::from_str("dispatch_indirect: missing pipeline_rid"),
            BatchError::MissingIndirectBufferRid => String::from_str("dispatch_indirect: missing indirect_buffer_rid"),
            BatchError::MissingSrcBufferRid => String::from_str("copy: missing src_buffer_rid"),
            BatchError::MissingTextureRid => String::from_str("copy: missing texture_rid"),
            BatchError::MissingSrcTextureRid => String::from_str("copy_t2t: missing src_texture_rid"),
            BatchError::MissingDstTextureRid => String::from_str("copy_t2t: missing texture_rid"),
            BatchError::UnknownCommand(name) => {
                let mut m = String::from_str("Unknown batch command: ");
                m.append(name.as_str());
                m
            },
        }
    }
}

pub open spec fn or_u32(o: Option<u32>, d: u32) -> u32 {
    match o { Some(v) => v, None => d }
}

pub open spec fn or_u64(o: Option<u64>, d: u64) -> u64 {
    match o { Some(v) => v, None => d }
}

/// Bind groups a command sets: none when it gives no list.
pub open spec fn cmd_groups_spec(g: Option<Vec<Option<u32>>>) -> Seq<(u32, u32)> {
    match g {
        Some(v) => set_groups_spec(v@),
        None => seq![],
    }
}

pub open spec fn dst_target_spec(c: BatchedComputeCommand) -> TexelTarget {
    TexelTarget {
        mip_level: or_u32(c.mip_level, 0),
        x: or_u32(c.origin_x, 0),
        y: or_u32(c.origin_y, 0),
        z: or_u32(c.origin_z, 0),
    }
}

pub open spec fn src_target_spec(c: BatchedComputeCommand) -> TexelTarget {
    TexelTarget {
        mip_level: or_u32(c.src_mip_level, 0),
        x: or_u32(c.src_origin_x, 0),
        y: or_u32(c.src_origin_y, 0),
        z: or_u32(c.src_origin_z, 0),
    }
}

pub open spec fn extent_spec(c: BatchedComputeCommand) -> CopyExtent {
    CopyExtent {
        width: or_u32(c.width, 1),
        height: or_u32(c.height, 1),
        depth_or_array_layers: or_u32(c.depth_or_array_layers, 1),
    }
}

/// `op` is the encoded form of `c`, read with the defaults the host applies:
/// offsets 0, workgroup counts 1, 256 bytes per row, 1 row per image,
/// mip level and origins 0, copy size 1 x 1 x 1; `clear_size` is the size
/// of a buffer clear.
pub open spec fn op_matches(c: BatchedComputeCommand, op: ComputeOp, clear_size: u64) -> bool {
    match op {
        ComputeOp::ClearBuffer { buffer_rid, offset, size } =>
            c.cmd@ == "clear_buffer"@ && c.buffer_rid == Some(buffer_rid)
                && offset == or_u64(c.offset, 0) && size == clear_size,
        ComputeOp::Dispatch { pipeline_rid, bind_groups, x, y, z, timestamps } =>
            c.cmd@ == "dispatch"@ && c.pipeline_rid == Some(pipeline_rid)
                && bind_groups@ == cmd_groups_spec(c.bind_group_rids)
                && x == or_u32(c.workgroup_count_x, 1) && y == or_u32(c.workgroup_count_y, 1)
                && z == or_u32(c.workgroup_count_z, 1) && timestamps == c.timestamp_writes,
        ComputeOp::DispatchIndirect { pipeline_rid, indirect_buffer_rid, indirect_offset,
            bind_groups, timestamps } =>
            c.cmd@ == "dispatch_indirect"@ && c.pipeline_rid == Some(pipeline_rid)
                && c.indirect_buffer_rid == Some(indirect_buffer_rid)
                && indirect_offset == or_u64(c.indirect_offset, 0)
                && bind_groups@ == cmd_groups_spec(c.bind_group_rids)
                && timestamps == c.timestamp_writes,
        ComputeOp::CopyBufferToTexture { buffer_rid, buffer_offset, bytes_per_row,
            rows_per_image, texture_rid, dst, extent } =>
            c.cmd@ == "copy_buffer_to_texture"@ && c.src_buffer_rid == Some(buffer_rid)
                && c.texture_rid == Some(texture_rid)
                && buffer_offset == or_u64(c.buffer_offset, 0)
                && bytes_per_row == or_u32(c.bytes_per_row, 256)
                && rows_per_image == or_u32(c.rows_per_image, 1)
                && dst == dst_target_spec(c) && extent == extent_spec(c),
        ComputeOp::CopyTextureToTexture { src_texture_rid, dst_texture_rid, src, dst, extent } =>
            c.cmd@ == "copy_texture_to_texture"@ && c.src_texture_rid == Some(src_texture_rid)
                && c.texture_rid == Some(dst_texture_rid)
                && src == src_target_spec(c) && dst == dst_target_spec(c)
                && extent == extent_spec(c),
    }
}

/// The command names the host knows.
pub open spec fn known_command(name: Seq<char>) -> bool {
    name == "clear_buffer"@ || name == "dispatch"@ || name == "dispatch_indirect"@
        || name == "copy_buffer_to_texture"@ || name == "copy_texture_to_texture"@
}

/// The first field a known command lacks, checked in the host's order; none if complete.
pub open spec fn missing_field_spec(c: BatchedComputeCommand) -> Option<BatchError> {
    if c.cmd@ == "clear_buffer"@ {
        if c.buffer_rid is None { Some(BatchError::MissingBufferRid) } else { None }
    } else if c.cmd@ == "dispatch"@ {
        if c.pipeline_rid is None { Some(BatchError::MissingPipelineRid) } else { None }
    } else if c.cmd@ == "dispatch_indirect"@ {
        if c.pipeline_rid is None { Some(BatchError::MissingIndirectPipelineRid) }
        else if c.indirect_buffer_rid is None { Some(BatchError::MissingIndirectBufferRid) }
        else { None }
    } else if c.cmd@ == "copy_buffer_to_texture"@ {
        if c.src_buffer_rid is None { Some(BatchError::MissingSrcBufferRid) }
        else if c.texture_rid is None { Some(BatchError::MissingTextureRid) }
        else { None }
    } else {
        if c.src_texture_rid is None { Some(BatchError::MissingSrcTextureRid) }
        else if c.texture_rid is None { Some(BatchError::MissingDstTextureRid) }
        else { None }
    }
}

/// `v` is the value given, or `d` when none is given.
pub open spec fn given_or(o: Option<u32>, d: u32, v: u32) -> bool {
    (o is Some ==> v == o->0) && (o is None ==> v == d)
}

/// An encoded command takes each value the script gives and otherwise the
/// host's default: one workgroup on each axis, 256 bytes per row, one row
/// per image, mip level 0 at the origin, and a 1 x 1 x 1 copy.
pub proof fn lemma_op_defaults(c: BatchedComputeCommand, op: ComputeOp, clear_size: u64)
    requires
        op_matches(c, op, clear_size),
    ensures
        op matches ComputeOp::Dispatch { x, y, z, .. } ==> given_or(c.workgroup_count_x, 1, x)
            && given_or(c.workgroup_count_y, 1, y) && given_or(c.workgroup_count_z, 1, z),
        op matches ComputeOp::CopyBufferToTexture { bytes_per_row, rows_per_image, dst, extent, .. }
            ==> given_or(c.bytes_per_row, 256, bytes_per_row)
            && given_or(c.rows_per_image, 1, rows_per_image)
            && given_or(c.mip_level, 0, dst.mip_level) && given_or(c.origin_x, 0, dst.x)
            && given_or(c.origin_y, 0, dst.y) && given_or(c.origin_z, 0, dst.z)
            && given_or(c.width, 1, extent.width) && given_or(c.height, 1, extent.height)
            && given_or(c.depth_or_array_layers, 1, extent.depth_or_array_layers),
        op matches ComputeOp::CopyTextureToTexture { src, dst, extent, .. }
            ==> given_or(c.src_mip_level, 0, src.mip_level) && given_or(c.src_origin_x, 0, src.x)
            && given_or(c.src_origin_y, 0, src.y) && given_or(c.src_origin_z, 0, src.z)
            && given_or(c.mip_level, 0, dst.mip_level) && given_or(c.origin_x, 0, dst.x)
            && given_or(c.origin_y, 0, dst.y) && given_or(c.origin_z, 0, dst.z)
            && given_or(c.width, 1, extent.width) && given_or(c.height, 1, extent.height)
            && given_or(c.depth_or_array_layers, 1, extent.depth_or_array_layers),
{
}

/// The ids each known command needs: a buffer to clear; a pipeline to
/// dispatch, and an indirect buffer to dispatch indirectly; a source buffer or
/// texture and a destination texture to copy.
pub open spec fn has_required_ids(c: BatchedComputeCommand) -> bool {
    if c.cmd@ == "clear_buffer"@ {
        c.buffer_rid is Some
    } else if c.cmd@ == "dispatch"@ {
        c.pipeline_rid is Some
    } else if c.cmd@ == "dispatch_indirect"@ {
        c.pipeline_rid is Some && c.indirect_buffer_rid is Some
    } else if c.cmd@ == "copy_buffer_to_texture"@ {
        c.src_buffer_rid is Some && c.texture_rid is Some
    } else {
        c.src_texture_rid is Some && c.texture_rid is Some
    }
}

/// A known command is refused exactly when it lacks an id it needs, and the
/// error names an id that is missing.
pub proof fn lemma_refused_for_missing_ids(c: BatchedComputeCommand)
    requires
        known_command(c.cmd@),
    ensures
        missing_field_spec(c) is None <==> has_required_ids(c),
        missing_field_spec(c) == Some(BatchError::MissingBufferRid) ==> c.buffer_rid is None,
        missing_field_spec(c) == Some(BatchError::MissingPipelineRid)
            || missing_field_spec(c) == Some(BatchError::MissingIndirectPipelineRid)
            ==> c.pipeline_rid is None,
        missing_field_spec(c) == Some(BatchError::MissingIndirectBufferRid)
            ==> c.indirect_buffer_rid is None,
        missing_field_spec(c) == Some(BatchError::MissingSrcBufferRid) ==> c.src_buffer_rid is None,
        missing_field_spec(c) == Some(BatchError::MissingSrcTextureRid) ==> c.src_texture_rid is None,
        missing_field_spec(c) == Some(BatchError::MissingTextureRid)
            || missing_field_spec(c) == Some(BatchError::MissingDstTextureRid)
            ==> c.texture_rid is None,
{
}

fn cmd_groups(g: &Option<Vec<Option<u32>>>) -> (r: Vec<(u32, u32)>)
    ensures
        r@ == cmd_groups_spec(*g),
{
    match g {
        Some(v) => set_bind_groups(v),
        None => Vec::new(),
    }
}

fn dst_target(c: &BatchedComputeCommand) -> (r: TexelTarget)
    ensures
        r == dst_target_spec(*c),
{
    TexelTarget {
        mip_level: match c.mip_level { Some(v) => v, None => 0 },
        x: match c.origin_x { Some(v) => v, None => 0 },
        y: match c.origin_y { Some(v) => v, None => 0 },
        z: match c.origin_z { Some(v) => v, None => 0 },
    }
}

fn src_target(c: &BatchedComputeCommand) -> (r: TexelTarget)
    ensures
        r == src_target_spec(*c),
{
    TexelTarget {
        mip_level: match c.src_mip_level { Some(v) => v, None => 0 },
        x: match c.src_origin_x { Some(v) => v, None => 0 },
        y: match c.src_origin_y { Some(v) => v, None => 0 },
        z: match c.src_origin_z { Some(v) => v, None => 0 },
    }
}

fn extent(c: &BatchedComputeCommand) -> (r: CopyExtent)
    ensures
        r == extent_spec(*c),
{
    CopyExtent {
        width: match c.width { Some(v) => v, None => 1 },
        height: match c.height { Some(v) => v, None => 1 },
        depth_or_array_layers: match c.depth_or_array_layers { Some(v) => v, None => 1 },
    }
}

/// Reads a command of a standalone batch. An unknown name or a missing
/// required field refuses it; a buffer clear must give its size.
pub fn parse_batch_command(c: &BatchedComputeCommand) -> (r: Result<ComputeOp, BatchError>)
    requires
        c.cmd@ == "clear_buffer"@ && c.buffer_rid is Some ==> c.size is Some,
    ensures
        !known_command(c.cmd@) ==> (r matches Err(BatchError::UnknownCommand(n)) && n@ == c.cmd@),
        known_command(c.cmd@) && missing_field_spec(*c) is Some ==> r == Err::<ComputeOp, BatchError>(missing_field_spec(*c)->0),
        known_command(c.cmd@) && missing_field_spec(*c) is None ==> (r matches Ok(op)
            && op_matches(*c, op, or_u64(c.size, 0))),
{
    let name = c.cmd.as_str();
    if str_eq(name, "clear_buffer") {
        match (c.buffer_rid, c.size) {
            (Some(b), Some(size)) => Ok(ComputeOp::ClearBuffer {
                buffer_rid: b,
                offset: match c.offset { Some(o) => o, None => 0 },
                size,
            }),
            _ => Err(BatchError::MissingBufferRid),
        }
    } else if str_eq(name, "dispatch") {
        match c.pipeline_rid {
            Some(p) => Ok(ComputeOp::Dispatch {
                pipeline_rid: p,
                bind_groups: cmd_groups(&c.bind_group_rids),
                x: match c.workgroup_count_x { Some(v) => v, None => 1 },
                y: match c.workgroup_count_y { Some(v) => v, None => 1 },
                z: match c.workgroup_count_z { Some(v) => v, None => 1 },
                timestamps: c.timestamp_writes,
            }),
            None => Err(BatchError::MissingPipelineRid),
        }
    } else if str_eq(name, "dispatch_indirect") {
        match c.pipeline_rid {
            None => Err(BatchError::MissingIndirectPipelineRid),
            Some(p) => match c.indirect_buffer_rid {
                None => Err(BatchError::MissingIndirectBufferRid),
                Some(ib) => Ok(ComputeOp::DispatchIndirect {
                    pipeline_rid: p,
                    indirect_buffer_rid: ib,
                    indirect_offset: match c.indirect_offset { Some(o) => o, None => 0 },
                    bind_groups: cmd_groups(&c.bind_group_rids),
                    timestamps: c.timestamp_writes,
                }),
            },
        }
    } else if str_eq(name, "copy_buffer_to_texture") {
        match c.src_buffer_rid {
            None => Err(BatchError::MissingSrcBufferRid),
            Some(b) => match c.texture_rid {
                None => Err(BatchError::MissingTextureRid),
                Some(t) => Ok(ComputeOp::CopyBufferToTexture {
                    buffer_rid: b,
                    buffer_offset: match c.buffer_offset { Some(o) => o, None => 0 },
                    bytes_per_row: match c.bytes_per_row { Some(v) => v, None => 256 },
                    rows_per_image: match c.rows_per_image { Some(v) => v, None => 1 },
                    texture_rid: t,
                    dst: dst_target(c),
                    extent: extent(c),
                }),
            },
        }
    } else if str_eq(name, "copy_texture_to_texture") {
        match c.src_texture_rid {
            None => Err(BatchError::MissingSrcTextureRid),
            Some(s) => match c.texture_rid {
                None => Err(BatchError::MissingDstTextureRid),
                Some(t) => Ok(ComputeOp::CopyTextureToTexture {
                    src_texture_rid: s,
                    dst_texture_rid: t,
                    src: src_target(c),
                    dst: dst_target(c),
                    extent: extent(c),
                }),
            },
        }
    } else {
        Err(BatchError::UnknownCommand(c.cmd.clone()))
    }
}

/// Reads a command embedded in a surface frame: complete known commands
/// are taken (a buffer clear without a size clears 0 bytes), others left out.
pub fn inline_compute_op(c: &BatchedComputeCommand) -> (r: Option<ComputeOp>)
    ensures
        !known_command(c.cmd@) || missing_field_spec(*c) is Some ==> r is None,
        known_command(c.cmd@) && missing_field_spec(*c) is None ==> (r matches Some(op)
            && op_matches(*c, op, or_u64(c.size, 0))),
{
    let name = c.cmd.as_str();
    if str_eq(name, "clear_buffer") {
        match c.buffer_rid {
            Some(b) => Some(ComputeOp::ClearBuffer {
                buffer_rid: b,
                offset: match c.offset { Some(o) => o, None => 0 },
                size: match c.size { Some(s) => s, None => 0 },
            }),
            None => None,
        }
    } else if str_eq(name, "dispatch") || str_eq(name, "dispatch_indirect")
        || str_eq(name, "copy_buffer_to_texture") || str_eq(name, "copy_texture_to_texture") {
        match parse_batch_command(c) {
            Ok(op) => Some(op),
            Err(_) => None,
        }
    } else {
        None
    }
}

/// Resources a command uses, in the order a standalone batch checks them.
pub open spec fn op_resources_spec(op: ComputeOp) -> Seq<ResourceRef> {
    match op {
        ComputeOp::ClearBuffer { buffer_rid, .. } =>
            seq![ResourceRef { kind: ResourceKind::Buffer, rid: buffer_rid }],
        ComputeOp::Dispatch { pipeline_rid, bind_groups, .. } =>
            seq![ResourceRef { kind: ResourceKind::ComputePipeline, rid: pipeline_rid }]
                + groups_refs(bind_groups@),
        ComputeOp::DispatchIndirect { pipeline_rid, indirect_buffer_rid, bind_groups, .. } =>
            seq![ResourceRef { kind: ResourceKind::ComputePipeline, rid: pipeline_rid },
                ResourceRef { kind: ResourceKind::Buffer, rid: indirect_buffer_rid }]
                + groups_refs(bind_groups@),
        ComputeOp::CopyBufferToTexture { buffer_rid, texture_rid, .. } =>
            seq![ResourceRef { kind: ResourceKind::Buffer, rid: buffer_rid },
                ResourceRef { kind: ResourceKind::Texture, rid: texture_rid }],
        ComputeOp::CopyTextureToTexture { src_texture_rid, dst_texture_rid, .. } =>
            seq![ResourceRef { kind: ResourceKind::Texture, rid: src_texture_rid },
                ResourceRef { kind: ResourceKind::Texture, rid: dst_texture_rid }],
    }
}

pub open spec fn groups_refs(g: Seq<(u32, u32)>) -> Seq<ResourceRef> {
    g.map_values(|p: (u32, u32)| ResourceRef { kind: ResourceKind::BindGroup, rid: p.1 })
}

fn push_groups(out: &mut Vec<ResourceRef>, g: &Vec<(u32, u32)>)
    ensures
        final(out)@ == old(out)@ + groups_refs(g@),
{
    let ghost start = out@;
    let mut j: usize = 0;
    while j < g.len()
        invariant
            j <= g.len(),
            out@ == start + groups_refs(g@.take(j as int)),
        decreases g.len() - j,
    {
        out.push(ResourceRef { kind: ResourceKind::BindGroup, rid: g[j].1 });
        j = j + 1;
        assert(out@ =~= start + groups_refs(g@.take(j as int)));
    }
    assert(g@.take(j as int) =~= g@);
}

/// The resources a command uses, in the order a standalone batch checks them.
pub fn op_resources(op: &ComputeOp) -> (r: Vec<ResourceRef>)
    ensures
        r@ == op_resources_spec(*op),
{
    let mut out: Vec<ResourceRef> = Vec::new();
    match op {
        ComputeOp::ClearBuffer { buffer_rid, .. } => {
            out.push(ResourceRef { kind: ResourceKind::Buffer, rid: *buffer_rid });
        },
        ComputeOp::Dispatch { pipeline_rid, bind_groups, .. } => {
            out.push(ResourceRef { kind: ResourceKind::ComputePipeline, rid: *pipeline_rid });
            push_groups(&mut out, bind_groups);
        },
        ComputeOp::DispatchIndirect { pipeline_rid, indirect_buffer_rid, bind_groups, .. } => {
            out.push(ResourceRef { kind: ResourceKind::ComputePipeline, rid: *pipeline_rid });
            out.push(ResourceRef { kind: ResourceKind::Buffer, rid: *indirect_buffer_rid });
            push_groups(&mut out, bind_groups);
        },
        ComputeOp::CopyBufferToTexture { buffer_rid, texture_rid, .. } => {
            out.push(ResourceRef { kind: ResourceKind::Buffer, rid: *buffer_rid });
            out.push(ResourceRef { kind: ResourceKind::Texture, rid: *texture_rid });
        },
        ComputeOp::CopyTextureToTexture { src_texture_rid, dst_texture_rid, .. } => {
            out.push(ResourceRef { kind: ResourceKind::Texture, rid: *src_texture_rid });
            out.push(ResourceRef { kind: ResourceKind::Texture, rid: *dst_texture_rid });
        },
    }
    assert(out@ =~= op_resources_spec(*op));
    out
}

/// A range of queries resolved into a buffer.
#[derive(Clone, Copy, Debug, PartialEq, Eq, Structural)]
pub struct ResolveQuerySetDesc {
    pub query_set_rid: u32,
    pub first_query: u32,
    pub query_count: u32,
    pub destination_rid: u32,
    pub destination_offset: u64,
}

/// A buffer-to-buffer copy.
#[derive(Clone, Copy, Debug, PartialEq, Eq, Structural)]
pub struct CopyBufferDesc {
    pub src_rid: u32,
    pub src_offset: u64,
    pub dst_rid: u32,
    pub dst_offset: u64,
    pub size: u64,
}

/// The half-open range of queries a resolve covers.
pub fn resolve_range(d: &ResolveQuerySetDesc) -> (r: (u32, u32))
    requires
        d.first_query + d.query_count <= u32::MAX,
    ensures
        r.0 == d.first_query,
        r.1 == d.first_query + d.query_count,
{
    (d.first_query, d.first_query + d.query_count)
}

/// A standalone buffer clear.
#[derive(Clone, Copy, Debug, PartialEq, Eq, Structural)]
pub struct ClearBufferArgs {
    pub buffer_rid: u32,
    pub offset: u64,
    pub size: u64,
}

/// The clear a standalone buffer clear encodes.
pub fn clear_buffer_op(a: &ClearBufferArgs) -> (r: ComputeOp)
    ensures
        r == (ComputeOp::ClearBuffer { buffer_rid: a.buffer_rid, offset: a.offset, size: a.size }),
{
    ComputeOp::ClearBuffer { buffer_rid: a.buffer_rid, offset: a.offset, size: a.size }
}

/// A standalone compute dispatch.
#[derive(Clone, Debug)]
pub struct ComputeDispatchArgs {
    pub pipeline_rid: u32,
    pub bind_group_rids: Vec<Option<u32>>,
    pub workgroup_count_x: u32,
    pub workgroup_count_y: u32,
    pub workgroup_count_z: u32,
}

/// The dispatch a standalone dispatch encodes: the bind groups that are
/// set, at their slots, and no timestamp writes.
pub fn dispatch_op(a: &ComputeDispatchArgs) -> (r: ComputeOp)
    ensures
        r matches ComputeOp::Dispatch { pipeline_rid, bind_groups, x, y, z, timestamps }
            && pipeline_rid == a.pipeline_rid && bind_groups@ == set_groups_spec(a.bind_group_rids@)
            && x == a.workgroup_count_x && y == a.workgroup_count_y && z == a.workgroup_count_z
            && timestamps is None,
{
    ComputeOp::Dispatch {
        pipeline_rid: a.pipeline_rid,
        bind_groups: set_bind_groups(&a.bind_group_rids),
        x: a.workgroup_count_x,
        y: a.workgroup_count_y,
        z: a.workgroup_count_z,
        timestamps: None,
    }
}

/// A standalone indirect compute dispatch.
#[derive(Clone, Debug)]
pub struct ComputeDispatchIndirectArgs {
    pub pipeline_rid: u32,
    pub bind_group_rids: Vec<Option<u32>>,
    pub indirect_buffer_rid: u32,
    pub indirect_offset: u64,
}

/// The indirect dispatch a standalone indirect dispatch encodes.
pub fn dispatch_indirect_op(a: &ComputeDispatchIndirectArgs) -> (r: ComputeOp)
    ensures
        r matches ComputeOp::DispatchIndirect { pipeline_rid, indirect_buffer_rid, indirect_offset,
            bind_groups, timestamps }
            && pipeline_rid == a.pipeline_rid && indirect_buffer_rid == a.indirect_buffer_rid
            && indirect_offset == a.indirect_offset
            && bind_groups@ == set_groups_spec(a.bind_group_rids@) && timestamps is None,
{
    ComputeOp::DispatchIndirect {
        pipeline_rid: a.pipeline_rid,
        indirect_buffer_rid: a.indirect_buffer_rid,
        indirect_offset: a.indirect_offset,
        bind_groups: set_bind_groups(&a.bind_group_rids),
        timestamps: None,
    }
}

/// A standalone texture-to-texture copy.
#[derive(Clone, Copy, Debug, PartialEq, Eq, Structural)]
pub struct CopyTextureToTextureArgs {
    pub src_texture_rid: u32,
    pub src_mip_level: u32,
    pub src_origin_x: u32,
    pub src_origin_y: u32,
    pub src_origin_z: u32,
    pub dst_texture_rid: u32,
    pub dst_mip_level: u32,
    pub dst_origin_x: u32,
    pub dst_origin_y: u32,
    pub dst_origin_z: u32,
    pub width: u32,
    pub height: u32,
    pub depth_or_array_layers: u32,
}

/// The copy a standalone texture-to-texture copy encodes.
pub fn copy_texture_op(a: &CopyTextureToTextureArgs) -> (r: ComputeOp)
    ensures
        r == (ComputeOp::CopyTextureToTexture {
            src_texture_rid: a.src_texture_rid,
            dst_texture_rid: a.dst_texture_rid,
            src: TexelTarget { mip_level: a.src_mip_level, x: a.src_origin_x, y: a.src_origin_y, z: a.src_origin_z },
            dst: TexelTarget { mip_level: a.dst_mip_level, x: a.dst_origin_x, y: a.dst_origin_y, z: a.dst_origin_z },
            extent: CopyExtent { width: a.width, height: a.height, depth_or_array_layers: a.depth_or_array_layers },
        }),
{
    ComputeOp::CopyTextureToTexture {
        src_texture_rid: a.src_texture_rid,
        dst_texture_rid: a.dst_texture_rid,
        src: TexelTarget { mip_level: a.src_mip_level, x: a.src_origin_x, y: a.src_origin_y, z: a.src_origin_z },
        dst: TexelTarget { mip_level: a.dst_mip_level, x: a.dst_origin_x, y: a.dst_origin_y, z: a.dst_origin_z },
        extent: CopyExtent { width: a.width, height: a.height, depth_or_array_layers: a.depth_or_array_layers },
    }
}

/// A standalone buffer-to-texture copy.
#[derive(Clone, Copy, Debug, PartialEq, Eq, Structural)]
pub struct CopyBufferToTextureArgs {
    pub buffer_rid: u32,
    pub buffer_offset: u64,
    pub bytes_per_row: u32,
    pub rows_per_image: u32,
    pub texture_rid: u32,
    pub mip_level: u32,
    pub origin_x: u32,
    pub origin_y: u32,
    pub origin_z: u32,
    pub width: u32,
    pub height: u32,
    pub depth_or_array_layers: u32,
}

/// The copy a standalone buffer-to-texture copy encodes.
pub fn copy_buffer_op(a: &CopyBufferToTextureArgs) -> (r: ComputeOp)
    ensures
        r == (ComputeOp::CopyBufferToTexture {
            buffer_rid: a.buffer_rid,
            buffer_offset: a.buffer_offset,
            bytes_per_row: a.bytes_per_row,
            rows_per_image: a.rows_per_image,
            texture_rid: a.texture_rid,
            dst: TexelTarget { mip_level: a.mip_level, x: a.origin_x, y: a.origin_y, z: a.origin_z },
            extent: CopyExtent { width: a.width, height: a.height, depth_or_array_layers: a.depth_or_array_layers },
        }),
{
    ComputeOp::CopyBufferToTexture {
        buffer_rid: a.buffer_rid,
        buffer_offset: a.buffer_offset,
        bytes_per_row: a.bytes_per_row,
        rows_per_image: a.rows_per_image,
        texture_rid: a.texture_rid,
        dst: TexelTarget { mip_level: a.mip_level, x: a.origin_x, y: a.origin_y, z: a.origin_z },
        extent: CopyExtent { width: a.width, height: a.height, depth_or_array_layers: a.depth_or_array_layers },
    }
}

/// A standalone batch of commands, encoded into one command buffer.
#[derive(Clone, Debug)]
pub struct BatchedComputeArgs {
    pub commands: Vec<BatchedComputeCommand>,
}

/// One accepted command of a standalone batch.
#[derive(Clone, Debug)]
pub enum BatchStep {
    /// A command ready to be encoded.
    Encode(ComputeOp),
    /// A buffer clear that names its buffer but gives no size: the buffer is
    /// checked like any other, and encoding the clear is a programming error.
    ClearWithoutSize(u32),
}

/// `c` is refused: its name is unknown or it lacks a field it needs.
pub open spec fn refused(c: BatchedComputeCommand) -> bool {
    !known_command(c.cmd@) || missing_field_spec(c) is Some
}

/// `e` is the error a refused command `c` is answered with.
pub open spec fn refusal_of(c: BatchedComputeCommand, e: BatchError) -> bool {
    if !known_command(c.cmd@) {
        e matches BatchError::UnknownCommand(n) && n@ == c.cmd@
    } else {
        missing_field_spec(c) == Some(e)
    }
}

/// `s` is how an accepted command `c` is taken.
pub open spec fn step_matches(c: BatchedComputeCommand, s: BatchStep) -> bool {
    !refused(c) && match s {
        BatchStep::Encode(op) => !(c.cmd@ == "clear_buffer"@ && c.size is None)
            && op_matches(c, op, or_u64(c.size, 0)),
        BatchStep::ClearWithoutSize(b) => c.cmd@ == "clear_buffer"@ && c.size is None
            && c.buffer_rid == Some(b),
    }
}

/// A refused command of a standalone batch: the resources looked up before
/// the missing field was noticed, and the error it is answered with.
#[derive(Clone, Debug)]
pub struct BatchRefusal {
    pub lookups: Vec<ResourceRef>,
    pub error: BatchError,
}

/// The resources a refused command names before the field it lacks: a
/// pipeline, source buffer or source texture that is present is looked up
/// before the absence of the second id is reported.
pub open spec fn refusal_lookups_spec(c: BatchedComputeCommand) -> Seq<ResourceRef> {
    if c.cmd@ == "dispatch_indirect"@ && c.pipeline_rid is Some && c.indirect_buffer_rid is None {
        seq![ResourceRef { kind: ResourceKind::ComputePipeline, rid: c.pipeline_rid->0 }]
    } else if c.cmd@ == "copy_buffer_to_texture"@ && c.src_buffer_rid is Some && c.texture_rid is None {
        seq![ResourceRef { kind: ResourceKind::Buffer, rid: c.src_buffer_rid->0 }]
    } else if c.cmd@ == "copy_texture_to_texture"@ && c.src_texture_rid is Some && c.texture_rid is None {
        seq![ResourceRef { kind: ResourceKind::Texture, rid: c.src_texture_rid->0 }]
    } else {
        seq![]
    }
}

fn refusal_lookups(c: &BatchedComputeCommand) -> (r: Vec<ResourceRef>)
    ensures
        r@ == refusal_lookups_spec(*c),
{
    let mut out: Vec<ResourceRef> = Vec::new();
    let name = c.cmd.as_str();
    if str_eq(name, "dispatch_indirect") && c.pipeline_rid.is_some() && c.indirect_buffer_rid.is_none() {
        let p = match c.pipeline_rid { Some(p) => p, None => 0 };
        out.push(ResourceRef { kind: ResourceKind::ComputePipeline, rid: p });
    } else if str_eq(name, "copy_buffer_to_texture") && c.src_buffer_rid.is_some() && c.texture_rid.is_none() {
        let b = match c.src_buffer_rid { Some(b) => b, None => 0 };
        out.push(ResourceRef { kind: ResourceKind::Buffer, rid: b });
    } else if str_eq(name, "copy_texture_to_texture") && c.src_texture_rid.is_some() && c.texture_rid.is_none() {
        let t = match c.src_texture_rid { Some(t) => t, None => 0 };
        out.push(ResourceRef { kind: ResourceKind::Texture, rid: t });
    }
    assert(out@ =~= refusal_lookups_spec(*c));
    out
}

/// Reads a standalone batch in order, up to its first refused command: the
/// steps of the commands before it, and its refusal; none when every
/// command is accepted.
pub fn parse_batch(args: &BatchedComputeArgs) -> (r: (Vec<BatchStep>, Option<BatchRefusal>))
    ensures
        r.0@.len() <= args.commands@.len(),
        forall|i: int| 0 <= i < r.0@.len() ==> step_matches(args.commands@[i], #[trigger] r.0@[i]),
        r.1 is None ==> r.0@.len() == args.commands@.len(),
        r.1 matches Some(f) ==> r.0@.len() < args.commands@.len()
            && refusal_of(args.commands@[r.0@.len() as int], f.error)
            && f.lookups@ == refusal_lookups_spec(args.commands@[r.0@.len() as int]),
{
    let mut steps: Vec<BatchStep> = Vec::new();
    let mut i: usize = 0;
    while i < args.commands.len()
        invariant
            i <= args.commands@.len(),
            steps@.len() == i,
            forall|k: int| 0 <= k < i ==> step_matches(args.commands@[k], #[trigger] steps@[k]),
        decreases args.commands@.len() - i,
    {
        let c = &args.commands[i];
        if str_eq(c.cmd.as_str(), "clear_buffer") && c.buffer_rid.is_some() && c.size.is_none() {
            let b = match c.buffer_rid { Some(b) => b, None => 0 };
            steps.push(BatchStep::ClearWithoutSize(b));
        } else {
            match parse_batch_command(c) {
                Ok(op) => {
                    steps.push(BatchStep::Encode(op));
                },
                Err(e) => {
                    let lookups = refusal_lookups(c);
                    return (steps, Some(BatchRefusal { lookups, error: e }));
                },
            }
        }
        i = i + 1;
    }
    (steps, None)
}

/// A timestamp written outside any pass.
#[derive(Clone, Copy, Debug, PartialEq, Eq, Structural)]
pub struct TimestampWriteDesc {
    pub query_set_rid: u32,
    pub query_index: u32,
}

/// The timing work of a frame: timestamps, then query resolves, then buffer copies.
#[derive(Clone, Debug)]
pub struct TimestampBatchArgs {
    pub write_timestamps: Vec<TimestampWriteDesc>,
    pub resolve_query_sets: Vec<ResolveQuerySetDesc>,
    pub copy_buffers: Vec<CopyBufferDesc>,
}

pub open spec fn query_set_ref(rid: u32) -> ResourceRef {
    ResourceRef { kind: ResourceKind::QuerySet, rid }
}

pub open spec fn buffer_ref(rid: u32) -> ResourceRef {
    ResourceRef { kind: ResourceKind::Buffer, rid }
}

pub open spec fn write_refs(w: Seq<TimestampWriteDesc>) -> Seq<ResourceRef> {
    w.map_values(|t: TimestampWriteDesc| query_set_ref(t.query_set_rid))
}

/// Each resolve's query set, then its destination buffer.
pub open spec fn resolve_refs(r: Seq<ResolveQuerySetDesc>) -> Seq<ResourceRef>
    decreases r.len(),
{
    if r.len() == 0 {
        seq![]
    } else {
        resolve_refs(r.drop_last()) + seq![query_set_ref(r.last().query_set_rid),
            buffer_ref(r.last().destination_rid)]
    }
}

/// Each copy's source buffer, then its destination buffer.
pub open spec fn copy_refs(c: Seq<CopyBufferDesc>) -> Seq<ResourceRef>
    decreases c.len(),
{
    if c.len() == 0 {
        seq![]
    } else {
        copy_refs(c.drop_last()) + seq![buffer_ref(c.last().src_rid), buffer_ref(c.last().dst_rid)]
    }
}

/// The resources a timestamp batch uses, in the order it looks them up.
pub open spec fn timestamp_batch_resources_spec(a: TimestampBatchArgs) -> Seq<ResourceRef> {
    write_refs(a.write_timestamps@) + resolve_refs(a.resolve_query_sets@) + copy_refs(a.copy_buffers@)
}

/// The resources a timestamp batch uses, in the order it looks them up.
pub fn timestamp_batch_resources(a: &TimestampBatchArgs) -> (r: Vec<ResourceRef>)
    ensures
        r@ == timestamp_batch_resources_spec(*a),
{
    let mut out: Vec<ResourceRef> = Vec::new();
    let mut i: usize = 0;
    while i < a.write_timestamps.len()
        invariant
            i <= a.write_timestamps@.len(),
            out@ == write_refs(a.write_timestamps@.take(i as int)),
        decreases a.write_timestamps@.len() - i,
    {
        out.push(ResourceRef { kind: ResourceKind::QuerySet, rid: a.write_timestamps[i].query_set_rid });
        i = i + 1;
        assert(out@ =~= write_refs(a.write_timestamps@.take(i as int)));
    }
    assert(a.write_timestamps@.take(i as int) =~= a.write_timestamps@);
    let ghost w = out@;
    let mut j: usize = 0;
    while j < a.resolve_query_sets.len()
        invariant
            j <= a.resolve_query_sets@.len(),
            out@ == w + resolve_refs(a.resolve_query_sets@.take(j as int)),
        decreases a.resolve_query_sets@.len() - j,
    {
        let d = a.resolve_query_sets[j];
        out.push(ResourceRef { kind: ResourceKind::QuerySet, rid: d.query_set_rid });
        out.push(ResourceRef { kind: ResourceKind::Buffer, rid: d.destination_rid });
        proof {
            let t = a.resolve_query_sets@.take(j + 1);
            assert(t.drop_last() =~= a.resolve_query_sets@.take(j as int));
        }
        j = j + 1;
        assert(out@ =~= w + resolve_refs(a.resolve_query_sets@.take(j as int)));
    }
    assert(a.resolve_query_sets@.take(j as int) =~= a.resolve_query_sets@);
    let ghost wr = out@;
    let mut k: usize = 0;
    while k < a.copy_buffers.len()
        invariant
            k <= a.copy_buffers@.len(),
            out@ == wr + copy_refs(a.copy_buffers@.take(k as int)),
        decreases a.copy_buffers@.len() - k,
    {
        let d = a.copy_buffers[k];
        out.push(ResourceRef { kind: ResourceKind::Buffer, rid: d.src_rid });
        out.push(ResourceRef { kind: ResourceKind::Buffer, rid: d.dst_rid });
        proof {
            let t = a.copy_buffers@.take(k + 1);
            assert(t.drop_last() =~= a.copy_buffers@.take(k as int));
        }
        k = k + 1;
        assert(out@ =~= wr + copy_refs(a.copy_buffers@.take(k as int)));
    }
    assert(a.copy_buffers@.take(k as int) =~= a.copy_buffers@);
    out
}

} // verus!
