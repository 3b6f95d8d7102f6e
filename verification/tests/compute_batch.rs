use lattice::compute_cmds::{
    clear_buffer_op, copy_buffer_op, copy_texture_op, dispatch_indirect_op, dispatch_op,
    inline_compute_op, op_resources, parse_batch, parse_batch_command, resolve_range,
    timestamp_batch_resources, BatchError, BatchStep, BatchedComputeArgs, BatchedComputeCommand,
    ClearBufferArgs, ComputeDispatchArgs, ComputeDispatchIndirectArgs, ComputeOp, CopyBufferDesc,
    CopyBufferToTextureArgs, CopyExtent, CopyTextureToTextureArgs, ResolveQuerySetDesc,
    TexelTarget, TimestampBatchArgs, TimestampWriteDesc,
};
use lattice::draw_plan::{ResourceKind, ResourceRef};

fn cmd(name: &str) -> BatchedComputeCommand {
    BatchedComputeCommand {
        cmd: name.to_string(),
        buffer_rid: None, offset: None, size: None, pipeline_rid: None, bind_group_rids: None,
        workgroup_count_x: None, workgroup_count_y: None, workgroup_count_z: None,
        timestamp_writes: None, indirect_buffer_rid: None, indirect_offset: None,
        src_buffer_rid: None, buffer_offset: None, bytes_per_row: None, rows_per_image: None,
        texture_rid: None, mip_level: None, origin_x: None, origin_y: None, origin_z: None,
        width: None, height: None, depth_or_array_layers: None, src_texture_rid: None,
        src_mip_level: None, src_origin_x: None, src_origin_y: None, src_origin_z: None,
    }
}

#[test]
fn dispatch_defaults_to_one_workgroup() {
    let mut c = cmd("dispatch");
    c.pipeline_rid = Some(4);
    c.workgroup_count_x = Some(8);
    c.bind_group_rids = Some(vec![Some(1), None, Some(2)]);
    match parse_batch_command(&c) {
        Ok(ComputeOp::Dispatch { pipeline_rid, bind_groups, x, y, z, timestamps }) => {
            assert_eq!(pipeline_rid, 4);
            assert_eq!(bind_groups, vec![(0, 1), (2, 2)]);
            assert_eq!((x, y, z), (8, 1, 1));
            assert!(timestamps.is_none());
        },
        _ => panic!("dispatch expected"),
    }
}

#[test]
fn copy_defaults() {
    let mut c = cmd("copy_buffer_to_texture");
    c.src_buffer_rid = Some(1);
    c.texture_rid = Some(2);
    match parse_batch_command(&c) {
        Ok(ComputeOp::CopyBufferToTexture { buffer_rid, buffer_offset, bytes_per_row, rows_per_image, texture_rid, dst, extent }) => {
            assert_eq!((buffer_rid, buffer_offset, bytes_per_row, rows_per_image, texture_rid), (1, 0, 256, 1, 2));
            assert_eq!(dst, TexelTarget { mip_level: 0, x: 0, y: 0, z: 0 });
            assert_eq!(extent, CopyExtent { width: 1, height: 1, depth_or_array_layers: 1 });
        },
        _ => panic!("copy expected"),
    }
    let mut t = cmd("copy_texture_to_texture");
    t.src_texture_rid = Some(5);
    t.texture_rid = Some(6);
    t.src_mip_level = Some(2);
    t.width = Some(16);
    match parse_batch_command(&t) {
        Ok(ComputeOp::CopyTextureToTexture { src_texture_rid, dst_texture_rid, src, dst, extent }) => {
            assert_eq!((src_texture_rid, dst_texture_rid), (5, 6));
            assert_eq!(src.mip_level, 2);
            assert_eq!(dst.mip_level, 0);
            assert_eq!(extent.width, 16);
        },
        _ => panic!("copy expected"),
    }
}

#[test]
fn strict_batch_errors() {
    assert_eq!(parse_batch_command(&cmd("clear_buffer")).err(), Some(BatchError::MissingBufferRid));
    assert_eq!(parse_batch_command(&cmd("dispatch")).err(), Some(BatchError::MissingPipelineRid));
    assert_eq!(parse_batch_command(&cmd("dispatch_indirect")).err(), Some(BatchError::MissingIndirectPipelineRid));
    let mut di = cmd("dispatch_indirect");
    di.pipeline_rid = Some(1);
    assert_eq!(parse_batch_command(&di).err(), Some(BatchError::MissingIndirectBufferRid));
    assert_eq!(parse_batch_command(&cmd("copy_buffer_to_texture")).err(), Some(BatchError::MissingSrcBufferRid));
    let mut cb = cmd("copy_buffer_to_texture");
    cb.src_buffer_rid = Some(1);
    assert_eq!(parse_batch_command(&cb).err(), Some(BatchError::MissingTextureRid));
    assert_eq!(parse_batch_command(&cmd("copy_texture_to_texture")).err(), Some(BatchError::MissingSrcTextureRid));
    assert_eq!(parse_batch_command(&cmd("draw")).err(), Some(BatchError::UnknownCommand("draw".to_string())));
}

#[test]
fn inline_commands_are_lenient() {
    assert!(inline_compute_op(&cmd("draw")).is_none());
    assert!(inline_compute_op(&cmd("dispatch")).is_none());
    let mut c = cmd("clear_buffer");
    c.buffer_rid = Some(3);
    c.offset = Some(16);
    match inline_compute_op(&c) {
        Some(ComputeOp::ClearBuffer { buffer_rid, offset, size }) => assert_eq!((buffer_rid, offset, size), (3, 16, 0)),
        _ => panic!("clear expected"),
    }
}

#[test]
fn resources_of_commands() {
    let mut di = cmd("dispatch_indirect");
    di.pipeline_rid = Some(1);
    di.indirect_buffer_rid = Some(2);
    di.bind_group_rids = Some(vec![None, Some(3)]);
    let op = parse_batch_command(&di).unwrap();
    assert_eq!(op_resources(&op), vec![
        ResourceRef { kind: ResourceKind::ComputePipeline, rid: 1 },
        ResourceRef { kind: ResourceKind::Buffer, rid: 2 },
        ResourceRef { kind: ResourceKind::BindGroup, rid: 3 },
    ]);
}

#[test]
fn query_resolve_range() {
    let d = ResolveQuerySetDesc { query_set_rid: 1, first_query: 2, query_count: 4, destination_rid: 3, destination_offset: 0 };
    assert_eq!(resolve_range(&d), (2, 6));
}

#[test]
fn standalone_commands_become_ops() {
    match clear_buffer_op(&ClearBufferArgs { buffer_rid: 3, offset: 16, size: 64 }) {
        ComputeOp::ClearBuffer { buffer_rid, offset, size } => assert_eq!((buffer_rid, offset, size), (3, 16, 64)),
        other => panic!("unexpected {:?}", other),
    }
    let d = ComputeDispatchArgs {
        pipeline_rid: 5,
        bind_group_rids: vec![None, Some(8), Some(9)],
        workgroup_count_x: 4,
        workgroup_count_y: 2,
        workgroup_count_z: 1,
    };
    match dispatch_op(&d) {
        ComputeOp::Dispatch { pipeline_rid, bind_groups, x, y, z, timestamps } => {
            assert_eq!(pipeline_rid, 5);
            assert_eq!(bind_groups, vec![(1, 8), (2, 9)]);
            assert_eq!((x, y, z), (4, 2, 1));
            assert!(timestamps.is_none());
        }
        other => panic!("unexpected {:?}", other),
    }
    let di = ComputeDispatchIndirectArgs {
        pipeline_rid: 6,
        bind_group_rids: vec![Some(1)],
        indirect_buffer_rid: 7,
        indirect_offset: 12,
    };
    match dispatch_indirect_op(&di) {
        ComputeOp::DispatchIndirect { pipeline_rid, indirect_buffer_rid, indirect_offset, bind_groups, timestamps } => {
            assert_eq!((pipeline_rid, indirect_buffer_rid, indirect_offset), (6, 7, 12));
            assert_eq!(bind_groups, vec![(0, 1)]);
            assert!(timestamps.is_none());
        }
        other => panic!("unexpected {:?}", other),
    }
    let t = CopyTextureToTextureArgs {
        src_texture_rid: 1, src_mip_level: 2, src_origin_x: 3, src_origin_y: 4, src_origin_z: 5,
        dst_texture_rid: 6, dst_mip_level: 0, dst_origin_x: 7, dst_origin_y: 8, dst_origin_z: 9,
        width: 10, height: 11, depth_or_array_layers: 1,
    };
    match copy_texture_op(&t) {
        ComputeOp::CopyTextureToTexture { src_texture_rid, dst_texture_rid, src, dst, extent } => {
            assert_eq!((src_texture_rid, dst_texture_rid), (1, 6));
            assert_eq!(src, TexelTarget { mip_level: 2, x: 3, y: 4, z: 5 });
            assert_eq!(dst, TexelTarget { mip_level: 0, x: 7, y: 8, z: 9 });
            assert_eq!(extent, CopyExtent { width: 10, height: 11, depth_or_array_layers: 1 });
        }
        other => panic!("unexpected {:?}", other),
    }
    let b = CopyBufferToTextureArgs {
        buffer_rid: 2, buffer_offset: 256, bytes_per_row: 512, rows_per_image: 4, texture_rid: 3,
        mip_level: 1, origin_x: 0, origin_y: 2, origin_z: 0, width: 128, height: 4, depth_or_array_layers: 1,
    };
    match copy_buffer_op(&b) {
        ComputeOp::CopyBufferToTexture { buffer_rid, buffer_offset, bytes_per_row, rows_per_image, texture_rid, dst, extent } => {
            assert_eq!((buffer_rid, buffer_offset, bytes_per_row, rows_per_image, texture_rid), (2, 256, 512, 4, 3));
            assert_eq!(dst, TexelTarget { mip_level: 1, x: 0, y: 2, z: 0 });
            assert_eq!(extent, CopyExtent { width: 128, height: 4, depth_or_array_layers: 1 });
        }
        other => panic!("unexpected {:?}", other),
    }
}

#[test]
fn batch_stops_at_first_refused_command() {
    let mut clear = cmd("clear_buffer");
    clear.buffer_rid = Some(1);
    clear.size = Some(32);
    let mut sizeless = cmd("clear_buffer");
    sizeless.buffer_rid = Some(2);
    let mut dispatch = cmd("dispatch");
    dispatch.pipeline_rid = Some(3);
    let bad = cmd("dispatch_indirect");
    let after = cmd("blit");

    let (steps, err) = parse_batch(&BatchedComputeArgs { commands: vec![clear.clone(), sizeless.clone(), dispatch.clone()] });
    assert!(err.is_none());
    assert_eq!(steps.len(), 3);
    assert!(matches!(steps[0], BatchStep::Encode(ComputeOp::ClearBuffer { buffer_rid: 1, offset: 0, size: 32 })));
    assert!(matches!(steps[1], BatchStep::ClearWithoutSize(2)));
    assert!(matches!(steps[2], BatchStep::Encode(ComputeOp::Dispatch { pipeline_rid: 3, x: 1, y: 1, z: 1, .. })));

    let (steps, err) = parse_batch(&BatchedComputeArgs { commands: vec![clear.clone(), bad, after.clone()] });
    assert_eq!(steps.len(), 1);
    let f = err.unwrap();
    assert_eq!(f.error, BatchError::MissingIndirectPipelineRid);
    assert!(f.lookups.is_empty());

    let mut half = cmd("dispatch_indirect");
    half.pipeline_rid = Some(9);
    let (steps, err) = parse_batch(&BatchedComputeArgs { commands: vec![half] });
    assert!(steps.is_empty());
    let f = err.unwrap();
    assert_eq!(f.error, BatchError::MissingIndirectBufferRid);
    assert_eq!(f.lookups, vec![ResourceRef { kind: ResourceKind::ComputePipeline, rid: 9 }]);

    let mut copy = cmd("copy_texture_to_texture");
    copy.src_texture_rid = Some(4);
    let (_, err) = parse_batch(&BatchedComputeArgs { commands: vec![copy] });
    let f = err.unwrap();
    assert_eq!(f.error, BatchError::MissingDstTextureRid);
    assert_eq!(f.lookups, vec![ResourceRef { kind: ResourceKind::Texture, rid: 4 }]);

    let (steps, err) = parse_batch(&BatchedComputeArgs { commands: vec![after, clear] });
    assert!(steps.is_empty());
    let f = err.unwrap();
    assert_eq!(f.error, BatchError::UnknownCommand("blit".to_string()));
    assert!(f.lookups.is_empty());

    let (steps, err) = parse_batch(&BatchedComputeArgs { commands: vec![] });
    assert!(steps.is_empty() && err.is_none());
}

#[test]
fn timestamp_batch_lists_resources_in_lookup_order() {
    let a = TimestampBatchArgs {
        write_timestamps: vec![TimestampWriteDesc { query_set_rid: 1, query_index: 0 }, TimestampWriteDesc { query_set_rid: 2, query_index: 1 }],
        resolve_query_sets: vec![ResolveQuerySetDesc { query_set_rid: 3, first_query: 0, query_count: 2, destination_rid: 4, destination_offset: 0 }],
        copy_buffers: vec![CopyBufferDesc { src_rid: 5, src_offset: 0, dst_rid: 6, dst_offset: 8, size: 16 }],
    };
    let q = |rid| ResourceRef { kind: ResourceKind::QuerySet, rid };
    let b = |rid| ResourceRef { kind: ResourceKind::Buffer, rid };
    assert_eq!(timestamp_batch_resources(&a), vec![q(1), q(2), q(3), b(4), b(5), b(6)]);
    let empty = TimestampBatchArgs { write_timestamps: vec![], resolve_query_sets: vec![], copy_buffers: vec![] };
    assert!(timestamp_batch_resources(&empty).is_empty());
}

#[test]
fn batch_errors_name_their_command() {
    assert_eq!(BatchError::MissingPipelineRid.message(), "dispatch: missing pipeline_rid");
    assert_eq!(BatchError::MissingIndirectPipelineRid.message(), "dispatch_indirect: missing pipeline_rid");
    assert_eq!(BatchError::MissingIndirectBufferRid.message(), "dispatch_indirect: missing indirect_buffer_rid");
    assert_eq!(BatchError::MissingBufferRid.message(), "clear_buffer: missing buffer_rid");
    assert_eq!(BatchError::MissingSrcBufferRid.message(), "copy: missing src_buffer_rid");
    assert_eq!(BatchError::MissingTextureRid.message(), "copy: missing texture_rid");
    assert_eq!(BatchError::MissingSrcTextureRid.message(), "copy_t2t: missing src_texture_rid");
    assert_eq!(BatchError::MissingDstTextureRid.message(), "copy_t2t: missing texture_rid");
    assert_eq!(BatchError::UnknownCommand("blit".to_string()).message(), "Unknown batch command: blit");
    let mut cb = cmd("copy_texture_to_texture");
    cb.src_texture_rid = Some(1);
    assert_eq!(parse_batch_command(&cb).err(), Some(BatchError::MissingDstTextureRid));
}
