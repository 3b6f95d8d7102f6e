use lattice::compute_cmds::{BatchedComputeCommand, ComputeOp, TimestampWritesDesc};
use lattice::draw_plan::{
    color_load_plan, depth_attachment_plan, depth_only_clear_bits, draw_call_resources,
    draw_command, draws_fit, plan_draw, set_bind_groups, xr_stencil_plan, DrawCall, DrawCommand, DrawPath,
    LoadOp, ResourceKind, ResourceRef, DEPTH_CLEAR_ONE_BITS,
};
use lattice::gfx_map::{IndexFormat, StoreOp};
use lattice::passes::{
    depth_views_fit, plan_depth_only_pass, plan_multi_draw, plan_surface_frame,
    pass_step, plan_texture_pass, plan_xr_pass, surface_frame_action, surface_step, FrameAction,
    MultiDrawIndexedIndirectArgs, PassStep, RenderXrFrameArgs, SurfaceAcquire, SurfaceDrawArgs,
    SurfaceFacts, SurfaceFrameError, SurfaceStep,
};

fn call(pipeline: u32) -> DrawCall {
    DrawCall {
        pipeline_rid: pipeline,
        vertex_buffer_rids: vec![],
        bind_group_rids: vec![],
        clear_color_bits: None,
        vertex_count: 0,
        instance_count: 1,
        first_vertex: 0,
        first_instance: 0,
        index_buffer_rid: None,
        index_format: None,
        index_count: 0,
        first_index: 0,
        base_vertex: 0,
        depth_view_rid: None,
        depth_clear_bits: None,
        depth_load_op: None,
        depth_store_op: None,
        depth_read_only: None,
        stencil_clear_value: None,
        stencil_load_op: None,
        stencil_store_op: None,
        stencil_read_only: None,
        stencil_reference: None,
        is_multi_draw: None,
        indirect_buffer_rid: None,
        indirect_offset: None,
        draw_count: None,
        is_indirect: None,
        scissor_rect: None,
    }
}

#[test]
fn bind_groups_skip_unset_slots() {
    let g = set_bind_groups(&vec![Some(10), None, Some(12)]);
    assert_eq!(g, vec![(0, 10), (2, 12)]);
    assert_eq!(set_bind_groups(&vec![]), vec![]);
}

#[test]
fn resources_are_listed_in_lookup_order() {
    let mut dc = call(1);
    dc.vertex_buffer_rids = vec![5, 6];
    dc.bind_group_rids = vec![None, Some(9)];
    dc.index_buffer_rid = Some(7);
    dc.depth_view_rid = Some(8);
    dc.indirect_buffer_rid = Some(11);
    let r = draw_call_resources(&dc);
    assert_eq!(r, vec![
        ResourceRef { kind: ResourceKind::RenderPipeline, rid: 1 },
        ResourceRef { kind: ResourceKind::Buffer, rid: 5 },
        ResourceRef { kind: ResourceKind::Buffer, rid: 6 },
        ResourceRef { kind: ResourceKind::BindGroup, rid: 9 },
        ResourceRef { kind: ResourceKind::Buffer, rid: 7 },
        ResourceRef { kind: ResourceKind::TextureView, rid: 8 },
    ]);
    dc.is_indirect = Some(true);
    let r2 = draw_call_resources(&dc);
    assert_eq!(r2.len(), 7);
    assert_eq!(r2[6], ResourceRef { kind: ResourceKind::Buffer, rid: 11 });
}

#[test]
fn depth_attachment_comes_from_first_call_with_depth() {
    let a = call(1);
    let mut b = call(2);
    b.depth_view_rid = Some(40);
    b.depth_load_op = Some("load".to_string());
    b.depth_store_op = Some("discard".to_string());
    let mut c = call(3);
    c.depth_view_rid = Some(50);
    let plan = depth_attachment_plan(&vec![a.clone(), b, c]).unwrap();
    assert_eq!(plan.view_rid, 40);
    assert_eq!(plan.depth_load, LoadOp::Load);
    assert_eq!(plan.depth_store, StoreOp::Discard);
    assert_eq!(plan.stencil, None);
    assert!(depth_attachment_plan(&vec![a]).is_none());
}

#[test]
fn depth_clear_defaults_to_one_and_stencil_only_when_asked() {
    let mut d = call(1);
    d.depth_view_rid = Some(4);
    d.stencil_store_op = Some("store".to_string());
    let plan = depth_attachment_plan(&vec![d]).unwrap();
    assert_eq!(plan.depth_load, LoadOp::Clear(DEPTH_CLEAR_ONE_BITS));
    assert_eq!(DEPTH_CLEAR_ONE_BITS, 1.0f32.to_bits());
    let s = plan.stencil.unwrap();
    assert_eq!(s.load, LoadOp::Clear(0));
    assert_eq!(s.store, StoreOp::Store);
}

#[test]
fn color_is_cleared_only_by_first_call() {
    let mut a = call(1);
    let mut b = call(2);
    b.clear_color_bits = Some((1, 2, 3, 4));
    assert_eq!(color_load_plan(&vec![a.clone(), b.clone()]), LoadOp::Load);
    a.clear_color_bits = Some((0.5f64.to_bits(), 0, 0, 1.0f64.to_bits()));
    assert_eq!(color_load_plan(&vec![a, b]), LoadOp::Clear((0.5f64.to_bits(), 0, 0, 1.0f64.to_bits())));
    assert_eq!(color_load_plan(&vec![]), LoadOp::Load);
}

#[test]
fn draw_commands_per_path() {
    let mut dc = call(1);
    dc.vertex_count = 3;
    dc.instance_count = 2;
    dc.first_vertex = 1;
    assert_eq!(draw_command(&dc, DrawPath::Surface),
        DrawCommand::Draw { first_vertex: 1, end_vertex: 4, first_instance: 0, end_instance: 2 });
    dc.index_buffer_rid = Some(9);
    dc.index_count = 6;
    dc.first_index = 3;
    dc.base_vertex = -2;
    dc.index_format = Some("uint16".to_string());
    assert_eq!(draw_command(&dc, DrawPath::Direct), DrawCommand::DrawIndexed {
        index_format: IndexFormat::Uint16, first_index: 3, end_index: 9, base_vertex: -2,
        first_instance: 0, end_instance: 2 });
    dc.is_multi_draw = Some(true);
    assert_eq!(draw_command(&dc, DrawPath::Surface), DrawCommand::Skip);
    assert_eq!(draw_command(&dc, DrawPath::Xr), DrawCommand::SetIndexBufferOnly { index_format: IndexFormat::Uint16 });
    dc.indirect_buffer_rid = Some(20);
    dc.draw_count = Some(5);
    dc.indirect_offset = Some(64);
    assert_eq!(draw_command(&dc, DrawPath::Surface), DrawCommand::MultiDrawIndexedIndirect {
        index_format: IndexFormat::Uint16, indirect_offset: 64, draw_count: 5 });
    assert_eq!(draw_command(&dc, DrawPath::Direct), DrawCommand::DrawIndexed {
        index_format: IndexFormat::Uint16, first_index: 3, end_index: 9, base_vertex: -2,
        first_instance: 0, end_instance: 2 });
    dc.is_multi_draw = None;
    dc.is_indirect = Some(true);
    assert_eq!(draw_command(&dc, DrawPath::Xr), DrawCommand::DrawIndexedIndirect {
        index_format: IndexFormat::Uint16, indirect_offset: 64 });
}

#[test]
fn empty_draws_are_skipped() {
    let mut dc = call(1);
    dc.vertex_count = 3;
    dc.instance_count = 0;
    assert_eq!(draw_command(&dc, DrawPath::Surface), DrawCommand::Skip);
    dc.index_buffer_rid = Some(1);
    dc.index_count = 0;
    assert_eq!(draw_command(&dc, DrawPath::Surface), DrawCommand::Skip);
}

#[test]
fn planned_draw_carries_state() {
    let mut dc = call(4);
    dc.vertex_buffer_rids = vec![1, 2];
    dc.bind_group_rids = vec![Some(3)];
    dc.stencil_reference = Some(7);
    dc.scissor_rect = Some([1, 2, 3, 4]);
    dc.indirect_buffer_rid = Some(5);
    let p = plan_draw(&dc, DrawPath::Direct, true);
    assert_eq!(p.pipeline_rid, 4);
    assert_eq!(p.stencil_reference, 7);
    assert_eq!(p.vertex_buffers, vec![1, 2]);
    assert_eq!(p.bind_groups, vec![(0, 3)]);
    assert_eq!(p.scissor_rect, Some([1, 2, 3, 4]));
    assert_eq!(p.indirect_buffer_rid, None);
    let q = plan_draw(&dc, DrawPath::Surface, false);
    assert_eq!(q.scissor_rect, None);
    assert_eq!(q.stencil_reference, 7);
}

#[test]
fn xr_stencil_from_first_call_that_has_it() {
    let a = call(1);
    let mut b = call(2);
    b.stencil_load_op = Some("load".to_string());
    b.stencil_store_op = Some("discard".to_string());
    let s = xr_stencil_plan(&vec![a.clone(), b]).unwrap();
    assert_eq!(s.load, LoadOp::Load);
    assert_eq!(s.store, StoreOp::Discard);
    assert!(xr_stencil_plan(&vec![a]).is_none());
}

#[test]
fn depth_only_clear_value() {
    let mut a = call(1);
    assert_eq!(depth_only_clear_bits(&vec![a.clone()]), DEPTH_CLEAR_ONE_BITS);
    a.depth_clear_bits = Some(0.25f32.to_bits());
    assert_eq!(depth_only_clear_bits(&vec![a.clone()]), 0.25f32.to_bits());
    let plan = plan_depth_only_pass(&vec![a]);
    assert_eq!(plan.depth_clear_bits, 0.25f32.to_bits());
    assert_eq!(plan.draws.len(), 1);
}

#[test]
fn surface_frame_actions() {
    assert_eq!(surface_frame_action(SurfaceAcquire::Ready { width: 800, height: 600 }), FrameAction::Render);
    assert_eq!(surface_frame_action(SurfaceAcquire::Ready { width: 0, height: 600 }), FrameAction::Skip);
    assert_eq!(surface_frame_action(SurfaceAcquire::Lost), FrameAction::Skip);
    assert_eq!(surface_frame_action(SurfaceAcquire::Outdated), FrameAction::Skip);
    assert_eq!(surface_frame_action(SurfaceAcquire::Timeout), FrameAction::Skip);
    assert_eq!(surface_frame_action(SurfaceAcquire::OtherError), FrameAction::Skip);
    assert_eq!(surface_frame_action(SurfaceAcquire::OutOfMemory), FrameAction::OutOfMemory);
    assert!(depth_views_fit(&vec![(800, 600), (800, 600)], 800, 600));
    assert!(!depth_views_fit(&vec![(800, 600), (400, 600)], 800, 600));
    assert!(depth_views_fit(&vec![], 1, 1));
}

fn cmd(name: &str) -> BatchedComputeCommand {
    BatchedComputeCommand {
        cmd: name.to_string(),
        buffer_rid: None, offset: None, size: None, pipeline_rid: None, bind_group_rids: None,
        workgroup_count_x: None, workgroup_count_y: None, workgroup_count_z: None,
        timestamp_writes: None, indirect_buffer_rid: None, indirect_offset: None,
        src_buffer_rid: None, buffer_offset: None, bytes_per_row: None, rows_per_image: None,
        texture_rid: None, mip_level: None, origin_x: None, origin_y: None, origin_z: None,
        width: None, height: None, depth_or_array_layers: None, src_texture_rid: None,
        src_mip_level: None, src_origin_x: None, src_origin_y: None, src_origin_z: None,
    }
}

#[test]
fn surface_frame_plan_collects_everything() {
    let mut first = call(1);
    first.clear_color_bits = Some((0, 0, 0, 0));
    first.vertex_count = 3;
    let mut second = call(2);
    second.depth_view_rid = Some(30);
    let mut clear = cmd("clear_buffer");
    clear.buffer_rid = Some(8);
    let bogus = cmd("bogus");
    let args = SurfaceDrawArgs {
        draw_calls: vec![first, second],
        compute_commands: Some(vec![clear, bogus]),
        timestamp_writes: Some(TimestampWritesDesc { query_set_rid: 3, beginning_of_pass_write_index: Some(0), end_of_pass_write_index: None }),
        resolve_query_sets: None,
        copy_buffers: None,
    };
    let p = plan_surface_frame(&args);
    assert_eq!(p.compute.len(), 2);
    match &p.compute[0] {
        Some(ComputeOp::ClearBuffer { buffer_rid, offset, size }) => {
            assert_eq!((*buffer_rid, *offset, *size), (8, 0, 0));
        },
        _ => panic!("clear expected"),
    }
    assert!(p.compute[1].is_none());
    assert_eq!(p.depth.unwrap().view_rid, 30);
    assert_eq!(p.color_load, LoadOp::Clear((0, 0, 0, 0)));
    assert_eq!(p.draws.len(), 2);
    assert_eq!(p.start_timestamp, Some((3, 0)));
    assert_eq!(p.end_timestamp, None);
}

#[test]
fn xr_pass_plan() {
    let mut dc = call(1);
    dc.stencil_load_op = Some("clear".to_string());
    dc.stencil_clear_value = Some(5);
    let args = RenderXrFrameArgs {
        msaa_view_rid: 1,
        resolve_view_rid: 2,
        draw_calls: vec![dc],
        depth_view_rid: Some(3),
        depth_clear_bits: None,
        depth_store_op: Some("discard".to_string()),
        color_store_op: None,
        clear_color_bits: None,
    };
    let p = plan_xr_pass(&args);
    let d = p.depth.unwrap();
    assert_eq!(d.view_rid, 3);
    assert_eq!(d.depth_load, LoadOp::Clear(DEPTH_CLEAR_ONE_BITS));
    assert_eq!(d.depth_store, StoreOp::Discard);
    assert_eq!(d.stencil.unwrap().load, LoadOp::Clear(5));
    assert_eq!(p.color_load, LoadOp::Load);
    assert_eq!(p.color_store, StoreOp::Store);
}

#[test]
fn texture_pass_applies_scissor() {
    let mut dc = call(1);
    dc.scissor_rect = Some([0, 0, 8, 8]);
    let p = plan_texture_pass(&vec![dc]);
    assert_eq!(p.draws[0].scissor_rect, Some([0, 0, 8, 8]));
    assert!(p.depth.is_none());
}

#[test]
fn multi_draw_pass_plan() {
    let args = MultiDrawIndexedIndirectArgs {
        depth_view_rid: Some(4),
        depth_clear_bits: None,
        target_view_rid: Some(5),
        clear_color_bits: Some((1, 1, 1, 1)),
        pipeline_rid: 1,
        vertex_buffer_rids: vec![2],
        bind_group_rids: vec![None, Some(6)],
        index_buffer_rid: 3,
        index_format: "uint16".to_string(),
        indirect_buffer_rid: 7,
        indirect_offset: 0,
        count: 2,
    };
    let p = plan_multi_draw(&args);
    assert_eq!(p.color, Some((5, LoadOp::Clear((1, 1, 1, 1)))));
    assert_eq!(p.depth, Some((4, DEPTH_CLEAR_ONE_BITS)));
    assert_eq!(p.bind_groups, vec![(1, 6)]);
    assert_eq!(p.index_format, IndexFormat::Uint16);
}

#[test]
fn draw_ranges_past_u32_do_not_fit() {
    let mut ok = call(1);
    ok.vertex_count = 3;
    ok.first_vertex = u32::MAX - 3;
    assert!(draws_fit(&vec![ok.clone()], DrawPath::Direct));
    let mut bad = call(2);
    bad.vertex_count = 3;
    bad.first_vertex = u32::MAX - 2;
    assert!(!draws_fit(&vec![ok.clone(), bad.clone()], DrawPath::Direct));
    let mut idx = call(3);
    idx.index_buffer_rid = Some(4);
    idx.index_count = 2;
    idx.first_index = u32::MAX;
    assert!(!draws_fit(&vec![idx.clone()], DrawPath::Direct));
    idx.index_count = 0;
    assert!(draws_fit(&vec![idx], DrawPath::Direct));
    assert!(draws_fit(&vec![], DrawPath::Direct));
}

#[test]
fn surface_frames_step_by_step() {
    let mut f = SurfaceFacts { has_calls: false, resources_resolve: true, has_surface: false, acquired: None, depth_fits: None };
    assert_eq!(surface_step(&f), SurfaceStep::Skip);
    f.has_calls = true;
    f.resources_resolve = false;
    f.has_surface = true;
    assert_eq!(surface_step(&f), SurfaceStep::Skip);
    f.resources_resolve = true;
    f.has_surface = false;
    assert_eq!(surface_step(&f), SurfaceStep::Fail(SurfaceFrameError::NoSurface));
    f.has_surface = true;
    assert_eq!(surface_step(&f), SurfaceStep::Acquire);
    f.acquired = Some(SurfaceAcquire::OutOfMemory);
    assert_eq!(surface_step(&f), SurfaceStep::Fail(SurfaceFrameError::OutOfMemory));
    f.acquired = Some(SurfaceAcquire::Timeout);
    assert_eq!(surface_step(&f), SurfaceStep::Skip);
    f.acquired = Some(SurfaceAcquire::Ready { width: 0, height: 600 });
    assert_eq!(surface_step(&f), SurfaceStep::Skip);
    f.acquired = Some(SurfaceAcquire::Ready { width: 800, height: 600 });
    assert_eq!(surface_step(&f), SurfaceStep::CheckDepth);
    f.depth_fits = Some(false);
    assert_eq!(surface_step(&f), SurfaceStep::PresentOnly);
    f.depth_fits = Some(true);
    assert_eq!(surface_step(&f), SurfaceStep::Render);
    assert_eq!(SurfaceFrameError::NoSurface.message(), "No surface in XR mode");
    assert_eq!(SurfaceFrameError::OutOfMemory.message(), "GPU out of memory");
}

#[test]
fn empty_passes_record_nothing() {
    assert_eq!(pass_step(&vec![]), PassStep::Nothing);
    assert_eq!(pass_step(&vec![call(1)]), PassStep::Record);
}
