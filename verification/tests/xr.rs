use lattice::xr_session::{
    frame_begin_plan, frame_begin_start, FrameBeginPlan, WaitStart, XrFrameState, haptic_hand, is_xr_active, session_info, swapchain_view_slot, FrameTiming, FrameWaitState,
    Hand, SessionAction, SessionState, XrError, XrSessionModel, XrSwapchainTextureInfo,
};

#[test]
fn session_lifecycle_actions() {
    let mut m = XrSessionModel::new(1832, 1920);
    assert_eq!(m.on_state_changed(SessionState::Idle), SessionAction::Nothing);
    let a = m.on_state_changed(SessionState::Ready);
    assert_eq!(a, SessionAction::Begin);
    m.action_done(a);
    assert!(m.running);
    assert!(m.still_alive());
    let e = m.on_state_changed(SessionState::Stopping);
    assert_eq!(e, SessionAction::End);
    m.action_done(e);
    assert!(!m.running);
    assert_eq!(m.on_state_changed(SessionState::LossPending), SessionAction::Exit);
    assert!(!m.still_alive());
    assert_eq!(m.on_state_changed(SessionState::Exiting), SessionAction::Exit);
}

#[test]
fn frame_protocol() {
    let mut m = XrSessionModel::new(100, 50);
    let fs = m.frame_begun(FrameTiming { predicted_display_time: 42, should_render: true });
    assert_eq!(fs.predicted_display_time, 42);
    assert!(fs.should_render);
    m.views_located();
    let info = m.image_acquired(2);
    assert_eq!(info, XrSwapchainTextureInfo { index: 2, width: 100, height: 50, array_layers: 2 });
    let plan = m.end_frame(true).unwrap();
    assert_eq!(plan.display_time, 42);
    assert_eq!(plan.projection, Some((100, 50)));
    assert_eq!(m.end_frame(true).err(), Some(XrError::NoFrameState));
    m.image_released();
    assert_eq!(m.swapchain_index, None);
}

#[test]
fn frames_without_views_or_with_bad_poses_are_empty() {
    let mut m = XrSessionModel::new(10, 10);
    m.frame_begun(FrameTiming { predicted_display_time: 1, should_render: true });
    assert_eq!(m.end_frame(true).unwrap().projection, None);
    m.frame_begun(FrameTiming { predicted_display_time: 2, should_render: true });
    m.views_located();
    assert_eq!(m.end_frame(false).unwrap().projection, None);
    m.frame_begun(FrameTiming { predicted_display_time: 3, should_render: false });
    m.views_located();
    assert_eq!(m.end_frame(true).unwrap().projection, None);
    assert!(!m.views_cached);
}

#[test]
fn end_session_only_when_running() {
    let mut m = XrSessionModel::new(1, 1);
    assert!(!m.end_session_requests_exit());
    m.action_done(SessionAction::Begin);
    assert!(m.end_session_requests_exit());
    assert!(is_xr_active(&Some(m)));
    assert!(!is_xr_active(&None));
}

#[test]
fn haptics_by_hand() {
    assert_eq!(haptic_hand(0), Ok(Hand::Left));
    assert_eq!(haptic_hand(1), Ok(Hand::Right));
    assert_eq!(haptic_hand(2), Err(XrError::InvalidHandedness));
}

#[test]
fn swapchain_views() {
    assert_eq!(swapchain_view_slot(None, Some(3), 0), Err(XrError::NoImageAcquired));
    assert_eq!(swapchain_view_slot(Some(0), None, 0), Err(XrError::ViewsNotInitialized));
    assert_eq!(swapchain_view_slot(Some(3), Some(3), 0), Err(XrError::InvalidSwapchainIndex));
    assert_eq!(swapchain_view_slot(Some(1), Some(3), 2), Err(XrError::InvalidViewIndex));
    assert_eq!(swapchain_view_slot(Some(1), Some(3), 1), Ok((1, 1)));
}

#[test]
fn session_info_fields() {
    let i = session_info(1832, 1920, 3);
    assert_eq!((i.width, i.height, i.sample_count, i.swapchain_length), (1832, 1920, 1, 3));
    assert_eq!(i.format, "rgba8unorm-srgb");
}

#[test]
fn frame_wait_handshake() {
    let mut w = FrameWaitState::new();
    assert_eq!(w.start(false), WaitStart::Refused);
    assert!(!w.worker);
    assert_eq!(w.start(true), WaitStart::SpawnThenSignal);
    assert!(w.worker && w.requested);
    assert_eq!(w.start(true), WaitStart::Refused);
    assert!(w.requested);
    assert!(!w.poll());
    assert_eq!(w.finish(), Err(XrError::FrameWaitNotComplete));
    w.publish(Ok(FrameTiming { predicted_display_time: 7, should_render: true }));
    assert!(w.poll());
    assert_eq!(w.start(true), WaitStart::Refused);
    assert_eq!(w.finish(), Ok(FrameTiming { predicted_display_time: 7, should_render: true }));
    assert!(!w.poll());
    assert_eq!(w.finish(), Err(XrError::FrameWaitNotComplete));
    assert_eq!(w.start(true), WaitStart::Signal);
    w.publish(Err("lost".to_string()));
    assert_eq!(w.finish(), Err(XrError::WaitFailed("lost".to_string())));
    w.shutdown();
    assert!(!w.worker);
    assert_eq!(w.start(true), WaitStart::SpawnThenSignal);
    w.shutdown();
    assert!(!w.worker && !w.requested);
    assert_eq!(w.start(true), WaitStart::SpawnThenSignal);
    w.shutdown();
    w.shutdown();
    assert!(!w.worker && !w.requested && !w.ready);
}

#[test]
fn xr_errors_read_as_reported() {
    assert_eq!(XrError::InvalidHandedness.message(), "Invalid handedness (0=left, 1=right)");
    assert_eq!(XrError::NoFrameState.message(), "No frame state");
    assert_eq!(XrError::NoImageAcquired.message(), "No swapchain image acquired");
    assert_eq!(XrError::ViewsNotInitialized.message(), "Swapchain views not initialized");
    assert_eq!(XrError::InvalidSwapchainIndex.message(), "Invalid swapchain index");
    assert_eq!(XrError::InvalidViewIndex.message(), "Invalid view index (must be 0 or 1)");
    assert_eq!(XrError::FrameWaitNotComplete.message(), "Frame wait not complete");
    assert_eq!(XrError::WaitFailed("lost".to_string()).message(), "lost");
    assert_eq!(haptic_hand(2).unwrap_err().message(), "Invalid handedness (0=left, 1=right)");
}

#[test]
fn frame_begin_answers() {
    assert_eq!(frame_begin_start(None), Err(XrError::NoSession));
    assert_eq!(XrError::NoSession.message(), "No XR session");
    let mut m = XrSessionModel::new(100, 50);
    let idle = frame_begin_start(Some(&m)).unwrap().unwrap();
    assert_eq!(idle, FrameBeginPlan {
        frame_state: XrFrameState { predicted_display_time: 0, should_render: false },
        locate_views: false, read_inputs: false, acquire_image: false,
    });
    let a = m.on_state_changed(SessionState::Ready);
    m.action_done(a);
    assert_eq!(frame_begin_start(Some(&m)), Ok(None));
    let quiet = frame_begin_plan(XrFrameState { predicted_display_time: 9, should_render: false });
    assert!(!quiet.locate_views && !quiet.read_inputs && !quiet.acquire_image);
    let full = frame_begin_plan(XrFrameState { predicted_display_time: 9, should_render: true });
    assert!(full.locate_views && full.read_inputs && full.acquire_image);
    assert_eq!(full.frame_state.predicted_display_time, 9);
}
