//! The XR session as a state machine: session lifecycle events, the
//! per-frame begin/end protocol, swapchain image bookkeeping and the
//! handshake with the thread that blocks on the runtime's frame wait.
//!
//! The runtime calls themselves are made by the host; these functions decide
//! what to call and keep the state consistent with what was called.

use vstd::prelude::*;
use vstd::string::StringExecFns;

verus! {

/// Session lifecycle states reported by the XR runtime.
#[derive(Clone, Copy, Debug, PartialEq, Eq, Structural)]
pub enum SessionState {
    Unknown,
    Idle,
    Ready,
    Synchronized,
    Visible,
    Focused,
    Stopping,
    LossPending,
    Exiting,
}

/// What the host must do after a session state change.
#[derive(Clone, Copy, Debug, PartialEq, Eq, Structural)]
pub enum SessionAction {
    /// Nothing to do.
    Nothing,
    /// Begin the session with the stereo view configuration.
    Begin,
    /// Stop the frame-wait thread and end the session.
    End,
    /// Stop the frame-wait thread and terminate the process.
    Exit,
}

/// Errors of the XR ops.
#[derive(Clone, Debug, PartialEq, Eq)]
pub enum XrError {
    /// Handedness other than 0 (left) or 1 (right).
    InvalidHandedness,
    /// No frame has been begun.
    NoFrameState,
    /// No swapchain image is acquired.
    NoImageAcquired,
    /// The per-image texture views were never created.
    ViewsNotInitialized,
    /// The acquired image index has no views.
    InvalidSwapchainIndex,
    /// The eye index is not 0 or 1.
    InvalidViewIndex,
    /// The frame wait has not produced a result yet.
    FrameWaitNotComplete,
    /// The frame wait failed with the runtime's message.
    WaitFailed(String),
    /// No XR session exists.
    NoSession,
}

/// The text an XR error is reported with; a failed wait keeps the runtime's message.
pub open spec fn xr_error_message_spec(e: XrError) -> Seq<char> {
    match e {
        XrError::InvalidHandedness => "Invalid handedness (0=left, 1=right)"@,
        XrError::NoFrameState => "No frame state"@,
        XrError::NoImageAcquired => "No swapchain image acquired"@,
        XrError::ViewsNotInitialized => "Swapchain views not initialized"@,
        XrError::InvalidSwapchainIndex => "Invalid swapchain index"@,
        XrError::InvalidViewIndex => "Invalid view index (must be 0 or 1)"@,
        XrError::FrameWaitNotComplete => "Frame wait not complete"@,
        XrError::WaitFailed(m) => m@,
        XrError::NoSession => "No XR session"@,
    }
}

impl XrError {
    /// The text an XR error is reported with.
    pub fn message(&self) -> (r: String)
        ensures
            r@ == xr_error_message_spec(*self),
    {
        match self {
            XrError::InvalidHandedness => String::from_str("Invalid handedness (0=left, 1=right)"),
            XrError::NoFrameState => String::from_str("No frame state"),
            XrError::NoImageAcquired => String::from_str("No swapchain image acquired"),
            XrError::ViewsNotInitialized => String::from_str("Swapchain views not initialized"),
            XrError::InvalidSwapchainIndex => String::from_str("Invalid swapchain index"),
            XrError::InvalidViewIndex => String::from_str("Invalid view index (must be 0 or 1)"),
            XrError::FrameWaitNotComplete => String::from_str("Frame wait not complete"),
            XrError::WaitFailed(m) => m.clone(),
            XrError::NoSession => String::from_str("No XR session"),
        }
    }
}

/// Timing of a frame as the runtime predicts it.
#[derive(Clone, Copy, Debug, PartialEq, Eq, Structural)]
pub struct FrameTiming {
    pub predicted_display_time: i64,
    pub should_render: bool,
}

/// Frame state handed to scripts.
#[derive(Clone, Copy, Debug, PartialEq, Eq, Structural)]
pub struct XrFrameState {
    pub predicted_display_time: i64,
    pub should_render: bool,
}

/// The acquired swapchain image: one texture with a layer per eye.
#[derive(Clone, Copy, Debug, PartialEq, Eq, Structural)]
pub struct XrSwapchainTextureInfo {
    pub index: u32,
    pub width: u32,
    pub height: u32,
    pub array_layers: u32,
}

/// What scripts learn about a new session.
#[derive(Clone, Debug)]
pub struct XrSessionInfo {
    pub width: u32,
    pub height: u32,
    pub sample_count: u32,
    pub format: String,
    pub swapchain_length: u32,
}

/// The host's view of a session.
#[derive(Clone, Debug)]
pub struct XrSessionModel {
    pub running: bool,
    pub state: SessionState,
    /// The frame begun and not yet ended.
    pub frame: Option<FrameTiming>,
    /// The runtime located the eye views for the current frame.
    pub views_cached: bool,
    pub swapchain_index: Option<u32>,
    pub render_width: u32,
    pub render_height: u32,
}

/// A new session has the swapchain's size and one sample per texel; its
/// colour format is sRGB RGBA8.
pub fn session_info(width: u32, height: u32, swapchain_length: u32) -> (r: XrSessionInfo)
    ensures
        r.width == width,
        r.height == height,
        r.sample_count == 1,
        r.format@ == "rgba8unorm-srgb"@,
        r.swapchain_length == swapchain_length,
{
    XrSessionInfo {
        width,
        height,
        sample_count: 1,
        format: crate::text::owned("rgba8unorm-srgb"),
        swapchain_length,
    }
}

/// What a frame begin hands back, short of the poses: the frame state, and
/// whether the eye views are located, the controllers read and a swapchain
/// image acquired as part of it.
#[derive(Clone, Copy, Debug, PartialEq, Eq, Structural)]
pub struct FrameBeginPlan {
    pub frame_state: XrFrameState,
    pub locate_views: bool,
    pub read_inputs: bool,
    pub acquire_image: bool,
}

/// The answer for a frame that is not rendered: its state and nothing else.
pub open spec fn empty_begin(fs: XrFrameState) -> FrameBeginPlan {
    FrameBeginPlan { frame_state: fs, locate_views: false, read_inputs: false, acquire_image: false }
}

/// Starting a frame begin: refused without a session; a session that is
/// not running answers at once with a frame that is not rendered, at time
/// 0; a running one waits for the runtime's frame (`None`).
pub fn frame_begin_start(session: Option<&XrSessionModel>) -> (r: Result<Option<FrameBeginPlan>, XrError>)
    ensures
        session is None ==> r == Err::<Option<FrameBeginPlan>, XrError>(XrError::NoSession),
        session matches Some(m) && !m.running ==> r == Ok::<Option<FrameBeginPlan>, XrError>(
            Some(empty_begin(XrFrameState { predicted_display_time: 0, should_render: false }))),
        session matches Some(m) && m.running ==> r == Ok::<Option<FrameBeginPlan>, XrError>(None),
{
    match session {
        None => Err(XrError::NoSession),
        Some(m) => if !m.running {
            Ok(Some(FrameBeginPlan {
                frame_state: XrFrameState { predicted_display_time: 0, should_render: false },
                locate_views: false,
                read_inputs: false,
                acquire_image: false,
            }))
        } else {
            Ok(None)
        },
    }
}

/// Once the frame is begun: a frame that should be rendered locates the
/// views, reads the controllers and acquires an image; one that should not
/// is answered with its state alone.
pub fn frame_begin_plan(fs: XrFrameState) -> (r: FrameBeginPlan)
    ensures
        r.frame_state == fs,
        r.locate_views == fs.should_render,
        r.read_inputs == fs.should_render,
        r.acquire_image == fs.should_render,
{
    FrameBeginPlan {
        frame_state: fs,
        locate_views: fs.should_render,
        read_inputs: fs.should_render,
        acquire_image: fs.should_render,
    }
}

/// XR is active exactly while a session is installed.
pub open spec fn xr_active_spec(session: Option<XrSessionModel>) -> bool {
    session is Some
}

/// Whether an XR session exists.
pub fn is_xr_active(session: &Option<XrSessionModel>) -> (r: bool)
    ensures
        r == xr_active_spec(*session),
{
    session.is_some()
}

/// Before any init, and after a failed one, no session is installed and XR
/// is inactive; a successful init installs a fresh session, after which XR
/// is active.
pub proof fn lemma_active_after_init(w: u32, h: u32, m: XrSessionModel)
    requires
        !m.running && m.frame is None && m.render_width == w && m.render_height == h,
    ensures
        !xr_active_spec(None),
        xr_active_spec(Some(m)),
{
}

/// The action a state change asks for.
pub open spec fn action_for(s: SessionState) -> SessionAction {
    match s {
        SessionState::Ready => SessionAction::Begin,
        SessionState::Stopping => SessionAction::End,
        SessionState::Exiting | SessionState::LossPending => SessionAction::Exit,
        _ => SessionAction::Nothing,
    }
}

/// A session in one of these states is over.
pub open spec fn is_ending(s: SessionState) -> bool {
    s == SessionState::Exiting || s == SessionState::LossPending
}

impl XrSessionModel {
    /// A freshly created session: idle, not running, no frame.
    pub fn new(render_width: u32, render_height: u32) -> (m: Self)
        ensures
            !m.running,
            m.state == SessionState::Unknown,
            m.frame is None,
            !m.views_cached,
            m.swapchain_index is None,
            m.render_width == render_width,
            m.render_height == render_height,
    {
        XrSessionModel {
            running: false,
            state: SessionState::Unknown,
            frame: None,
            views_cached: false,
            swapchain_index: None,
            render_width,
            render_height,
        }
    }

    /// Records a state change and says what the host must do about it.
    pub fn on_state_changed(&mut self, s: SessionState) -> (a: SessionAction)
        ensures
            a == action_for(s),
            final(self).state == s,
            final(self).running == old(self).running,
            final(self).frame == old(self).frame,
            final(self).swapchain_index == old(self).swapchain_index,
            final(self).views_cached == old(self).views_cached,
            final(self).render_width == old(self).render_width,
            final(self).render_height == old(self).render_height,
    {
        self.state = s;
        match s {
            SessionState::Ready => SessionAction::Begin,
            SessionState::Stopping => SessionAction::End,
            SessionState::Exiting | SessionState::LossPending => SessionAction::Exit,
            _ => SessionAction::Nothing,
        }
    }

    /// Records that the action of a state change was carried out.
    pub fn action_done(&mut self, a: SessionAction)
        ensures
            final(self).running == (match a {
                SessionAction::Begin => true,
                SessionAction::End => false,
                _ => old(self).running,
            }),
            final(self).state == old(self).state,
            final(self).frame == old(self).frame,
            final(self).swapchain_index == old(self).swapchain_index,
            final(self).views_cached == old(self).views_cached,
            final(self).render_width == old(self).render_width,
            final(self).render_height == old(self).render_height,
    {
        match a {
            SessionAction::Begin => { self.running = true; },
            SessionAction::End => { self.running = false; },
            _ => {},
        }
    }

    /// What polling events reports: whether the session goes on.
    pub fn still_alive(&self) -> (r: bool)
        ensures
            r == !is_ending(self.state),
    {
        match self.state {
            SessionState::Exiting | SessionState::LossPending => false,
            _ => true,
        }
    }

    /// Records a frame begun after the runtime's frame wait. A frame that
    /// should be rendered goes on to locate views and acquire an image; one
    /// that should not returns minimal data.
    pub fn frame_begun(&mut self, t: FrameTiming) -> (r: XrFrameState)
        ensures
            final(self).frame == Some(t),
            r.predicted_display_time == t.predicted_display_time,
            r.should_render == t.should_render,
            final(self).running == old(self).running,
            final(self).state == old(self).state,
            final(self).views_cached == old(self).views_cached,
            final(self).swapchain_index == old(self).swapchain_index,
            final(self).render_width == old(self).render_width,
            final(self).render_height == old(self).render_height,
    {
        self.frame = Some(t);
        XrFrameState { predicted_display_time: t.predicted_display_time, should_render: t.should_render }
    }

    /// Records that the eye views of the current frame were located.
    pub fn views_located(&mut self)
        ensures
            final(self).views_cached,
            final(self).running == old(self).running,
            final(self).state == old(self).state,
            final(self).frame == old(self).frame,
            final(self).swapchain_index == old(self).swapchain_index,
            final(self).render_width == old(self).render_width,
            final(self).render_height == old(self).render_height,
    {
        self.views_cached = true;
    }

    /// Records an acquired swapchain image and describes it: two layers, one per eye.
    pub fn image_acquired(&mut self, index: u32) -> (r: XrSwapchainTextureInfo)
        ensures
            final(self).swapchain_index == Some(index),
            r == (XrSwapchainTextureInfo { index, width: old(self).render_width,
                height: old(self).render_height, array_layers: 2 }),
            final(self).running == old(self).running,
            final(self).state == old(self).state,
            final(self).frame == old(self).frame,
            final(self).views_cached == old(self).views_cached,
            final(self).render_width == old(self).render_width,
            final(self).render_height == old(self).render_height,
    {
        self.swapchain_index = Some(index);
        XrSwapchainTextureInfo { index, width: self.render_width, height: self.render_height, array_layers: 2 }
    }

    /// Records that the acquired image was released.
    pub fn image_released(&mut self)
        ensures
            final(self).swapchain_index is None,
            final(self).running == old(self).running,
            final(self).state == old(self).state,
            final(self).frame == old(self).frame,
            final(self).views_cached == old(self).views_cached,
            final(self).render_width == old(self).render_width,
            final(self).render_height == old(self).render_height,
    {
        self.swapchain_index = None;
    }

    /// Ends the current frame. `poses_valid` says whether every located view
    /// has a unit orientation. The frame carries the projection layer only
    /// when it should be rendered, its views were located and every pose is
    /// valid; otherwise it is submitted empty. Either way the frame and its
    /// views are consumed.
    pub fn end_frame(&mut self, poses_valid: bool) -> (r: Result<EndFramePlan, XrError>)
        ensures
            old(self).frame is None ==> r == Err::<EndFramePlan, XrError>(XrError::NoFrameState)
                && *final(self) == *old(self),
            old(self).frame matches Some(t) ==> {
                &&& final(self).frame is None
                &&& !final(self).views_cached
                &&& r == Ok::<EndFramePlan, XrError>(EndFramePlan {
                    display_time: t.predicted_display_time,
                    projection: if t.should_render && old(self).views_cached && poses_valid {
                        Some((old(self).render_width, old(self).render_height))
                    } else {
                        None
                    },
                })
                &&& final(self).running == old(self).running
                &&& final(self).state == old(self).state
                &&& final(self).swapchain_index == old(self).swapchain_index
                &&& final(self).render_width == old(self).render_width
                &&& final(self).render_height == old(self).render_height
            },
    {
        match self.frame {
            None => Err(XrError::NoFrameState),
            Some(t) => {
                self.frame = None;
                let had_views = self.views_cached;
                self.views_cached = false;
                let projection = if t.should_render && had_views && poses_valid {
                    Some((self.render_width, self.render_height))
                } else {
                    None
                };
                Ok(EndFramePlan { display_time: t.predicted_display_time, projection })
            },
        }
    }

    /// Whether ending the session asks the runtime to exit: only a running session does.
    pub fn end_session_requests_exit(&self) -> (r: bool)
        ensures
            r == self.running,
    {
        self.running
    }
}

/// How a frame is submitted: at its display time, with a projection layer
/// of (width, height) per eye or empty.
#[derive(Clone, Copy, Debug)]
pub struct EndFramePlan {
    pub display_time: i64,
    pub projection: Option<(u32, u32)>,
}

/// Which controller a haptic op addresses.
#[derive(Clone, Copy, Debug, PartialEq, Eq, Structural)]
pub enum Hand {
    Left,
    Right,
}

/// Reads a handedness number: 0 is left, 1 is right, anything else is refused.
pub fn haptic_hand(handedness: u32) -> (r: Result<Hand, XrError>)
    ensures
        handedness == 0 ==> r == Ok::<Hand, XrError>(Hand::Left),
        handedness == 1 ==> r == Ok::<Hand, XrError>(Hand::Right),
        handedness > 1 ==> r == Err::<Hand, XrError>(XrError::InvalidHandedness),
{
    match handedness {
        0 => Ok(Hand::Left),
        1 => Ok(Hand::Right),
        _ => Err(XrError::InvalidHandedness),
    }
}

/// Locates the texture view for one eye of the acquired image, given how
/// many images have views (`None` when the views were never created).
pub fn swapchain_view_slot(acquired: Option<u32>, image_count: Option<usize>, view_index: u32)
    -> (r: Result<(usize, usize), XrError>)
    ensures
        acquired is None ==> r == Err::<(usize, usize), XrError>(XrError::NoImageAcquired),
        acquired is Some && image_count is None ==> r == Err::<(usize, usize), XrError>(XrError::ViewsNotInitialized),
        (match (acquired, image_count) {
            (Some(i), Some(n)) => {
                &&& i >= n ==> r == Err::<(usize, usize), XrError>(XrError::InvalidSwapchainIndex)
                &&& i < n && view_index >= 2 ==> r == Err::<(usize, usize), XrError>(XrError::InvalidViewIndex)
                &&& i < n && view_index < 2 ==> r == Ok::<(usize, usize), XrError>((i as usize, view_index as usize))
            },
            _ => true,
        }),
{
    let i = match acquired {
        Some(i) => i,
        None => return Err(XrError::NoImageAcquired),
    };
    let n = match image_count {
        Some(n) => n,
        None => return Err(XrError::ViewsNotInitialized),
    };
    if (i as u64) >= (n as u64) {
        return Err(XrError::InvalidSwapchainIndex);
    }
    if view_index >= 2 {
        return Err(XrError::InvalidViewIndex);
    }
    Ok((i as usize, view_index as usize))
}

// ----------------------------------------------------------------------------
// Frame-wait handshake
// ----------------------------------------------------------------------------

/// What starting a frame wait asks the host to do.
#[derive(Clone, Copy, Debug, PartialEq, Eq, Structural)]
pub enum WaitStart {
    /// Nothing: the wait is refused (the op answers false).
    Refused,
    /// Signal the existing worker thread.
    Signal,
    /// Spawn the worker thread, then signal it.
    SpawnThenSignal,
}

/// Shared state between script ops and the thread that blocks on the
/// runtime's frame wait.
#[derive(Clone, Debug)]
pub struct FrameWaitState {
    /// The worker thread exists.
    pub worker: bool,
    /// A wait has been requested and its outcome is not yet published.
    pub requested: bool,
    /// A result is published and not yet consumed.
    pub ready: bool,
    pub result: Option<Result<FrameTiming, String>>,
}

/// The handshake's invariant: a result is ready exactly when one is published.
pub open spec fn wait_wf(w: FrameWaitState) -> bool {
    w.ready <==> w.result is Some
}

impl FrameWaitState {
    /// No worker, nothing requested, nothing ready.
    pub fn new() -> (w: Self)
        ensures
            wait_wf(w),
            !w.worker,
            !w.requested,
            !w.ready,
    {
        FrameWaitState { worker: false, requested: false, ready: false, result: None }
    }

    /// Asks the worker to start waiting. Refused when the session is not
    /// running, when a wait is already in progress, or when a previous
    /// result is still unconsumed; otherwise the worker is signalled, and
    /// spawned first when there is none yet.
    pub fn start(&mut self, session_running: bool) -> (r: WaitStart)
        requires
            wait_wf(*old(self)),
        ensures
            wait_wf(*final(self)),
            (r != WaitStart::Refused) == (session_running && !old(self).ready && !old(self).requested),
            r == WaitStart::Refused ==> *final(self) == *old(self),
            r != WaitStart::Refused ==> final(self).worker && final(self).requested
                && r == (if old(self).worker { WaitStart::Signal } else { WaitStart::SpawnThenSignal }),
            final(self).ready == old(self).ready,
            final(self).result == old(self).result,
    {
        if !session_running || self.ready || self.requested {
            return WaitStart::Refused;
        }
        let had_worker = self.worker;
        self.worker = true;
        self.requested = true;
        if had_worker { WaitStart::Signal } else { WaitStart::SpawnThenSignal }
    }

    /// Polls for completion.
    pub fn poll(&self) -> (r: bool)
        ensures
            r == self.ready,
    {
        self.ready
    }

    /// The worker picks up a request and publishes the wait's outcome.
    pub fn publish(&mut self, outcome: Result<FrameTiming, String>)
        requires
            wait_wf(*old(self)),
        ensures
            wait_wf(*final(self)),
            *final(self) == publish_spec(*old(self), outcome),
    {
        self.requested = false;
        self.result = Some(outcome);
        self.ready = true;
    }

    /// Consumes the published outcome; refused while none is published.
    pub fn finish(&mut self) -> (r: Result<FrameTiming, XrError>)
        requires
            wait_wf(*old(self)),
        ensures
            wait_wf(*final(self)),
            (*final(self), r) == finish_spec(*old(self)),
    {
        match self.result.take() {
            None => Err(XrError::FrameWaitNotComplete),
            Some(o) => {
                self.ready = false;
                match o {
                    Ok(t) => Ok(t),
                    Err(m) => Err(XrError::WaitFailed(m)),
                }
            },
        }
    }

    /// Stops the worker (on session end or exit); a wait in progress is
    /// abandoned, and an unconsumed result stays. Stopping twice changes
    /// nothing more.
    pub fn shutdown(&mut self)
        requires
            wait_wf(*old(self)),
        ensures
            wait_wf(*final(self)),
            *final(self) == shutdown_spec(*old(self)),
    {
        self.worker = false;
        self.requested = false;
    }
}

/// The state after the worker is stopped: no worker, no wait in progress,
/// the published result kept.
pub open spec fn shutdown_spec(w: FrameWaitState) -> FrameWaitState {
    FrameWaitState { worker: false, requested: false, ready: w.ready, result: w.result }
}

/// The state after the worker publishes an outcome: ready, with the
/// outcome, and the request picked up.
pub open spec fn publish_spec(w: FrameWaitState, o: Result<FrameTiming, String>) -> FrameWaitState {
    FrameWaitState { worker: w.worker, requested: false, ready: true, result: Some(o) }
}

/// Consuming the published outcome: nothing ready afterwards; refused,
/// with the state unchanged, when nothing is published.
pub open spec fn finish_spec(w: FrameWaitState) -> (FrameWaitState, Result<FrameTiming, XrError>) {
    match w.result {
        None => (w, Err(XrError::FrameWaitNotComplete)),
        Some(o) => (
            FrameWaitState { worker: w.worker, requested: w.requested, ready: false, result: None },
            match o {
                Ok(t) => Ok(t),
                Err(m) => Err(XrError::WaitFailed(m)),
            },
        ),
    }
}

/// A published outcome is handed back by the next finish, exactly once:
/// the finish returns it and leaves nothing ready, so a second finish is
/// refused and a new wait may start.
pub proof fn lemma_publish_then_finish(w: FrameWaitState, o: Result<FrameTiming, String>)
    ensures
        finish_spec(publish_spec(w, o)).1 == (match o {
            Ok(t) => Ok::<FrameTiming, XrError>(t),
            Err(m) => Err::<FrameTiming, XrError>(XrError::WaitFailed(m)),
        }),
        !finish_spec(publish_spec(w, o)).0.ready,
        finish_spec(finish_spec(publish_spec(w, o)).0).1 == Err::<FrameTiming, XrError>(XrError::FrameWaitNotComplete),
{
}

} // verus!
