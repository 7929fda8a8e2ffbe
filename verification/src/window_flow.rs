//! What the viewer does on window events that drive drawing: focus and
//! occlusion changes, and a redraw request with the frame that follows it.
use vstd::prelude::*;
use crate::redraw_scheduler::{RedrawScheduler, RedrawView, MAX_FRAMES_IN_FLIGHT, spec_request_redraw, spec_try_begin_frame, spec_cancel_frame, redraw_wf};
use crate::render_plan::{RenderStatus, SurfaceLost};
use crate::scene::{SceneType, should_request_redraw};

verus! {

/// What to do after the window gains or loses focus or visibility.
#[derive(Debug, Clone, Copy, PartialEq, Eq, Structural)]
pub enum VisibilityAction {
    /// Restart the frame clock and ask for a redraw (if the scheduler lets it through).
    Resume { request_redraw: bool },
    /// Stop drawing; `poll_gpu` says whether to give the GPU a chance to
    /// finish queued work (done on native targets, not in a browser, where
    /// the browser drives the device).
    Pause { poll_gpu: bool },
}

/// Whether the window may be drawn: it has focus and is not hidden; and
/// whether it lives in a browser page.
#[derive(Debug, Clone, Copy, PartialEq, Eq, Structural)]
pub struct WindowState {
    pub is_focused: bool,
    pub is_occluded: bool,
    pub on_web: bool,
}

impl WindowState {
    /// A new window: focused and visible.
    pub fn new(on_web: bool) -> (r: WindowState)
        ensures
            r == (WindowState { is_focused: true, is_occluded: false, on_web }),
    {
        WindowState { is_focused: true, is_occluded: false, on_web }
    }

    /// Whether a redraw request leads to drawing at all.
    pub fn can_draw(&self) -> (r: bool)
        ensures
            r == (self.is_focused && !self.is_occluded),
    {
        self.is_focused && !self.is_occluded
    }

    /// The window gained or lost focus.
    pub fn set_focused(&mut self, focused: bool, scheduler: &mut RedrawScheduler) -> (r: VisibilityAction)
        ensures
            *final(self) == (WindowState { is_focused: focused, ..*old(self) }),
            focused ==> r == (VisibilityAction::Resume { request_redraw: spec_request_redraw(old(scheduler)@).1 })
                && final(scheduler)@ == spec_request_redraw(old(scheduler)@).0,
            !focused ==> r == (VisibilityAction::Pause { poll_gpu: !old(self).on_web })
                && final(scheduler)@ == old(scheduler)@,
    {
        self.is_focused = focused;
        if focused {
            let request = scheduler.request_redraw();
            VisibilityAction::Resume { request_redraw: request }
        } else {
            VisibilityAction::Pause { poll_gpu: !self.on_web }
        }
    }

    /// The window became hidden or visible again.
    pub fn set_occluded(&mut self, occluded: bool, scheduler: &mut RedrawScheduler) -> (r: VisibilityAction)
        ensures
            *final(self) == (WindowState { is_occluded: occluded, ..*old(self) }),
            !occluded ==> r == (VisibilityAction::Resume { request_redraw: spec_request_redraw(old(scheduler)@).1 })
                && final(scheduler)@ == spec_request_redraw(old(scheduler)@).0,
            occluded ==> r == (VisibilityAction::Pause { poll_gpu: !old(self).on_web })
                && final(scheduler)@ == old(scheduler)@,
    {
        self.is_occluded = occluded;
        if !occluded {
            let request = scheduler.request_redraw();
            VisibilityAction::Resume { request_redraw: request }
        } else {
            VisibilityAction::Pause { poll_gpu: !self.on_web }
        }
    }
}

/// How a drawn frame ends.
#[derive(Debug, Clone, Copy, PartialEq, Eq, Structural)]
pub struct FrameEnd {
    /// Ask the window for another redraw now.
    pub request_redraw: bool,
    /// The surface is lost: leave the event loop.
    pub exit: bool,
}

/// Starts handling a redraw request: whether to update and render a frame.
/// Nothing is drawn while the window is unfocused or hidden, nor when the
/// scheduler refuses the frame (it then remembers the request).
pub fn begin_redraw(window: &WindowState, scheduler: &mut RedrawScheduler) -> (draw: bool)
    ensures
        !(window.is_focused && !window.is_occluded) ==> !draw && final(scheduler)@ == old(scheduler)@,
        (window.is_focused && !window.is_occluded) ==> (final(scheduler)@, draw) == spec_try_begin_frame(old(scheduler)@),
{
    if !window.can_draw() {
        return false;
    }
    scheduler.try_begin_frame()
}

/// The abandoned-frame bookkeeping, then the follow-up request.
pub open spec fn spec_end_redraw(s: RedrawView, outcome: Result<RenderStatus, SurfaceLost>, camera_active: bool, scene_type: SceneType) -> (RedrawView, FrameEnd) {
    match outcome {
        Ok(RenderStatus::Submitted) => {
            if camera_active || scene_type == SceneType::Gaussian4d {
                let (s2, req) = spec_request_redraw(s);
                (s2, FrameEnd { request_redraw: req, exit: false })
            } else {
                (s, FrameEnd { request_redraw: false, exit: false })
            }
        },
        Ok(RenderStatus::Skipped) => {
            let (s1, req1) = spec_cancel_frame(s);
            if camera_active || scene_type == SceneType::Gaussian4d {
                let (s2, req2) = spec_request_redraw(s1);
                (s2, FrameEnd { request_redraw: req1 || req2, exit: false })
            } else {
                (s1, FrameEnd { request_redraw: req1, exit: false })
            }
        },
        Err(_) => {
            let (s1, req1) = spec_cancel_frame(s);
            (s1, FrameEnd { request_redraw: req1, exit: true })
        },
    }
}

/// Finishes handling a redraw request once the frame was rendered: a
/// skipped or failed frame is abandoned, a lost surface ends the loop, and
/// otherwise another redraw is asked for while the camera moves or the
/// scene animates.
pub fn end_redraw(
    scheduler: &mut RedrawScheduler,
    outcome: Result<RenderStatus, SurfaceLost>,
    camera_active: bool,
    scene_type: SceneType,
) -> (r: FrameEnd)
    ensures
        (final(scheduler)@, r) == spec_end_redraw(old(scheduler)@, outcome, camera_active, scene_type),
{
    let mut request = false;
    match outcome {
        Ok(RenderStatus::Submitted) => {},
        Ok(RenderStatus::Skipped) => {
            request = scheduler.cancel_frame();
        },
        Err(_) => {
            let r = scheduler.cancel_frame();
            return FrameEnd { request_redraw: r, exit: true };
        },
    }
    if should_request_redraw(camera_active, scene_type) {
        let r = scheduler.request_redraw();
        request = request || r;
    }
    FrameEnd { request_redraw: request, exit: false }
}

/// On a paced target a frame that is skipped or fails gives its slot back,
/// while a frame that was submitted keeps it until the GPU reports it done.
pub proof fn lemma_failed_frame_releases_slot(s: RedrawView, camera_active: bool, scene_type: SceneType)
    requires
        redraw_wf(s),
        s.throttled,
        spec_try_begin_frame(s).1,
    ensures
        spec_end_redraw(spec_try_begin_frame(s).0, Err(SurfaceLost), camera_active, scene_type).0.frames_in_flight == s.frames_in_flight,
        spec_end_redraw(spec_try_begin_frame(s).0, Ok(RenderStatus::Skipped), camera_active, scene_type).0.frames_in_flight == s.frames_in_flight,
        spec_end_redraw(spec_try_begin_frame(s).0, Ok(RenderStatus::Submitted), false, SceneType::Gaussian3d).0.frames_in_flight == s.frames_in_flight + 1,
{
}

/// After a frame is drawn or skipped, a follow-up redraw is asked for
/// exactly while the camera moves or the scene is dynamic, and it is never
/// lost: on an unpaced scheduler it is requested at once; on a paced one it
/// is requested at once or left pending for the frame in flight to issue.
/// With a still camera over a static scene, a submitted frame asks for
/// nothing and leaves the scheduler as it was.
pub proof fn lemma_follow_up_redraw(s: RedrawView, submitted: bool, camera_active: bool, scene_type: SceneType)
    requires
        redraw_wf(s),
    ensures
        ({
            let outcome = if submitted { Ok(RenderStatus::Submitted) } else { Ok(RenderStatus::Skipped) };
            let (t, end) = spec_end_redraw(s, outcome, camera_active, scene_type);
            &&& !end.exit
            &&& (camera_active || scene_type == SceneType::Gaussian4d) ==> (end.request_redraw || t.redraw_pending)
            &&& (camera_active || scene_type == SceneType::Gaussian4d) && !s.throttled ==> end.request_redraw
            &&& (camera_active || scene_type == SceneType::Gaussian4d) && submitted && s.throttled
                ==> t.frames_in_flight == s.frames_in_flight
                && end.request_redraw == (s.frames_in_flight < MAX_FRAMES_IN_FLIGHT)
                && t.redraw_pending == (s.redraw_pending || s.frames_in_flight >= MAX_FRAMES_IN_FLIGHT)
            &&& !(camera_active || scene_type == SceneType::Gaussian4d) && submitted
                ==> t == s && !end.request_redraw
        }),
{
}

} // verus!
