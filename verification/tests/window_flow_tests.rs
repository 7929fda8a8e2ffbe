use splat_viewer::redraw_scheduler::RedrawScheduler;
use splat_viewer::render_plan::{RenderStatus, SurfaceLost};
use splat_viewer::scene::SceneType;
use splat_viewer::window_flow::{begin_redraw, end_redraw, FrameEnd, VisibilityAction, WindowState};

#[test]
fn hidden_or_unfocused_window_is_not_drawn() {
    let mut sched = RedrawScheduler::new(true);
    let mut window = WindowState::new(true);
    assert!(window.can_draw());
    assert_eq!(window.set_occluded(true, &mut sched), VisibilityAction::Pause { poll_gpu: false });
    assert!(!begin_redraw(&window, &mut sched));
    assert!(sched.can_begin_frame());
    assert_eq!(window.set_occluded(false, &mut sched), VisibilityAction::Resume { request_redraw: true });
    assert_eq!(window.set_focused(false, &mut sched), VisibilityAction::Pause { poll_gpu: false });
    assert!(!window.can_draw());
    assert_eq!(window.set_focused(true, &mut sched), VisibilityAction::Resume { request_redraw: true });
    assert!(begin_redraw(&window, &mut sched));
    assert!(!sched.can_begin_frame());
}

#[test]
fn submitted_static_frame_asks_for_nothing() {
    let mut sched = RedrawScheduler::new(true);
    let window = WindowState::new(true);
    assert!(begin_redraw(&window, &mut sched));
    let end = end_redraw(&mut sched, Ok(RenderStatus::Submitted), false, SceneType::Gaussian3d);
    assert_eq!(end, FrameEnd { request_redraw: false, exit: false });
    assert!(!sched.can_begin_frame());
}

#[test]
fn animated_frame_defers_its_follow_up_until_completion() {
    let mut sched = RedrawScheduler::new(true);
    let window = WindowState::new(true);
    assert!(begin_redraw(&window, &mut sched));
    let end = end_redraw(&mut sched, Ok(RenderStatus::Submitted), false, SceneType::Gaussian4d);
    assert_eq!(end, FrameEnd { request_redraw: false, exit: false });
    // the GPU finishing the frame issues the deferred redraw
    assert!(sched.finish_frame());
}

#[test]
fn skipped_frame_releases_slot_and_continues_animation() {
    let mut sched = RedrawScheduler::new(true);
    let window = WindowState::new(true);
    assert!(begin_redraw(&window, &mut sched));
    let end = end_redraw(&mut sched, Ok(RenderStatus::Skipped), true, SceneType::Gaussian3d);
    assert_eq!(end, FrameEnd { request_redraw: true, exit: false });
    assert!(sched.can_begin_frame());
}

#[test]
fn lost_surface_exits() {
    let mut sched = RedrawScheduler::new(false);
    let window = WindowState::new(true);
    assert!(begin_redraw(&window, &mut sched));
    let end = end_redraw(&mut sched, Err(SurfaceLost), true, SceneType::Gaussian4d);
    assert_eq!(end, FrameEnd { request_redraw: false, exit: true });
}

#[test]
fn unthrottled_animation_requests_immediately() {
    let mut sched = RedrawScheduler::new(false);
    let end = end_redraw(&mut sched, Ok(RenderStatus::Submitted), false, SceneType::Gaussian4d);
    assert_eq!(end, FrameEnd { request_redraw: true, exit: false });
}

#[test]
fn native_window_polls_gpu_when_paused() {
    let mut sched = RedrawScheduler::new(false);
    let mut window = WindowState::new(false);
    assert_eq!(window.set_focused(false, &mut sched), VisibilityAction::Pause { poll_gpu: true });
    assert_eq!(window.set_occluded(true, &mut sched), VisibilityAction::Pause { poll_gpu: true });
    assert_eq!(window.set_focused(true, &mut sched), VisibilityAction::Resume { request_redraw: true });
    assert!(!window.can_draw());
    assert_eq!(window.set_occluded(false, &mut sched), VisibilityAction::Resume { request_redraw: true });
    assert!(window.can_draw());
}
