use splat_viewer::redraw_scheduler::RedrawScheduler;

#[test]
fn unthrottled_scheduler_never_defers() {
    let mut s = RedrawScheduler::new(false);
    assert!(!s.is_throttled());
    assert!(s.request_redraw());
    assert!(s.try_begin_frame());
    assert!(s.try_begin_frame());
    assert!(!s.submit_frame());
    assert!(!s.cancel_frame());
    assert!(!s.finish_frame());
    assert!(s.request_redraw());
}

#[test]
fn throttled_scheduler_allows_one_frame_in_flight() {
    let mut s = RedrawScheduler::new(true);
    assert!(s.can_begin_frame());
    assert!(s.try_begin_frame());
    assert!(!s.can_begin_frame());
    assert!(!s.try_begin_frame());
    assert!(s.submit_frame());
    // the refused frame is remembered and issued when the first completes
    assert!(s.finish_frame());
    assert!(s.can_begin_frame());
    assert!(s.try_begin_frame());
}

#[test]
fn deferred_redraw_is_issued_once_frame_finishes() {
    let mut s = RedrawScheduler::new(true);
    assert!(s.try_begin_frame());
    assert!(!s.request_redraw());
    assert!(!s.request_redraw());
    assert!(s.finish_frame());
    // nothing pending any more
    assert!(!s.finish_frame());
    assert!(s.request_redraw());
}

#[test]
fn finish_without_pending_request_issues_nothing() {
    let mut s = RedrawScheduler::new(true);
    assert!(s.try_begin_frame());
    assert!(!s.finish_frame());
    assert!(s.can_begin_frame());
}

#[test]
fn cancel_twice_saturates_at_zero() {
    let mut s = RedrawScheduler::new(true);
    assert!(s.try_begin_frame());
    assert!(!s.cancel_frame());
    assert!(!s.cancel_frame());
    assert!(s.can_begin_frame());
    assert!(s.try_begin_frame());
    assert!(!s.can_begin_frame());
}

#[test]
fn paced_scheduler_begins_one_frame_between_completions() {
    let mut s = RedrawScheduler::new(true);
    assert!(s.try_begin_frame());
    assert!(!s.request_redraw());
    assert!(s.submit_frame());
    assert!(!s.try_begin_frame());
    assert!(!s.try_begin_frame());
    assert!(s.finish_frame());
    assert!(s.try_begin_frame());
    assert!(!s.try_begin_frame());
    s.cancel_frame();
    assert!(s.try_begin_frame());
}
