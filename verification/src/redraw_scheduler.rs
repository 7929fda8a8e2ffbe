//! Frame pacing: when a window redraw may be requested and when a new frame
//! may begin. On the web at most one frame may be in flight on the GPU; a
//! redraw asked for while a frame is in flight is remembered and issued
//! when that frame completes. On native targets every request is issued at
//! once and every frame may begin.
use vstd::prelude::*;

verus! {

/// How many frames may be in flight on the GPU at once when pacing is on.
pub const MAX_FRAMES_IN_FLIGHT: u32 = 1;

/// The state of a scheduler.
pub struct RedrawView {
    /// Whether frames are paced (the web target).
    pub throttled: bool,
    /// Frames begun and not yet finished.
    pub frames_in_flight: u32,
    /// Whether a redraw was asked for while no frame could begin.
    pub redraw_pending: bool,
}

/// The state every reachable scheduler is in.
pub open spec fn redraw_wf(s: RedrawView) -> bool {
    s.frames_in_flight <= MAX_FRAMES_IN_FLIGHT && (!s.throttled ==> s.frames_in_flight == 0 && !s.redraw_pending)
}

/// A fresh scheduler.
pub open spec fn spec_redraw_new(throttled: bool) -> RedrawView {
    RedrawView { throttled, frames_in_flight: 0, redraw_pending: false }
}

/// Whether a new frame could begin now.
pub open spec fn spec_can_begin_frame(s: RedrawView) -> bool {
    s.frames_in_flight < MAX_FRAMES_IN_FLIGHT
}

/// Asking for a redraw: the new state, and whether the window must be asked
/// to redraw now.
pub open spec fn spec_request_redraw(s: RedrawView) -> (RedrawView, bool) {
    if !s.throttled {
        (s, true)
    } else if spec_can_begin_frame(s) {
        (s, true)
    } else {
        (RedrawView { redraw_pending: true, ..s }, false)
    }
}

/// Trying to begin a frame: the new state, and whether the frame may be
/// rendered. A refused frame is remembered as a pending redraw.
pub open spec fn spec_try_begin_frame(s: RedrawView) -> (RedrawView, bool) {
    if !s.throttled {
        (s, true)
    } else if s.frames_in_flight < MAX_FRAMES_IN_FLIGHT {
        (RedrawView { frames_in_flight: (s.frames_in_flight + 1) as u32, ..s }, true)
    } else {
        (RedrawView { redraw_pending: true, ..s }, false)
    }
}

/// A frame completing (or being abandoned): one fewer frame in flight,
/// never below zero, and a pending redraw, if any, is issued and cleared.
pub open spec fn spec_finish_frame(s: RedrawView) -> (RedrawView, bool) {
    (
        RedrawView {
            frames_in_flight: if s.frames_in_flight == 0 { 0 } else { (s.frames_in_flight - 1) as u32 },
            redraw_pending: false,
            ..s
        },
        s.redraw_pending,
    )
}

/// Abandoning a begun frame: finishing it when pacing is on, nothing otherwise.
pub open spec fn spec_cancel_frame(s: RedrawView) -> (RedrawView, bool) {
    if s.throttled {
        spec_finish_frame(s)
    } else {
        (s, false)
    }
}

/// Decides when redraws are requested and frames begin.
pub struct RedrawScheduler {
    throttled: bool,
    frames_in_flight: u32,
    redraw_pending: bool,
}

impl View for RedrawScheduler {
    type V = RedrawView;

    closed spec fn view(&self) -> RedrawView {
        RedrawView {
            throttled: self.throttled,
            frames_in_flight: self.frames_in_flight,
            redraw_pending: self.redraw_pending,
        }
    }
}

impl RedrawScheduler {
    #[verifier::type_invariant]
    spec fn inv(&self) -> bool {
        redraw_wf(self@)
    }

    /// A scheduler with no frame in flight; `throttled` turns pacing on.
    pub fn new(throttled: bool) -> (r: RedrawScheduler)
        ensures
            r@ == spec_redraw_new(throttled),
            redraw_wf(r@),
    {
        RedrawScheduler { throttled, frames_in_flight: 0, redraw_pending: false }
    }

    /// Whether pacing is on.
    pub fn is_throttled(&self) -> (r: bool)
        ensures
            r == self@.throttled,
    {
        self.throttled
    }

    /// Asks for a redraw; the result says whether the window must be asked
    /// to redraw now (otherwise it is asked when the frame in flight ends).
    pub fn request_redraw(&mut self) -> (request_now: bool)
        ensures
            (final(self)@, request_now) == spec_request_redraw(old(self)@),
            redraw_wf(final(self)@),
    {
        proof {
            use_type_invariant(&*self);
        }
        if !self.throttled {
            return true;
        }
        if self.can_begin_frame() {
            true
        } else {
            self.redraw_pending = true;
            false
        }
    }

    /// Tries to begin a frame; `false` means the frame must be skipped.
    pub fn try_begin_frame(&mut self) -> (acquired: bool)
        ensures
            (final(self)@, acquired) == spec_try_begin_frame(old(self)@),
            redraw_wf(final(self)@),
    {
        proof {
            use_type_invariant(&*self);
        }
        if !self.throttled {
            return true;
        }
        if self.frames_in_flight < MAX_FRAMES_IN_FLIGHT {
            self.frames_in_flight = self.frames_in_flight + 1;
            true
        } else {
            self.redraw_pending = true;
            false
        }
    }

    /// Abandons a begun frame; the result says whether the window must be
    /// asked to redraw now.
    pub fn cancel_frame(&mut self) -> (request_now: bool)
        ensures
            (final(self)@, request_now) == spec_cancel_frame(old(self)@),
            redraw_wf(final(self)@),
    {
        proof {
            use_type_invariant(&*self);
        }
        if self.throttled {
            self.finish_frame()
        } else {
            false
        }
    }

    /// After submitting a frame: whether its completion must be reported
    /// back through [`RedrawScheduler::finish_frame`] (only when pacing).
    pub fn submit_frame(&self) -> (watch_completion: bool)
        ensures
            watch_completion == self@.throttled,
    {
        self.throttled
    }

    /// A submitted frame has completed; the result says whether the window
    /// must be asked to redraw now.
    pub fn finish_frame(&mut self) -> (request_now: bool)
        ensures
            (final(self)@, request_now) == spec_finish_frame(old(self)@),
            redraw_wf(final(self)@),
    {
        proof {
            use_type_invariant(&*self);
        }
        self.frames_in_flight = self.frames_in_flight.saturating_sub(1);
        let pending = self.redraw_pending;
        if self.throttled {
            self.redraw_pending = false;
        }
        pending
    }

    /// Whether a new frame could begin now.
    pub fn can_begin_frame(&self) -> (r: bool)
        ensures
            r == spec_can_begin_frame(self@),
    {
        self.frames_in_flight < MAX_FRAMES_IN_FLIGHT
    }
}

/// Every operation keeps a scheduler well formed.
pub proof fn lemma_operations_keep_wf(s: RedrawView)
    requires
        redraw_wf(s),
    ensures
        redraw_wf(spec_request_redraw(s).0),
        redraw_wf(spec_try_begin_frame(s).0),
        redraw_wf(spec_finish_frame(s).0),
        redraw_wf(spec_cancel_frame(s).0),
{
}

/// A redraw asked for while it cannot be issued is not lost: the frame in
/// flight finishing issues it, whatever requests came in between.
pub proof fn lemma_deferred_redraw_is_issued(s: RedrawView)
    requires
        redraw_wf(s),
        !spec_request_redraw(s).1,
    ensures
        spec_request_redraw(s).0.redraw_pending,
        spec_request_redraw(spec_request_redraw(s).0).0.redraw_pending,
        spec_finish_frame(spec_request_redraw(s).0).1,
        spec_can_begin_frame(spec_finish_frame(spec_request_redraw(s).0).0),
{
}

/// With pacing on, a frame that begins occupies the only slot: a second
/// frame is refused until the first finishes, and then may begin again.
pub proof fn lemma_one_frame_in_flight(s: RedrawView)
    requires
        redraw_wf(s),
        s.throttled,
        spec_try_begin_frame(s).1,
    ensures
        !spec_try_begin_frame(spec_try_begin_frame(s).0).1,
        spec_try_begin_frame(spec_finish_frame(spec_try_begin_frame(s).0).0).1,
{
}

/// Beginning a frame and then finishing it restores the number of frames
/// in flight.
pub proof fn lemma_begin_finish_balance(s: RedrawView)
    requires
        redraw_wf(s),
        spec_try_begin_frame(s).1,
    ensures
        spec_finish_frame(spec_try_begin_frame(s).0).0.frames_in_flight == s.frames_in_flight,
{
}

/// Abandoning a frame when none is in flight changes nothing but the
/// pending flag: the count stays at zero.
pub proof fn lemma_cancel_is_idempotent(s: RedrawView)
    requires
        redraw_wf(s),
    ensures
        spec_cancel_frame(spec_cancel_frame(s).0).0 == spec_cancel_frame(s).0,
        !spec_cancel_frame(spec_cancel_frame(s).0).1,
{
}

/// Without pacing every redraw is issued at once and every frame may begin,
/// and the state never changes.
pub proof fn lemma_unthrottled_is_transparent(s: RedrawView)
    requires
        redraw_wf(s),
        !s.throttled,
    ensures
        spec_request_redraw(s) == (s, true),
        spec_try_begin_frame(s) == (s, true),
        spec_cancel_frame(s) == (s, false),
        spec_finish_frame(s) == (s, false),
{
}

/// One call on a scheduler: a redraw request, an attempt to begin a frame,
/// a frame submitted, a frame abandoned, or a frame completing on the GPU.
#[derive(Debug, Clone, Copy, PartialEq, Eq, Structural)]
pub enum RedrawOp {
    RequestRedraw,
    TryBeginFrame,
    SubmitFrame,
    CancelFrame,
    FinishFrame,
}

/// One call's new state, and whether it was a frame allowed to begin.
pub open spec fn spec_redraw_step(s: RedrawView, op: RedrawOp) -> (RedrawView, bool) {
    match op {
        RedrawOp::RequestRedraw => (spec_request_redraw(s).0, false),
        RedrawOp::TryBeginFrame => spec_try_begin_frame(s),
        RedrawOp::SubmitFrame => (s, false),
        RedrawOp::CancelFrame => (spec_cancel_frame(s).0, false),
        RedrawOp::FinishFrame => (spec_finish_frame(s).0, false),
    }
}

/// The state after a run of calls, and how many frames were allowed to begin.
pub open spec fn spec_redraw_run(s: RedrawView, ops: Seq<RedrawOp>) -> (RedrawView, nat)
    decreases ops.len(),
{
    if ops.len() == 0 {
        (s, 0)
    } else {
        let (t, n) = spec_redraw_run(s, ops.drop_last());
        let (u, began) = spec_redraw_step(t, ops.last());
        (u, if began { n + 1 } else { n })
    }
}

/// A frame is completed, by the GPU or by being abandoned.
pub open spec fn is_completion(op: RedrawOp) -> bool {
    op == RedrawOp::CancelFrame || op == RedrawOp::FinishFrame
}

/// With pacing on, between two frame completions at most one frame is
/// allowed to begin, and none while a frame is already in flight: over any
/// run of calls without a completion, the frames begun plus those in flight
/// before never exceed one, and every begun frame stays in flight.
pub proof fn lemma_at_most_one_begin_between_completions(s: RedrawView, ops: Seq<RedrawOp>)
    requires
        redraw_wf(s),
        s.throttled,
        forall|i: int| 0 <= i < ops.len() ==> !is_completion(#[trigger] ops[i]),
    ensures
        redraw_wf(spec_redraw_run(s, ops).0),
        spec_redraw_run(s, ops).0.frames_in_flight == s.frames_in_flight + spec_redraw_run(s, ops).1,
        s.frames_in_flight + spec_redraw_run(s, ops).1 <= MAX_FRAMES_IN_FLIGHT,
    decreases ops.len(),
{
    if ops.len() > 0 {
        let prefix = ops.drop_last();
        assert forall|i: int| 0 <= i < prefix.len() implies !is_completion(#[trigger] prefix[i]) by {
            assert(prefix[i] == ops[i]);
        }
        lemma_at_most_one_begin_between_completions(s, prefix);
        assert(!is_completion(ops[ops.len() - 1]));
        assert(spec_redraw_run(s, prefix).0.throttled == s.throttled) by {
            lemma_run_keeps_mode(s, prefix);
        }
    }
}

proof fn lemma_run_keeps_mode(s: RedrawView, ops: Seq<RedrawOp>)
    ensures
        spec_redraw_run(s, ops).0.throttled == s.throttled,
    decreases ops.len(),
{
    if ops.len() > 0 {
        lemma_run_keeps_mode(s, ops.drop_last());
    }
}

/// With pacing on, abandoning a frame frees its slot and reports a redraw
/// that was deferred while it was in flight, exactly as the frame
/// completing would; the deferral is then cleared. So a frame begun, a
/// redraw deferred and the frame abandoned leads to the redraw being issued.
pub proof fn lemma_cancel_issues_deferred_redraw(s: RedrawView)
    requires
        redraw_wf(s),
        s.throttled,
    ensures
        spec_cancel_frame(s).1 == s.redraw_pending,
        !spec_cancel_frame(s).0.redraw_pending,
        spec_cancel_frame(s).0.frames_in_flight == if s.frames_in_flight == 0 { 0 } else { s.frames_in_flight - 1 },
        spec_cancel_frame(s).0.throttled,
        spec_try_begin_frame(s).1 ==> ({
            let begun = spec_try_begin_frame(s).0;
            let deferred = spec_request_redraw(begun);
            &&& !deferred.1
            &&& spec_cancel_frame(deferred.0).1
            &&& spec_can_begin_frame(spec_cancel_frame(deferred.0).0)
        }),
{
}

} // verus!
