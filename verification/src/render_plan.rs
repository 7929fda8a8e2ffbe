//! The decisions the renderers take each frame: whether the compute passes
//! must run again, which sort buffer each radix pass reads and writes, what
//! to do with the surface texture the swap chain hands out, and how the
//! surface follows window resizes.
use vstd::prelude::*;
use crate::scene::SceneType;

verus! {

/// Whether a frame was drawn and presented, or skipped.
#[derive(Debug, Clone, Copy, PartialEq, Eq, Structural)]
pub enum RenderStatus {
    Submitted,
    Skipped,
}

/// The state of a renderer's pass schedule.
pub struct RenderPlanView {
    pub scene_type: SceneType,
    pub dirty: bool,
}

/// Whether the compute passes (preprocess, sort, ...) run this frame:
/// when something changed since they last ran, or always for a dynamic scene.
pub open spec fn spec_runs_compute(s: RenderPlanView) -> bool {
    s.dirty || s.scene_type == SceneType::Gaussian4d
}

/// Decides when a renderer re-runs its compute passes. Drawing the sorted
/// result and the axis overlay happens every frame.
pub struct RenderPlan {
    scene_type: SceneType,
    dirty: bool,
}

impl View for RenderPlan {
    type V = RenderPlanView;

    closed spec fn view(&self) -> RenderPlanView {
        RenderPlanView { scene_type: self.scene_type, dirty: self.dirty }
    }
}

impl RenderPlan {
    /// A renderer for a scene of this type; nothing has been computed yet.
    pub fn new(scene_type: SceneType) -> (r: RenderPlan)
        ensures
            r@ == (RenderPlanView { scene_type, dirty: true }),
    {
        RenderPlan { scene_type, dirty: true }
    }

    /// The type of the loaded scene.
    pub fn scene_type(&self) -> (r: SceneType)
        ensures
            r == self@.scene_type,
    {
        self.scene_type
    }

    /// Starts a frame: whether the compute passes must run before drawing.
    pub fn render(&mut self) -> (run_compute: bool)
        ensures
            run_compute == spec_runs_compute(old(self)@),
            final(self)@ == (RenderPlanView {
                scene_type: old(self)@.scene_type,
                dirty: old(self)@.dirty && !run_compute,
            }),
    {
        let run = self.dirty || self.scene_type.is_dynamic();
        if run {
            self.dirty = false;
        }
        run
    }

    /// The camera or scene uniforms changed.
    pub fn update_scene_uniform(&mut self)
        ensures
            final(self)@ == (RenderPlanView { scene_type: old(self)@.scene_type, dirty: true }),
    {
        self.dirty = true;
    }

    /// The surface was resized.
    pub fn resize(&mut self)
        ensures
            final(self)@ == (RenderPlanView { scene_type: old(self)@.scene_type, dirty: true }),
    {
        self.dirty = true;
    }

    /// New Gaussians were loaded; the result says whether the preprocess
    /// pipeline must be rebuilt (the scene type changed).
    pub fn replace_gaussians(&mut self, scene_type: SceneType) -> (rebuild_preprocess: bool)
        ensures
            rebuild_preprocess == (old(self)@.scene_type != scene_type),
            final(self)@ == (RenderPlanView { scene_type, dirty: true }),
    {
        let rebuild = self.scene_type != scene_type;
        self.scene_type = scene_type;
        self.dirty = true;
        rebuild
    }
}

/// A static scene is computed once: after a frame, the next frame skips
/// the compute passes until something changes; a dynamic scene computes
/// every frame.
pub proof fn lemma_static_scene_computes_once(s: RenderPlanView)
    ensures
        s.scene_type == SceneType::Gaussian3d ==>
            !spec_runs_compute(RenderPlanView { scene_type: s.scene_type, dirty: s.dirty && !spec_runs_compute(s) }),
        s.scene_type == SceneType::Gaussian4d ==> spec_runs_compute(s),
        spec_runs_compute(RenderPlanView { scene_type: s.scene_type, dirty: true }),
{
}

/// One of the two buffers a radix sort alternates between.
#[derive(Debug, Clone, Copy, PartialEq, Eq, Structural)]
pub enum SortBuffer {
    /// The buffer the sort starts from and the renderer reads.
    Primary,
    /// The scratch buffer.
    Scratch,
}

/// What one radix pass reads and writes.
#[derive(Debug, Clone, Copy, PartialEq, Eq, Structural)]
pub struct RadixPassBuffers {
    pub keys_in: SortBuffer,
    pub keys_out: SortBuffer,
    pub values_in: SortBuffer,
    pub values_out: SortBuffer,
}

/// Even passes read the primary buffers and write the scratch ones; odd
/// passes the other way round.
pub open spec fn spec_radix_pass_buffers(pass_index: int) -> RadixPassBuffers {
    if pass_index % 2 == 0 {
        RadixPassBuffers {
            keys_in: SortBuffer::Primary,
            keys_out: SortBuffer::Scratch,
            values_in: SortBuffer::Primary,
            values_out: SortBuffer::Scratch,
        }
    } else {
        RadixPassBuffers {
            keys_in: SortBuffer::Scratch,
            keys_out: SortBuffer::Primary,
            values_in: SortBuffer::Scratch,
            values_out: SortBuffer::Primary,
        }
    }
}

/// The buffers radix pass `pass_index` binds.
pub fn radix_pass_buffers(pass_index: usize) -> (r: RadixPassBuffers)
    ensures
        r == spec_radix_pass_buffers(pass_index as int),
{
    if pass_index % 2 == 0 {
        RadixPassBuffers {
            keys_in: SortBuffer::Primary,
            keys_out: SortBuffer::Scratch,
            values_in: SortBuffer::Primary,
            values_out: SortBuffer::Scratch,
        }
    } else {
        RadixPassBuffers {
            keys_in: SortBuffer::Scratch,
            keys_out: SortBuffer::Primary,
            values_in: SortBuffer::Scratch,
            values_out: SortBuffer::Primary,
        }
    }
}

/// Each pass reads what the previous pass wrote and never writes what it
/// reads, and after an even number of passes the sorted keys and values are
/// back in the primary buffers, which the later passes read.
pub proof fn lemma_radix_ping_pong(passes: int)
    requires
        passes > 0,
        passes % 2 == 0,
    ensures
        forall|k: int| 0 <= k < passes - 1 ==> (#[trigger] spec_radix_pass_buffers(k)).keys_out
            == spec_radix_pass_buffers(k + 1).keys_in
            && spec_radix_pass_buffers(k).values_out == spec_radix_pass_buffers(k + 1).values_in,
        forall|k: int| 0 <= k < passes ==> (#[trigger] spec_radix_pass_buffers(k)).keys_in
            != spec_radix_pass_buffers(k).keys_out,
        spec_radix_pass_buffers(0).keys_in == SortBuffer::Primary,
        spec_radix_pass_buffers(passes - 1).keys_out == SortBuffer::Primary,
        spec_radix_pass_buffers(passes - 1).values_out == SortBuffer::Primary,
{
}

/// What the swap chain reports when asked for the next surface texture.
#[derive(Debug, Clone, Copy, PartialEq, Eq, Structural)]
pub enum SurfaceTextureStatus {
    Success,
    Suboptimal,
    Timeout,
    Occluded,
    Validation,
    Outdated,
    Lost,
}

/// What the renderer does with a surface texture request.
#[derive(Debug, Clone, Copy, PartialEq, Eq, Structural)]
pub enum SurfaceAcquire {
    /// Draw into the texture and present it.
    Render,
    /// Skip this frame.
    Skip,
    /// The surface is gone; rendering fails.
    Lost,
}

/// How a status is handled: whether the surface is configured again, and
/// what becomes of the frame. A suboptimal texture is still drawn into but
/// the surface is reconfigured; an outdated one is reconfigured and the
/// frame skipped; timeouts, occlusion and validation errors skip the frame.
pub fn surface_texture_action(status: SurfaceTextureStatus) -> (r: (bool, SurfaceAcquire))
    ensures
        r == match status {
            SurfaceTextureStatus::Success => (false, SurfaceAcquire::Render),
            SurfaceTextureStatus::Suboptimal => (true, SurfaceAcquire::Render),
            SurfaceTextureStatus::Timeout => (false, SurfaceAcquire::Skip),
            SurfaceTextureStatus::Occluded => (false, SurfaceAcquire::Skip),
            SurfaceTextureStatus::Validation => (false, SurfaceAcquire::Skip),
            SurfaceTextureStatus::Outdated => (true, SurfaceAcquire::Skip),
            SurfaceTextureStatus::Lost => (false, SurfaceAcquire::Lost),
        },
{
    match status {
        SurfaceTextureStatus::Success => (false, SurfaceAcquire::Render),
        SurfaceTextureStatus::Suboptimal => (true, SurfaceAcquire::Render),
        SurfaceTextureStatus::Timeout => (false, SurfaceAcquire::Skip),
        SurfaceTextureStatus::Occluded => (false, SurfaceAcquire::Skip),
        SurfaceTextureStatus::Validation => (false, SurfaceAcquire::Skip),
        SurfaceTextureStatus::Outdated => (true, SurfaceAcquire::Skip),
        SurfaceTextureStatus::Lost => (false, SurfaceAcquire::Lost),
    }
}

/// The surface texture could not be obtained because the surface was lost.
#[derive(Debug, Clone, Copy, PartialEq, Eq, Structural)]
pub struct SurfaceLost;

/// The outcome of a frame: skipped when the surface is not configured
/// (nothing is asked of the swap chain then) or the texture is not
/// available, failed when the surface is lost, drawn otherwise.
pub fn frame_status(surface_configured: bool, acquire: SurfaceAcquire) -> (r: Result<RenderStatus, SurfaceLost>)
    ensures
        !surface_configured ==> r == Ok::<RenderStatus, SurfaceLost>(RenderStatus::Skipped),
        surface_configured ==> r == match acquire {
            SurfaceAcquire::Render => Ok::<RenderStatus, SurfaceLost>(RenderStatus::Submitted),
            SurfaceAcquire::Skip => Ok(RenderStatus::Skipped),
            SurfaceAcquire::Lost => Err(SurfaceLost),
        },
{
    if !surface_configured {
        return Ok(RenderStatus::Skipped);
    }
    match acquire {
        SurfaceAcquire::Render => Ok(RenderStatus::Submitted),
        SurfaceAcquire::Skip => Ok(RenderStatus::Skipped),
        SurfaceAcquire::Lost => Err(SurfaceLost),
    }
}

/// The size the surface is configured with.
#[derive(Debug, Clone, Copy, PartialEq, Eq, Structural)]
pub struct SurfaceSize {
    pub width: u32,
    pub height: u32,
}

/// Following a window resize: a zero side or an unchanged size is ignored;
/// the flag says whether the surface must be reconfigured.
pub open spec fn spec_resize(s: SurfaceSize, width: u32, height: u32) -> (SurfaceSize, bool) {
    if width == 0 || height == 0 || (s.width == width && s.height == height) {
        (s, false)
    } else {
        (SurfaceSize { width, height }, true)
    }
}

impl SurfaceSize {
    /// The initial size of a surface for a window of this size: each side at least 1.
    pub fn new(width: u32, height: u32) -> (r: SurfaceSize)
        ensures
            r.width == if width == 0 { 1 } else { width },
            r.height == if height == 0 { 1 } else { height },
    {
        SurfaceSize { width: if width == 0 { 1 } else { width }, height: if height == 0 { 1 } else { height } }
    }

    /// Follows a window resize; the result says whether the surface must be
    /// reconfigured.
    pub fn resize(&mut self, width: u32, height: u32) -> (changed: bool)
        ensures
            (*final(self), changed) == spec_resize(*old(self), width, height),
    {
        if width == 0 || height == 0 {
            return false;
        }
        if self.width == width && self.height == height {
            return false;
        }
        self.width = width;
        self.height = height;
        true
    }
}

/// Resizing twice to the same size reconfigures at most once, a zero side
/// is never applied, and sizes stay positive.
pub proof fn lemma_resize_idempotent(s: SurfaceSize, width: u32, height: u32)
    ensures
        spec_resize(spec_resize(s, width, height).0, width, height) == (spec_resize(s, width, height).0, false),
        spec_resize(s, 0, height) == (s, false),
        spec_resize(s, width, 0) == (s, false),
        s.width > 0 && s.height > 0 ==> spec_resize(s, width, height).0.width > 0
            && spec_resize(s, width, height).0.height > 0,
{
}

/// What a surface format offers the renderer.
#[derive(Debug, Clone, Copy, PartialEq, Eq, Structural)]
pub enum SurfaceFormatKind {
    Rgba8Unorm,
    Bgra8Unorm,
    /// Any other format that is not sRGB-encoded.
    OtherLinear,
    /// Any sRGB-encoded format.
    OtherSrgb,
}

/// Index of the first format of kind `k`, if any.
pub open spec fn first_of_kind(formats: Seq<SurfaceFormatKind>, k: SurfaceFormatKind) -> Option<int>
    decreases formats.len(),
{
    if formats.len() == 0 {
        None
    } else if formats[0] == k {
        Some(0)
    } else {
        match first_of_kind(formats.drop_first(), k) {
            Some(i) => Some(i + 1),
            None => None,
        }
    }
}

/// Index of the first format that is not sRGB-encoded, if any.
pub open spec fn first_linear(formats: Seq<SurfaceFormatKind>) -> Option<int>
    decreases formats.len(),
{
    if formats.len() == 0 {
        None
    } else if formats[0] != SurfaceFormatKind::OtherSrgb {
        Some(0)
    } else {
        match first_linear(formats.drop_first()) {
            Some(i) => Some(i + 1),
            None => None,
        }
    }
}

/// The surface format the renderer picks: RGBA8, else BGRA8, else the first
/// format that is not sRGB, else the first format; none of an empty list.
pub open spec fn spec_choose_surface_format(formats: Seq<SurfaceFormatKind>) -> Option<int> {
    match first_of_kind(formats, SurfaceFormatKind::Rgba8Unorm) {
        Some(i) => Some(i),
        None => match first_of_kind(formats, SurfaceFormatKind::Bgra8Unorm) {
            Some(i) => Some(i),
            None => match first_linear(formats) {
                Some(i) => Some(i),
                None => if formats.len() > 0 { Some(0) } else { None },
            },
        },
    }
}

/// An optional index moved `d` places on.
pub open spec fn shift_index(o: Option<int>, d: int) -> Option<int> {
    match o {
        Some(x) => Some(x + d),
        None => None,
    }
}

proof fn lemma_first_of_kind_step(formats: Seq<SurfaceFormatKind>, k: SurfaceFormatKind, i: int)
    requires
        0 <= i < formats.len(),
        forall|j: int| 0 <= j < i ==> formats[j] != k,
    ensures
        first_of_kind(formats, k) == shift_index(first_of_kind(formats.subrange(i, formats.len() as int), k), i),
    decreases i,
{
    if i > 0 {
        lemma_first_of_kind_step(formats.drop_first(), k, i - 1);
        assert(formats.drop_first().subrange(i - 1, formats.drop_first().len() as int) =~= formats.subrange(i, formats.len() as int));
    } else {
        assert(formats.subrange(0, formats.len() as int) =~= formats);
    }
}

fn find_kind(formats: &[SurfaceFormatKind], k: SurfaceFormatKind) -> (r: Option<usize>)
    ensures
        match r {
            Some(i) => first_of_kind(formats@, k) == Some(i as int),
            None => first_of_kind(formats@, k) is None,
        },
{
    let mut i: usize = 0;
    while i < formats.len()
        invariant
            i <= formats.len(),
            forall|j: int| 0 <= j < i ==> formats@[j] != k,
        decreases formats.len() - i,
    {
        if formats[i] == k {
            proof {
                lemma_first_of_kind_step(formats@, k, i as int);
            }
            return Some(i);
        }
        i = i + 1;
    }
    proof {
        lemma_first_of_kind_absent(formats@, k);
    }
    None
}

proof fn lemma_first_of_kind_absent(formats: Seq<SurfaceFormatKind>, k: SurfaceFormatKind)
    requires
        forall|j: int| 0 <= j < formats.len() ==> formats[j] != k,
    ensures
        first_of_kind(formats, k) is None,
    decreases formats.len(),
{
    if formats.len() > 0 {
        assert forall|j: int| 0 <= j < formats.drop_first().len() implies formats.drop_first()[j] != k by {
            assert(formats.drop_first()[j] == formats[j + 1]);
        }
        lemma_first_of_kind_absent(formats.drop_first(), k);
    }
}

proof fn lemma_first_linear_step(formats: Seq<SurfaceFormatKind>, i: int)
    requires
        0 <= i < formats.len(),
        forall|j: int| 0 <= j < i ==> formats[j] == SurfaceFormatKind::OtherSrgb,
    ensures
        first_linear(formats) == shift_index(first_linear(formats.subrange(i, formats.len() as int)), i),
    decreases i,
{
    if i > 0 {
        lemma_first_linear_step(formats.drop_first(), i - 1);
        assert(formats.drop_first().subrange(i - 1, formats.drop_first().len() as int) =~= formats.subrange(i, formats.len() as int));
    } else {
        assert(formats.subrange(0, formats.len() as int) =~= formats);
    }
}

proof fn lemma_first_linear_absent(formats: Seq<SurfaceFormatKind>)
    requires
        forall|j: int| 0 <= j < formats.len() ==> formats[j] == SurfaceFormatKind::OtherSrgb,
    ensures
        first_linear(formats) is None,
    decreases formats.len(),
{
    if formats.len() > 0 {
        assert forall|j: int| 0 <= j < formats.drop_first().len() implies formats.drop_first()[j] == SurfaceFormatKind::OtherSrgb by {
            assert(formats.drop_first()[j] == formats[j + 1]);
        }
        lemma_first_linear_absent(formats.drop_first());
    }
}

fn find_linear(formats: &[SurfaceFormatKind]) -> (r: Option<usize>)
    ensures
        match r {
            Some(i) => first_linear(formats@) == Some(i as int),
            None => first_linear(formats@) is None,
        },
{
    let mut i: usize = 0;
    while i < formats.len()
        invariant
            i <= formats.len(),
            forall|j: int| 0 <= j < i ==> formats@[j] == SurfaceFormatKind::OtherSrgb,
        decreases formats.len() - i,
    {
        if formats[i] != SurfaceFormatKind::OtherSrgb {
            proof {
                lemma_first_linear_step(formats@, i as int);
            }
            return Some(i);
        }
        i = i + 1;
    }
    proof {
        lemma_first_linear_absent(formats@);
    }
    None
}

/// The index of the surface format the renderer picks.
pub fn choose_surface_format(formats: &[SurfaceFormatKind]) -> (r: Option<usize>)
    ensures
        match r {
            Some(i) => spec_choose_surface_format(formats@) == Some(i as int),
            None => spec_choose_surface_format(formats@) is None,
        },
{
    if let Some(i) = find_kind(formats, SurfaceFormatKind::Rgba8Unorm) {
        return Some(i);
    }
    if let Some(i) = find_kind(formats, SurfaceFormatKind::Bgra8Unorm) {
        return Some(i);
    }
    if let Some(i) = find_linear(formats) {
        return Some(i);
    }
    if formats.len() > 0 { Some(0) } else { None }
}

/// The chosen format always exists in the list, and an RGBA8 format, when
/// offered, always wins.
pub proof fn lemma_choice_prefers_rgba8(formats: Seq<SurfaceFormatKind>)
    ensures
        spec_choose_surface_format(formats) matches Some(i) ==> 0 <= i < formats.len(),
        formats.contains(SurfaceFormatKind::Rgba8Unorm) ==>
            (spec_choose_surface_format(formats) matches Some(i) && formats[i] == SurfaceFormatKind::Rgba8Unorm),
        formats.len() > 0 ==> spec_choose_surface_format(formats) is Some,
{
    lemma_first_of_kind_sound(formats, SurfaceFormatKind::Rgba8Unorm);
    lemma_first_of_kind_sound(formats, SurfaceFormatKind::Bgra8Unorm);
    lemma_first_linear_sound(formats);
}

proof fn lemma_first_of_kind_sound(formats: Seq<SurfaceFormatKind>, k: SurfaceFormatKind)
    ensures
        first_of_kind(formats, k) matches Some(i) ==> 0 <= i < formats.len() && formats[i] == k,
        formats.contains(k) ==> first_of_kind(formats, k) is Some,
    decreases formats.len(),
{
    if formats.len() > 0 {
        lemma_first_of_kind_sound(formats.drop_first(), k);
        if formats.contains(k) && formats[0] != k {
            let j = choose|j: int| 0 <= j < formats.len() && formats[j] == k;
            assert(formats.drop_first()[j - 1] == k);
        }
    }
}

proof fn lemma_first_linear_sound(formats: Seq<SurfaceFormatKind>)
    ensures
        first_linear(formats) matches Some(i) ==> 0 <= i < formats.len(),
    decreases formats.len(),
{
    if formats.len() > 0 {
        lemma_first_linear_sound(formats.drop_first());
    }
}

/// A resize to two non-zero sides is applied in full, and reports a change
/// exactly when either side differs from the current size; a resize with a
/// zero side changes nothing.
pub proof fn lemma_resize_applies_new_size(s: SurfaceSize, width: u32, height: u32)
    ensures
        width > 0 && height > 0 ==> spec_resize(s, width, height).0 == (SurfaceSize { width, height }),
        width > 0 && height > 0 ==> (spec_resize(s, width, height).1 <==> (width != s.width || height != s.height)),
        width == 0 || height == 0 ==> spec_resize(s, width, height) == (s, false),
{
}

} // verus!
