//! Sizing and identity discipline of the per-frame render targets.
//!
//! A `RenderFrame` stands for one generation of GPU targets: a supersampled
//! sample target with its paired depth target, and two accumulation targets
//! at display resolution that alternate between the front and back role.
//! The structure here carries the shapes and the front/back parity; the GPU
//! handles themselves live with the application, which allocates one texture
//! per described target and swaps by parity exactly as stated here, so the
//! same identity is never read and written in one pass.

use crate::resolution::RenderResolution;
use vstd::prelude::*;

verus! {

/// Target shapes and the accumulation parity of one render-frame generation.
///
/// `front` selects which of the two accumulation targets currently holds the
/// freshest accumulated image; the other one is the back (history) target.
#[derive(Clone, Copy, Debug, PartialEq, Eq, Structural)]
pub struct RenderFrame {
    /// Width of the sample and depth targets: display width times the
    /// supersample factor.
    pub sample_width: u32,
    /// Height of the sample and depth targets.
    pub sample_height: u32,
    /// Width of both accumulation targets: the display width.
    pub accum_width: u32,
    /// Height of both accumulation targets.
    pub accum_height: u32,
    /// Parity of the accumulation target currently in the front role.
    pub front: bool,
}

/// Resolutions the viewer accepts: no axis may be zero, and both stay small
/// enough that a supersampled target size always fits in 32 bits.
pub open spec fn resolution_ok(res: RenderResolution) -> bool {
    &&& 1 <= res.spec_width() <= 0x0800_0000
    &&& 1 <= res.spec_height() <= 0x0800_0000
}

/// The frame a fresh allocation for `res` at factor `supersample` yields:
/// sample target at `res` times the factor per axis, accumulation targets at
/// `res` itself, front parity reset.
pub open spec fn frame_for(res: RenderResolution, supersample: u32) -> RenderFrame {
    RenderFrame {
        sample_width: (res.spec_width() * supersample) as u32,
        sample_height: (res.spec_height() * supersample) as u32,
        accum_width: res.spec_width(),
        accum_height: res.spec_height(),
        front: false,
    }
}

/// `f` has the target shapes that `res` and `supersample` call for,
/// whatever its current parity.
pub open spec fn frame_shape_ok(f: RenderFrame, res: RenderResolution, supersample: u32) -> bool {
    &&& f.sample_width == res.spec_width() * supersample
    &&& f.sample_height == res.spec_height() * supersample
    &&& f.accum_width == res.spec_width()
    &&& f.accum_height == res.spec_height()
}

/// Describe the render targets for one output configuration.
///
/// The sample and depth targets measure exactly `supersample` times the
/// display resolution per axis; both accumulation targets measure exactly
/// the display resolution. The result depends on the arguments alone, so
/// re-invoking with the same arguments describes the same shapes.
pub fn create_render_frame(resolution: &RenderResolution, supersample: u32) -> (f: RenderFrame)
    requires
        1 <= supersample <= 5,
        resolution_ok(*resolution),
    ensures
        f == frame_for(*resolution, supersample),
        frame_shape_ok(f, *resolution, supersample),
        f.front == false,
{
    let w = resolution.width();
    let h = resolution.height();
    proof {
        assert(w * supersample <= 0x0800_0000 * 5) by (nonlinear_arith)
            requires
                w <= 0x0800_0000,
                supersample <= 5,
        ;
        assert(h * supersample <= 0x0800_0000 * 5) by (nonlinear_arith)
            requires
                h <= 0x0800_0000,
                supersample <= 5,
        ;
    }
    RenderFrame {
        sample_width: w * supersample,
        sample_height: h * supersample,
        accum_width: w,
        accum_height: h,
        front: false,
    }
}

/// Exchange the front and back accumulation roles; every other part of the
/// frame stays as it was. Done exactly once per subframe.
pub fn swap_targets(frame: &mut RenderFrame)
    ensures
        *final(frame) == (RenderFrame { front: !old(frame).front, ..*old(frame) }),
{
    frame.front = !frame.front;
}

/// The target shapes are a function of resolution and supersample factor
/// alone: any two frames allocated for the same configuration agree on
/// every target size.
pub proof fn lemma_frame_shape_deterministic(
    a: RenderFrame,
    b: RenderFrame,
    res: RenderResolution,
    supersample: u32,
)
    requires
        frame_shape_ok(a, res, supersample),
        frame_shape_ok(b, res, supersample),
    ensures
        a.sample_width == b.sample_width,
        a.sample_height == b.sample_height,
        a.accum_width == b.accum_width,
        a.accum_height == b.accum_height,
{
}

} // verus!
