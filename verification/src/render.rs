//! Planning of one displayed frame: the subframe passes and the composite.
//!
//! Each displayed frame runs a number of subframes. A subframe swaps the
//! accumulation parity, rasterizes every splat into the cleared sample
//! target, then runs the downsample pass: an SxS box filter over the sample
//! target, combined with the back accumulation target into the new front
//! target — replaced outright when the camera went stale, blended into a
//! running average when it did not. After the last subframe the front target
//! is composited into the canvas, letterboxed so the render keeps its aspect
//! ratio inside a differently shaped canvas.
//!
//! The plan built here fixes every such decision — parities, flags, uniform
//! values, viewport — over plain integers; the application merely replays it
//! pass by pass on the GPU. Viewport coordinates are exact rationals (a
//! numerator per coordinate over one common denominator), so letterboxing
//! can be stated and proved without floating point; the application divides
//! them out at the point of use.

use crate::scene::DrawParams;
use vstd::prelude::*;

verus! {

/// An axis-aligned viewport with exact rational coordinates: each of x, y,
/// width and height is its numerator divided by the common denominator.
#[derive(Clone, Copy, Debug, PartialEq, Eq, Structural)]
pub struct Viewport {
    pub x_num: u64,
    pub y_num: u64,
    pub w_num: u64,
    pub h_num: u64,
    pub den: u64,
}

/// The letterboxed viewport for a frame of aspect `fw:fh` shown on a canvas
/// of `cw` by `ch` pixels: the largest centered rectangle of the frame's
/// aspect that fits, with symmetric borders on the leftover axis.
pub open spec fn letterbox_spec(fw: int, fh: int, cw: int, ch: int) -> Viewport {
    if fw * ch > cw * fh {
        Viewport {
            x_num: 0,
            y_num: (ch * fw - cw * fh) as u64,
            w_num: (2 * cw * fw) as u64,
            h_num: (2 * cw * fh) as u64,
            den: (2 * fw) as u64,
        }
    } else {
        Viewport {
            x_num: (cw * fh - ch * fw) as u64,
            y_num: 0,
            w_num: (2 * ch * fw) as u64,
            h_num: (2 * ch * fh) as u64,
            den: (2 * fh) as u64,
        }
    }
}

/// Compute the letterboxed viewport for frame aspect `fw:fh` on a canvas of
/// `cw` by `ch` pixels.
pub fn letterbox_viewport(fw: u32, fh: u32, cw: u32, ch: u32) -> (v: Viewport)
    requires
        1 <= fw <= 0x4000_0000,
        1 <= fh <= 0x4000_0000,
        1 <= cw <= 0x4000_0000,
        1 <= ch <= 0x4000_0000,
    ensures
        v == letterbox_spec(fw as int, fh as int, cw as int, ch as int),
        v.den >= 2,
{
    let fw64 = fw as u64;
    let fh64 = fh as u64;
    let cw64 = cw as u64;
    let ch64 = ch as u64;
    proof {
        lemma_letterbox_products_fit(fw as int, fh as int, cw as int, ch as int);
    }
    if fw64 * ch64 > cw64 * fh64 {
        Viewport {
            x_num: 0,
            y_num: ch64 * fw64 - cw64 * fh64,
            w_num: 2 * cw64 * fw64,
            h_num: 2 * cw64 * fh64,
            den: 2 * fw64,
        }
    } else {
        Viewport {
            x_num: cw64 * fh64 - ch64 * fw64,
            y_num: 0,
            w_num: 2 * ch64 * fw64,
            h_num: 2 * ch64 * fh64,
            den: 2 * fh64,
        }
    }
}

proof fn lemma_letterbox_products_fit(fw: int, fh: int, cw: int, ch: int)
    requires
        1 <= fw <= 0x4000_0000,
        1 <= fh <= 0x4000_0000,
        1 <= cw <= 0x4000_0000,
        1 <= ch <= 0x4000_0000,
    ensures
        0 <= fw * ch <= 0x1000_0000_0000_0000,
        0 <= cw * fh <= 0x1000_0000_0000_0000,
        0 <= ch * fw <= 0x1000_0000_0000_0000,
        0 <= cw * fw <= 0x1000_0000_0000_0000,
        0 <= ch * fh <= 0x1000_0000_0000_0000,
        0 <= 2 * cw * fw <= 0x2000_0000_0000_0000,
        0 <= 2 * cw * fh <= 0x2000_0000_0000_0000,
        0 <= 2 * ch * fw <= 0x2000_0000_0000_0000,
        0 <= 2 * ch * fh <= 0x2000_0000_0000_0000,
{
    assert(fw * ch <= 0x1000_0000_0000_0000 && cw * fh <= 0x1000_0000_0000_0000 && ch * fw
        <= 0x1000_0000_0000_0000 && cw * fw <= 0x1000_0000_0000_0000 && ch * fh
        <= 0x1000_0000_0000_0000 && fw * ch >= 0 && cw * fh >= 0 && ch * fw >= 0 && cw * fw >= 0
        && ch * fh >= 0 && 0 <= 2 * cw * fw <= 0x2000_0000_0000_0000 && 0 <= 2 * cw * fh
        <= 0x2000_0000_0000_0000 && 0 <= 2 * ch * fw <= 0x2000_0000_0000_0000 && 0 <= 2 * ch * fh
        <= 0x2000_0000_0000_0000) by (nonlinear_arith)
        requires
            1 <= fw <= 0x4000_0000,
            1 <= fh <= 0x4000_0000,
            1 <= cw <= 0x4000_0000,
            1 <= ch <= 0x4000_0000,
    ;
}

/// When the frame is wider than the canvas, the box spans the full canvas
/// width, keeps the frame's aspect ratio exactly, fits the canvas height,
/// starts at the left edge, and leaves equal borders above and below.
pub proof fn lemma_letterbox_wide_frame(fw: int, fh: int, cw: int, ch: int)
    requires
        1 <= fw <= 0x4000_0000,
        1 <= fh <= 0x4000_0000,
        1 <= cw <= 0x4000_0000,
        1 <= ch <= 0x4000_0000,
        fw * ch > cw * fh,
    ensures
        letterbox_spec(fw, fh, cw, ch).w_num == cw * letterbox_spec(fw, fh, cw, ch).den,
        letterbox_spec(fw, fh, cw, ch).h_num * fw == letterbox_spec(fw, fh, cw, ch).w_num * fh,
        letterbox_spec(fw, fh, cw, ch).h_num <= ch * letterbox_spec(fw, fh, cw, ch).den,
        letterbox_spec(fw, fh, cw, ch).x_num == 0,
        2 * letterbox_spec(fw, fh, cw, ch).y_num + letterbox_spec(fw, fh, cw, ch).h_num == ch
            * letterbox_spec(fw, fh, cw, ch).den,
{
    assert(0 <= 2 * cw * fw < 0x8000_0000_0000_0000 && 0 <= 2 * cw * fh < 0x8000_0000_0000_0000
        && 0 <= 2 * fw < 0x8000_0000_0000_0000 && 0 <= ch * fw - cw * fh < 0x8000_0000_0000_0000
        && 2 * cw * fw == cw * (2 * fw) && (2 * cw * fh) * fw == (2 * cw * fw) * fh && 2 * cw * fh
        <= ch * (2 * fw) && 2 * (ch * fw - cw * fh) + 2 * cw * fh == ch * (2 * fw))
        by (nonlinear_arith)
        requires
            1 <= fw <= 0x4000_0000,
            1 <= fh <= 0x4000_0000,
            1 <= cw <= 0x4000_0000,
            1 <= ch <= 0x4000_0000,
            fw * ch > cw * fh,
    ;
}

/// When the canvas is at least as wide as the frame, the box spans the full
/// canvas height, keeps the frame's aspect ratio exactly, fits the canvas
/// width, starts at the top edge, and leaves equal borders left and right.
pub proof fn lemma_letterbox_tall_frame(fw: int, fh: int, cw: int, ch: int)
    requires
        1 <= fw <= 0x4000_0000,
        1 <= fh <= 0x4000_0000,
        1 <= cw <= 0x4000_0000,
        1 <= ch <= 0x4000_0000,
        fw * ch <= cw * fh,
    ensures
        letterbox_spec(fw, fh, cw, ch).h_num == ch * letterbox_spec(fw, fh, cw, ch).den,
        letterbox_spec(fw, fh, cw, ch).h_num * fw == letterbox_spec(fw, fh, cw, ch).w_num * fh,
        letterbox_spec(fw, fh, cw, ch).w_num <= cw * letterbox_spec(fw, fh, cw, ch).den,
        letterbox_spec(fw, fh, cw, ch).y_num == 0,
        2 * letterbox_spec(fw, fh, cw, ch).x_num + letterbox_spec(fw, fh, cw, ch).w_num == cw
            * letterbox_spec(fw, fh, cw, ch).den,
{
    assert(0 <= 2 * ch * fw < 0x8000_0000_0000_0000 && 0 <= 2 * ch * fh < 0x8000_0000_0000_0000
        && 0 <= 2 * fh < 0x8000_0000_0000_0000 && 0 <= cw * fh - ch * fw < 0x8000_0000_0000_0000
        && 2 * ch * fh == ch * (2 * fh) && (2 * ch * fh) * fw == (2 * ch * fw) * fh && 2 * ch * fw
        <= cw * (2 * fh) && 2 * (cw * fh - ch * fw) + 2 * ch * fw == cw * (2 * fh))
        by (nonlinear_arith)
        requires
            1 <= fw <= 0x4000_0000,
            1 <= fh <= 0x4000_0000,
            1 <= cw <= 0x4000_0000,
            1 <= ch <= 0x4000_0000,
            fw * ch <= cw * fh,
    ;
}

/// The accumulation parity that holds after `k` swaps from `start`.
pub open spec fn parity_after(start: bool, k: int) -> bool {
    if k % 2 == 0 {
        start
    } else {
        !start
    }
}

/// One subframe: swap to `write_front`, rasterize with `params` into the
/// cleared sample target, then downsample into the front accumulation
/// target, reading the back target as history under the `stale` flag.
#[derive(Clone, Copy, Debug, PartialEq, Eq, Structural)]
pub struct SubframePass {
    /// Parity of the accumulation target written by the downsample pass.
    pub write_front: bool,
    /// Parity of the accumulation target read as history; never the one
    /// written.
    pub read_back: bool,
    /// Whether the camera or output configuration changed since the last
    /// completed frame: the downsample pass then replaces the front target
    /// with the freshly filtered sample instead of blending history in.
    pub stale: bool,
    /// Uniform values of the splat draw call in this subframe.
    pub params: DrawParams,
}

/// The composite at the end of a frame: the front accumulation target of
/// parity `source`, letterboxed to `viewport` on the canvas.
#[derive(Clone, Copy, Debug, PartialEq, Eq, Structural)]
pub struct CompositeStep {
    pub source: bool,
    pub viewport: Viewport,
}

/// Everything one displayed frame does between input and presentation.
/// With no scene loaded there are no subframes and no composite: the UI
/// overlay alone is drawn over the clear color.
pub struct DisplayFramePlan {
    pub subframes: Vec<SubframePass>,
    pub composite: Option<CompositeStep>,
}

/// Lay out `count` subframes starting from accumulation parity `start`.
///
/// Subframe `k` swaps first, so it writes the parity reached after `k + 1`
/// swaps and reads the one before it: the written and read targets always
/// differ, consecutive subframes chain front to back, and all subframes
/// share the frame's stale flag and draw parameters.
pub fn plan_subframes(start: bool, count: u32, stale: bool, params: DrawParams) -> (subframes:
    Vec<SubframePass>)
    ensures
        subframes@.len() == count,
        forall|k: int|
            0 <= k < count ==> subframes@[k] == (SubframePass {
                write_front: parity_after(start, k + 1),
                read_back: parity_after(start, k),
                stale,
                params,
            }),
{
    let mut subframes: Vec<SubframePass> = Vec::new();
    let mut parity = start;
    let mut k: u32 = 0;
    while k < count
        invariant
            0 <= k <= count,
            subframes@.len() == k,
            parity == parity_after(start, k as int),
            forall|i: int|
                0 <= i < k ==> subframes@[i] == (SubframePass {
                    write_front: parity_after(start, i + 1),
                    read_back: parity_after(start, i),
                    stale,
                    params,
                }),
        decreases count - k,
    {
        let write_front = !parity;
        subframes.push(SubframePass { write_front, read_back: parity, stale, params });
        parity = write_front;
        k += 1;
    }
    subframes
}

/// Whether the presentable surface must be reconfigured before this frame:
/// exactly when its current back buffer is missing or differs from the
/// canvas size.
pub fn surface_needs_configure(
    current: Option<(u32, u32)>,
    canvas_width: u32,
    canvas_height: u32,
) -> (r: bool)
    ensures
        r <==> match current {
            Option::None => true,
            Option::Some(wh) => wh.0 != canvas_width || wh.1 != canvas_height,
        },
{
    match current {
        Option::None => true,
        Option::Some((w, h)) => w != canvas_width || h != canvas_height,
    }
}

/// No subframe ever reads the accumulation target it writes, and each
/// subframe reads exactly what its predecessor wrote.
pub proof fn lemma_subframes_never_alias(start: bool, count: u32, stale: bool, params: DrawParams,
    subframes: Seq<SubframePass>)
    requires
        subframes.len() == count,
        forall|k: int|
            0 <= k < count ==> subframes[k] == (SubframePass {
                write_front: parity_after(start, k + 1),
                read_back: parity_after(start, k),
                stale,
                params,
            }),
    ensures
        forall|k: int| 0 <= k < count ==> (#[trigger] subframes[k]).write_front
            != subframes[k].read_back,
        forall|k: int|
            1 <= k < count ==> (#[trigger] subframes[k]).read_back == subframes[k
                - 1].write_front,
{
    assert forall|k: int| 0 <= k < count implies (#[trigger] subframes[k]).write_front
        != subframes[k].read_back by {
        assert(parity_after(start, k + 1) == !parity_after(start, k));
    }
}

} // verus!
