//! The fixed set of render resolutions the viewer offers, plus free-form
//! native sizes.

use vstd::prelude::*;

verus! {

/// Output resolution of the splat render, either one of the preset widescreen
/// sizes or an explicit width/height pair taken from the canvas.
#[derive(Clone, Copy, PartialEq, Eq, Structural)]
pub enum RenderResolution {
    Ws360P,
    Ws720P,
    Ws1080P,
    Ws1440P,
    Ws2160P,
    Native(u32, u32),
}

impl RenderResolution {
    /// Width in pixels of the render target this resolution stands for.
    pub open spec fn spec_width(&self) -> u32 {
        match self {
            RenderResolution::Ws360P => 640,
            RenderResolution::Ws720P => 1280,
            RenderResolution::Ws1080P => 1920,
            RenderResolution::Ws1440P => 2560,
            RenderResolution::Ws2160P => 3840,
            RenderResolution::Native(w, _) => *w,
        }
    }

    /// Height in pixels of the render target this resolution stands for.
    pub open spec fn spec_height(&self) -> u32 {
        match self {
            RenderResolution::Ws360P => 360,
            RenderResolution::Ws720P => 720,
            RenderResolution::Ws1080P => 1080,
            RenderResolution::Ws1440P => 1440,
            RenderResolution::Ws2160P => 2160,
            RenderResolution::Native(_, h) => *h,
        }
    }

    pub fn width(&self) -> (w: u32)
        ensures
            w == self.spec_width(),
    {
        match self {
            RenderResolution::Ws360P => 640,
            RenderResolution::Ws720P => 1280,
            RenderResolution::Ws1080P => 1920,
            RenderResolution::Ws1440P => 2560,
            RenderResolution::Ws2160P => 3840,
            RenderResolution::Native(w, _) => *w,
        }
    }

    pub fn height(&self) -> (h: u32)
        ensures
            h == self.spec_height(),
    {
        match self {
            RenderResolution::Ws360P => 360,
            RenderResolution::Ws720P => 720,
            RenderResolution::Ws1080P => 1080,
            RenderResolution::Ws1440P => 1440,
            RenderResolution::Ws2160P => 2160,
            RenderResolution::Native(_, h) => *h,
        }
    }
}

} // verus!
