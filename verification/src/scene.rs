//! The loaded scene and the integer side of its GPU residency.
//!
//! A scene is the splat set the renderer owns after upload, together with a
//! monotonically increasing time counter that seeds stochastic sampling;
//! the counter advances once per displayed frame while unpaused, so every
//! frame varies the dither while the subframes of one frame share it. The
//! attribute textures are uploaded in fixed-width chunked rows; the chunk
//! geometry and the zero-padding of the final chunk are computed and proved
//! here, and the application performs the transfers they describe.

use crate::load::TSplat;
use vstd::prelude::*;

verus! {

/// Width in texels of every attribute texture.
pub const TEXTURE_WIDTH: u32 = 8192;

/// Rows uploaded per chunked transfer, bounding the size of one copy.
pub const ROWS_PER_CHUNK: u32 = 64;

/// Texels in one uploaded chunk: a full-width band of 64 rows.
pub const CHUNK_TEXELS: u32 = 524288;

/// The GPU-resident splat set: how many triangles were uploaded, and the
/// frame time counter used as the stochastic seed.
#[derive(Clone, Copy, Debug, PartialEq, Eq, Structural)]
pub struct Scene {
    pub num_tris: usize,
    pub t: u32,
}

/// The uniform values of one splat draw call, without its two
/// floating-point companions (camera origin and view-projection matrix),
/// which the application derives from the camera angles at the point of
/// submission.
#[derive(Clone, Copy, Debug, PartialEq, Eq, Structural)]
pub struct DrawParams {
    /// Width of the rasterization target: display width times supersample.
    pub fb_width: u32,
    /// Height of the rasterization target.
    pub fb_height: u32,
    /// How many triangles the draw covers.
    pub num_tris: u32,
    /// The scene's time counter, varying stochastic sampling per frame.
    pub seed: u32,
    /// Linear supersampling factor of the target.
    pub supersample: u32,
    /// Vertices the draw call issues: three per triangle.
    pub vertex_count: u32,
}

impl Scene {
    /// A scene installs all or nothing: it carries exactly the triangles of
    /// the loaded splat set, with the time counter at zero.
    pub fn new(splats: &TSplat) -> (s: Scene)
        ensures
            s.num_tris == splats.spec_num_tris(),
            s.t == 0,
    {
        Scene { num_tris: splats.num_tris(), t: 0 }
    }

    /// Advance the time counter by one frame; paused scenes hold still, so
    /// the counter never moves otherwise and never decreases.
    pub fn advance_time(&mut self, paused: bool)
        requires
            old(self).t < 0xFFFF_FFFF,
        ensures
            final(self).num_tris == old(self).num_tris,
            final(self).t == if paused {
                old(self).t as int
            } else {
                old(self).t + 1
            },
    {
        if !paused {
            self.t = self.t + 1;
        }
    }

    /// The uniform block of one draw call: target size, triangle count,
    /// the current seed, and three vertices per triangle.
    pub fn draw_params(&self, fb_width: u32, fb_height: u32, supersample: u32) -> (p: DrawParams)
        requires
            self.num_tris <= 0x5555_5555,
        ensures
            p == (DrawParams {
                fb_width,
                fb_height,
                num_tris: self.num_tris as u32,
                seed: self.t,
                supersample,
                vertex_count: (3 * self.num_tris) as u32,
            }),
            p.vertex_count == 3 * self.num_tris,
    {
        DrawParams {
            fb_width,
            fb_height,
            num_tris: self.num_tris as u32,
            seed: self.t,
            supersample,
            vertex_count: 3 * (self.num_tris as u32),
        }
    }
}

/// Height in texels of the padded attribute texture for `count` texels:
/// enough whole 64-row chunks of the fixed width to cover them all.
pub open spec fn padded_height(count: int) -> int {
    ((count + 524287) / 524288) * 64
}

/// Size of the attribute texture holding `count` texels: the fixed width,
/// and the padded height of a whole number of upload chunks, so the texture
/// extent always covers the triangle count.
pub fn get_padded_wh(count: usize) -> (wh: (u32, u32))
    requires
        count <= 0x0200_0000_0000,
    ensures
        wh.0 == TEXTURE_WIDTH,
        wh.1 == padded_height(count as int),
        wh.1 % ROWS_PER_CHUNK == 0,
        wh.0 * wh.1 >= count,
{
    let chunks: u64 = ((count as u64) + 524287) / 524288;
    proof {
        let c = count as int;
        assert(((c + 524287) / 524288) * 524288 >= c) by (nonlinear_arith)
            requires
                0 <= c,
        ;
        assert((c + 524287) / 524288 <= 0x80_0000) by (nonlinear_arith)
            requires
                0 <= c <= 0x0200_0000_0000,
        ;
        assert(((c + 524287) / 524288) * 64 <= 0x2000_0000) by (nonlinear_arith)
            requires
                0 <= (c + 524287) / 524288 <= 0x80_0000,
        ;
        assert(8192 * (((c + 524287) / 524288) * 64) == ((c + 524287) / 524288) * 524288)
            by (nonlinear_arith)
        ;
    }
    let h: u32 = (chunks as u32) * ROWS_PER_CHUNK;
    (TEXTURE_WIDTH, h)
}

/// The texels of upload chunk `chunk_index`: the matching run of `data`,
/// filled out to a whole chunk with `fill` once the data runs out, so the
/// texture is initialized over its whole extent.
pub fn padded_chunk<T: Copy>(data: &Vec<T>, chunk_index: u32, fill: T) -> (out: Vec<T>)
    requires
        chunk_index <= 0x0040_0000,
    ensures
        out@.len() == CHUNK_TEXELS,
        forall|j: int|
            0 <= j < CHUNK_TEXELS ==> out@[j] == (if (chunk_index as int) * 524288 + j
                < data@.len() {
                data@[(chunk_index as int) * 524288 + j]
            } else {
                fill
            }),
{
    let n = data.len();
    let base: u64 = (chunk_index as u64) * 524288;
    let mut out: Vec<T> = Vec::new();
    let mut j: u32 = 0;
    while j < CHUNK_TEXELS
        invariant
            0 <= j <= CHUNK_TEXELS,
            n == data@.len(),
            base == (chunk_index as int) * 524288,
            base <= 0x0200_0000_0000,
            out@.len() == j,
            forall|i: int|
                0 <= i < j ==> out@[i] == (if (chunk_index as int) * 524288 + i < data@.len() {
                    data@[(chunk_index as int) * 524288 + i]
                } else {
                    fill
                }),
        decreases CHUNK_TEXELS - j,
    {
        let idx: u64 = base + (j as u64);
        if idx < (n as u64) {
            out.push(data[idx as usize]);
        } else {
            out.push(fill);
        }
        j += 1;
    }
    out
}

} // verus!
