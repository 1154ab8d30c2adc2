//! The single owned viewer context and its per-frame cycle.
//!
//! All mutable state of the viewer core lives in one `AppState` value that
//! the application passes explicitly into every update and render call, so
//! access is strictly serialized. External collaborators only ever set the
//! configuration — resolution, supersample factor, pause flag, camera
//! staleness — and once per displayed frame `begin_frame` turns the state
//! into a complete `DisplayFramePlan`: it runs the pacer, advances the scene
//! time, lays out the subframe passes over the ping-pong targets, and
//! letterboxes the composite. Replacing the scene or the render frame only
//! swaps the described value; the application keeps the old GPU resources
//! alive until no in-flight work references them.

use crate::frame::{create_render_frame, frame_for, frame_shape_ok, resolution_ok, RenderFrame};
use crate::pacer::{pacer_next, PacingState};
use crate::render::{
    letterbox_spec, letterbox_viewport, parity_after, plan_subframes, CompositeStep,
    DisplayFramePlan, SubframePass,
};
use crate::resolution::RenderResolution;
use crate::scene::{DrawParams, Scene};
use vstd::prelude::*;

verus! {

/// `s` one frame later: the time counter moves only while unpaused.
pub open spec fn scene_advanced(s: Scene, paused: bool) -> Scene {
    Scene { num_tris: s.num_tris, t: if paused { s.t } else { (s.t + 1) as u32 } }
}

/// The viewer core's entire mutable state.
pub struct AppState {
    /// The installed scene, if one finished loading; never partial.
    pub scene: Option<Scene>,
    pub render_resolution: RenderResolution,
    /// Linear supersampling factor, one through five.
    pub supersample: u32,
    /// Shapes and parity of the current render-target generation.
    pub render_frame: RenderFrame,
    pub pacing: PacingState,
    pub paused: bool,
    /// Raised by camera or configuration changes; consumed by one frame.
    pub stale_camera: bool,
}

impl AppState {
    /// The state the rest of the contracts maintain: a valid configuration,
    /// a render frame of exactly the configured shape, a sound pacer, and a
    /// scene small enough that its vertex count fits the draw call.
    pub open spec fn wf(&self) -> bool {
        &&& resolution_ok(self.render_resolution)
        &&& 1 <= self.supersample <= 5
        &&& frame_shape_ok(self.render_frame, self.render_resolution, self.supersample)
        &&& self.pacing.wf()
        &&& (self.scene matches Some(s) ==> s.num_tris <= 0x5555_5555)
    }

    /// A fresh viewer: no scene, a frame allocated for the configuration,
    /// the pacer at one subframe, and the first frame marked stale.
    pub fn new(resolution: RenderResolution, supersample: u32) -> (s: AppState)
        requires
            resolution_ok(resolution),
            1 <= supersample <= 5,
        ensures
            s.wf(),
            s.scene is None,
            s.render_resolution == resolution,
            s.supersample == supersample,
            s.render_frame == frame_for(resolution, supersample),
            s.pacing == (PacingState { avg_frame_micros: 16667, subframe_count: 1 }),
            s.paused == false,
            s.stale_camera == true,
    {
        let render_frame = create_render_frame(&resolution, supersample);
        AppState {
            scene: None,
            render_resolution: resolution,
            supersample,
            render_frame,
            pacing: PacingState::new(),
            paused: false,
            stale_camera: true,
        }
    }

    /// Install a fully loaded scene, replacing any previous one whole, and
    /// reset the accumulation history: the next frame starts stale.
    pub fn install_scene(&mut self, scene: Scene)
        requires
            old(self).wf(),
            scene.num_tris <= 0x5555_5555,
        ensures
            *final(self) == (AppState { scene: Some(scene), stale_camera: true, ..*old(self) }),
            final(self).wf(),
    {
        self.scene = Some(scene);
        self.stale_camera = true;
    }

    /// The camera moved or zoomed: the accumulated history no longer
    /// matches the view and must be discarded by the next frame.
    pub fn mark_camera_moved(&mut self)
        ensures
            *final(self) == (AppState { stale_camera: true, ..*old(self) }),
    {
        self.stale_camera = true;
    }

    pub fn set_paused(&mut self, paused: bool)
        ensures
            *final(self) == (AppState { paused, ..*old(self) }),
    {
        self.paused = paused;
    }

    /// Apply a configuration change. A changed resolution or supersample
    /// factor replaces the render frame atomically with a fresh one of the
    /// new shape and marks the camera stale; an unchanged configuration
    /// leaves the state untouched.
    pub fn set_resolution(&mut self, resolution: RenderResolution, supersample: u32)
        requires
            old(self).wf(),
            resolution_ok(resolution),
            1 <= supersample <= 5,
        ensures
            final(self).wf(),
            resolution == old(self).render_resolution && supersample == old(self).supersample
                ==> *final(self) == *old(self),
            !(resolution == old(self).render_resolution && supersample == old(self).supersample)
                ==> *final(self) == (AppState {
                render_resolution: resolution,
                supersample,
                render_frame: frame_for(resolution, supersample),
                stale_camera: true,
                ..*old(self)
            }),
    {
        if resolution == self.render_resolution && supersample == self.supersample {
            return ;
        }
        let render_frame = create_render_frame(&resolution, supersample);
        self.render_resolution = resolution;
        self.supersample = supersample;
        self.render_frame = render_frame;
        self.stale_camera = true;
    }

    /// Run one displayed frame's decisions and lay out its GPU work.
    ///
    /// The pacer consumes the measured delta and fixes the subframe count;
    /// the scene time advances once unless paused; the plan then holds
    /// exactly that many subframes, alternating the accumulation parity from
    /// the current front, all carrying this frame's stale flag and uniform
    /// values, and a composite of the last written front target, letterboxed
    /// into the canvas. Without a scene there is nothing to render or
    /// composite. The stale flag is consumed either way.
    pub fn begin_frame(&mut self, delta_micros: Option<u64>, canvas_width: u32, canvas_height: u32)
        -> (plan: DisplayFramePlan)
        requires
            old(self).wf(),
            old(self).pacing.subframe_count < 0xFFFF_FFFF,
            (delta_micros matches Some(d) ==> d < 0x1_0000_0000),
            (old(self).scene matches Some(s) ==> s.t < 0xFFFF_FFFF),
            1 <= canvas_width <= 0x4000_0000,
            1 <= canvas_height <= 0x4000_0000,
        ensures
            final(self).wf(),
            final(self).pacing == pacer_next(
                old(self).pacing,
                delta_micros,
                old(self).scene is Some,
            ),
            final(self).render_resolution == old(self).render_resolution,
            final(self).supersample == old(self).supersample,
            final(self).paused == old(self).paused,
            final(self).stale_camera == false,
            old(self).scene is None ==> {
                &&& final(self).scene is None
                &&& final(self).render_frame == old(self).render_frame
                &&& plan.subframes@.len() == 0
                &&& plan.composite is None
            },
            (old(self).scene matches Some(s) ==> ({
                let count = pacer_next(old(self).pacing, delta_micros, true).subframe_count;
                let advanced = scene_advanced(s, old(self).paused);
                let start = old(self).render_frame.front;
                let params = (DrawParams {
                    fb_width: old(self).render_frame.sample_width,
                    fb_height: old(self).render_frame.sample_height,
                    num_tris: s.num_tris as u32,
                    seed: advanced.t,
                    supersample: old(self).supersample,
                    vertex_count: (3 * s.num_tris) as u32,
                });
                &&& final(self).scene == Some(advanced)
                &&& final(self).render_frame == (RenderFrame {
                    front: parity_after(start, count as int),
                    ..old(self).render_frame
                })
                &&& plan.subframes@.len() == count
                &&& (forall|k: int|
                    0 <= k < count ==> plan.subframes@[k] == (SubframePass {
                        write_front: parity_after(start, k + 1),
                        read_back: parity_after(start, k),
                        stale: old(self).stale_camera,
                        params,
                    }))
                &&& plan.composite == Some(CompositeStep {
                    source: parity_after(start, count as int),
                    viewport: letterbox_spec(
                        old(self).render_resolution.spec_width() as int,
                        old(self).render_resolution.spec_height() as int,
                        canvas_width as int,
                        canvas_height as int,
                    ),
                })
            })),
    {
        let scene_loaded = self.scene.is_some();
        self.pacing.update(delta_micros, scene_loaded);
        let count = self.pacing.subframe_count;
        let stale = self.stale_camera;
        self.stale_camera = false;

        if let Some(sc) = self.scene {
            let mut sc = sc;
            sc.advance_time(self.paused);
            self.scene = Some(sc);

            let params = sc.draw_params(
                self.render_frame.sample_width,
                self.render_frame.sample_height,
                self.supersample,
            );
            let start = self.render_frame.front;
            let subframes = plan_subframes(start, count, stale, params);
            let new_front = if count % 2 == 1 {
                !start
            } else {
                start
            };
            self.render_frame.front = new_front;

            let w = self.render_resolution.width();
            let h = self.render_resolution.height();
            let viewport = letterbox_viewport(w, h, canvas_width, canvas_height);
            DisplayFramePlan {
                subframes,
                composite: Some(CompositeStep { source: new_front, viewport }),
            }
        } else {
            DisplayFramePlan { subframes: Vec::new(), composite: None }
        }
    }
}

} // verus!
