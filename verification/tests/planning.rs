//! Whole-frame planning: letterboxed composition and the subframe sequence
//! with its ping-pong discipline and stale handling.

use splatview::render::{letterbox_viewport, surface_needs_configure};
use splatview::resolution::RenderResolution;
use splatview::scene::Scene;
use splatview::state::AppState;

#[test]
fn wide_frame_letterboxes_top_and_bottom() {
    // Frame 1920x1080 on a square 1000x1000 canvas.
    let v = letterbox_viewport(1920, 1080, 1000, 1000);
    assert_eq!(v.den, 3840);
    assert_eq!(v.x_num, 0);
    // Full canvas width, height reduced proportionally: 562.5 pixels.
    assert_eq!(v.w_num, 1000 * v.den);
    assert_eq!(v.h_num, 2_160_000);
    // Vertical border of (1000 - 562.5) / 2 = 218.75 pixels on each side.
    assert_eq!(v.y_num, 840_000);
    assert_eq!(2 * v.y_num + v.h_num, 1000 * v.den);
    // Aspect ratio preserved exactly.
    assert_eq!(v.h_num * 1920, v.w_num * 1080);
}

#[test]
fn tall_frame_letterboxes_left_and_right() {
    // Frame 640x360 on a much wider 4000x1000 canvas.
    let v = letterbox_viewport(640, 360, 4000, 1000);
    assert_eq!(v.den, 720);
    assert_eq!(v.y_num, 0);
    // Full canvas height, width reduced proportionally.
    assert_eq!(v.h_num, 1000 * v.den);
    assert_eq!(v.w_num, 1_280_000);
    assert_eq!(v.x_num, 800_000);
    assert_eq!(2 * v.x_num + v.w_num, 4000 * v.den);
    assert_eq!(v.h_num * 640, v.w_num * 360);
}

#[test]
fn matching_aspect_fills_the_canvas() {
    let v = letterbox_viewport(1920, 1080, 3840, 2160);
    assert_eq!(v.x_num, 0);
    assert_eq!(v.y_num, 0);
    assert_eq!(v.w_num, 3840 * v.den);
    assert_eq!(v.h_num, 2160 * v.den);
}

#[test]
fn surface_reconfigures_only_on_mismatch() {
    assert!(surface_needs_configure(None, 800, 600));
    assert!(surface_needs_configure(Some((801, 600)), 800, 600));
    assert!(surface_needs_configure(Some((800, 601)), 800, 600));
    assert!(!surface_needs_configure(Some((800, 600)), 800, 600));
}

#[test]
fn no_scene_renders_nothing_but_ui() {
    let mut st = AppState::new(RenderResolution::Ws1080P, 2);
    assert!(st.stale_camera);
    let plan = st.begin_frame(None, 1000, 1000);
    assert!(plan.subframes.is_empty());
    assert!(plan.composite.is_none());
    assert!(!st.stale_camera);
}

#[test]
fn first_frame_is_stale_and_ping_pongs() {
    let mut st = AppState::new(RenderResolution::Ws1080P, 2);
    st.install_scene(Scene { num_tris: 4, t: 0 });
    assert!(st.stale_camera, "a fresh scene starts with no usable history");

    let plan = st.begin_frame(Some(20_000), 1000, 1000);
    // Pacer: average (9 * 16667 + 20000) / 10 = 17000, realized 17 ms < 18,
    // so the frame spends two subframes.
    assert_eq!(st.pacing.subframe_count, 2);
    assert_eq!(plan.subframes.len(), 2);

    for (k, sub) in plan.subframes.iter().enumerate() {
        assert!(sub.stale, "the whole stale frame replaces history");
        assert_ne!(sub.write_front, sub.read_back, "never read and write one target");
        if k > 0 {
            assert_eq!(sub.read_back, plan.subframes[k - 1].write_front);
        }
        assert_eq!(sub.params.seed, 1, "time advanced once for the frame");
        assert_eq!(sub.params.num_tris, 4);
        assert_eq!(sub.params.vertex_count, 12);
        assert_eq!(sub.params.supersample, 2);
        assert_eq!((sub.params.fb_width, sub.params.fb_height), (3840, 2160));
    }
    let composite = plan.composite.expect("a loaded scene is composited");
    assert_eq!(composite.source, plan.subframes[1].write_front);
    assert_eq!(composite.viewport, letterbox_viewport(1920, 1080, 1000, 1000));
    assert_eq!(st.render_frame.front, plan.subframes[1].write_front);
    assert!(!st.stale_camera, "one cycle consumes the flag");
}

#[test]
fn settled_camera_blends_history() {
    let mut st = AppState::new(RenderResolution::Ws1080P, 2);
    st.install_scene(Scene { num_tris: 4, t: 0 });
    let _ = st.begin_frame(Some(20_000), 1000, 1000);
    let plan = st.begin_frame(Some(20_000), 1000, 1000);
    assert!(!plan.subframes.is_empty());
    for sub in &plan.subframes {
        assert!(!sub.stale, "unchanged view keeps accumulating");
    }
    // Moving the camera makes the next frame discard history again.
    st.mark_camera_moved();
    let plan = st.begin_frame(Some(20_000), 1000, 1000);
    for sub in &plan.subframes {
        assert!(sub.stale);
    }
}

#[test]
fn pausing_freezes_the_seed() {
    let mut st = AppState::new(RenderResolution::Ws720P, 1);
    st.install_scene(Scene { num_tris: 1, t: 0 });
    st.set_paused(true);
    let plan = st.begin_frame(Some(20_000), 500, 500);
    assert_eq!(plan.subframes[0].params.seed, 0);
    st.set_paused(false);
    let plan = st.begin_frame(Some(20_000), 500, 500);
    assert_eq!(plan.subframes[0].params.seed, 1);
}

#[test]
fn changed_configuration_rebuilds_the_frame() {
    let mut st = AppState::new(RenderResolution::Ws1080P, 1);
    let _ = st.begin_frame(None, 800, 600);
    assert!(!st.stale_camera);

    st.set_resolution(RenderResolution::Ws1080P, 1);
    assert!(!st.stale_camera, "an unchanged configuration changes nothing");

    st.set_resolution(RenderResolution::Ws1080P, 3);
    assert!(st.stale_camera, "a new supersample factor resets history");
    assert_eq!(st.render_frame.sample_width, 1920 * 3);
    assert_eq!(st.render_frame.accum_width, 1920);

    st.begin_frame(None, 800, 600);
    st.set_resolution(RenderResolution::Ws360P, 3);
    assert!(st.stale_camera);
    assert_eq!(st.render_frame.sample_width, 640 * 3);
}
