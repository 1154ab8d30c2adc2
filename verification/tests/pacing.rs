//! The adaptive pacer on concrete latency sequences.

use splatview::pacer::PacingState;

#[test]
fn starts_at_one_subframe() {
    let p = PacingState::new();
    assert_eq!(p.subframe_count, 1);
    assert_eq!(p.avg_frame_micros, 16667);
}

#[test]
fn smoothing_formula_is_exact() {
    let mut p = PacingState::new();
    p.update(Some(10000), true);
    // (9 * 16667 + 10000 / 1) / 10, in whole microseconds.
    assert_eq!(p.avg_frame_micros, 16000);
}

#[test]
fn first_frame_without_delta_assumes_15ms() {
    let mut p = PacingState::new();
    p.update(None, true);
    assert_eq!(p.avg_frame_micros, (9 * 16667 + 15000) / 10);
}

#[test]
fn fast_frames_raise_the_count_strictly() {
    // One millisecond per subframe: the realized frame time stays far below
    // the 18 ms floor, so every frame spends one more subframe than the one
    // before.
    let mut p = PacingState { avg_frame_micros: 1000, subframe_count: 1 };
    for _ in 0..8 {
        let prev = p.subframe_count;
        p.update(Some(1000 * (prev as u64)), true);
        assert_eq!(p.subframe_count, prev + 1);
    }
}

#[test]
fn slow_frames_shed_subframes_to_one_and_not_below() {
    let mut p = PacingState { avg_frame_micros: 30000, subframe_count: 4 };
    for expected in [3u32, 2, 1, 1, 1] {
        p.update(Some(30000 * (p.subframe_count as u64)), true);
        assert_eq!(p.subframe_count, expected, "never below one subframe");
    }
}

#[test]
fn band_interior_holds_the_count() {
    // Realized time lands between 18 and 25 ms: neither raise nor shed.
    let mut p = PacingState { avg_frame_micros: 20000, subframe_count: 1 };
    p.update(Some(20000), true);
    assert_eq!(p.subframe_count, 1);
}

#[test]
fn no_scene_never_raises_the_count() {
    let mut p = PacingState::new();
    p.update(Some(1000), false);
    assert_eq!(p.subframe_count, 1);
}
