//! The adaptive subframe pacer.
//!
//! Once per displayed frame the viewer measures the wall-clock delta since
//! the previous frame, smooths an estimate of the cost of one subframe, and
//! nudges the subframe count so that the realized frame time stays inside a
//! target band: below 18 ms it spends the idle budget on an extra subframe,
//! above 25 ms it sheds one, and it never drops below one subframe. Times
//! are carried in whole microseconds so that the controller is exact.

use vstd::prelude::*;

verus! {

/// Smoothed per-subframe latency estimate and the current subframe count.
#[derive(Clone, Copy, Debug, PartialEq, Eq, Structural)]
pub struct PacingState {
    /// Exponential moving average of the cost of one subframe, microseconds.
    pub avg_frame_micros: u64,
    /// Subframes to spend on the next displayed frame; at least one.
    pub subframe_count: u32,
}

/// Exponential smoothing with the original's weights: nine parts history,
/// one part fresh measurement.
pub open spec fn smoothed_average(avg: int, per_subframe: int) -> int {
    (9 * avg + per_subframe) / 10
}

/// The per-subframe cost that one frame delta witnesses: the delta divided
/// by the count of subframes the previous frame spent; the first frame,
/// which has no delta yet, is taken as 15 ms per subframe.
pub open spec fn per_subframe_micros(s: PacingState, delta_micros: Option<u64>) -> int {
    match delta_micros {
        Some(d) => d as int / s.subframe_count as int,
        None => 15000,
    }
}

/// The realized whole-frame time the controller steers by: the smoothed
/// per-subframe estimate after this measurement, times the current count.
pub open spec fn pacer_realized(s: PacingState, delta_micros: Option<u64>) -> int {
    smoothed_average(s.avg_frame_micros as int, per_subframe_micros(s, delta_micros))
        * s.subframe_count as int
}

/// The state one pacing step yields: the smoothed average always advances;
/// the count rises by one when the realized time is under 18 ms and a scene
/// is loaded, falls by one when it is over 25 ms and more than one subframe
/// is spent, and otherwise holds.
pub open spec fn pacer_next(s: PacingState, delta_micros: Option<u64>, scene_loaded: bool)
    -> PacingState {
    let avg = smoothed_average(s.avg_frame_micros as int, per_subframe_micros(s, delta_micros));
    let realized = avg * s.subframe_count as int;
    let count = if realized < 18000 && scene_loaded {
        s.subframe_count as int + 1
    } else if realized > 25000 && s.subframe_count > 1 {
        s.subframe_count as int - 1
    } else {
        s.subframe_count as int
    };
    PacingState { avg_frame_micros: avg as u64, subframe_count: count as u32 }
}

impl PacingState {
    /// The pacer's numbers stay in comfortable ranges: at least one
    /// subframe and a bounded average.
    pub open spec fn wf(&self) -> bool {
        &&& 1 <= self.subframe_count
        &&& self.avg_frame_micros < 0x1_0000_0000
    }

    /// Start from one subframe and the 60 Hz frame cost in microseconds.
    pub fn new() -> (s: PacingState)
        ensures
            s.wf(),
            s.avg_frame_micros == 16667,
            s.subframe_count == 1,
    {
        PacingState { avg_frame_micros: 16667, subframe_count: 1 }
    }

    /// One pacing step, exactly as `pacer_next` describes it.
    pub fn update(&mut self, delta_micros: Option<u64>, scene_loaded: bool)
        requires
            old(self).wf(),
            old(self).subframe_count < 0xFFFF_FFFF,
            (delta_micros matches Some(d) ==> d < 0x1_0000_0000),
        ensures
            *final(self) == pacer_next(*old(self), delta_micros, scene_loaded),
            final(self).wf(),
    {
        let per: u64 = match delta_micros {
            Some(d) => d / (self.subframe_count as u64),
            None => 15000,
        };
        self.avg_frame_micros = (9 * self.avg_frame_micros + per) / 10;
        proof {
            let avg = self.avg_frame_micros as int;
            let count = self.subframe_count as int;
            assert(avg * count < 0x1_0000_0000_0000_0000) by (nonlinear_arith)
                requires
                    0 <= avg < 0x1_0000_0000,
                    0 <= count < 0x1_0000_0000,
            ;
        }
        let realized: u64 = self.avg_frame_micros * (self.subframe_count as u64);
        if realized < 18000 && scene_loaded {
            self.subframe_count = self.subframe_count + 1;
        } else if realized > 25000 && self.subframe_count > 1 {
            self.subframe_count = self.subframe_count - 1;
        }
    }
}

/// While the realized frame time stays under the 18 ms floor with a scene
/// loaded, every pacing step raises the subframe count by exactly one: the
/// count strictly increases frame over frame.
pub proof fn lemma_pacer_count_increases(
    s: PacingState,
    delta_micros: Option<u64>,
    scene_loaded: bool,
)
    requires
        s.wf(),
        s.subframe_count < 0xFFFF_FFFF,
        scene_loaded,
        pacer_realized(s, delta_micros) < 18000,
    ensures
        pacer_next(s, delta_micros, scene_loaded).subframe_count == s.subframe_count + 1,
{
}

/// While the realized frame time stays over the 25 ms ceiling and more than
/// one subframe is spent, every pacing step lowers the count by exactly one.
pub proof fn lemma_pacer_count_decreases(
    s: PacingState,
    delta_micros: Option<u64>,
    scene_loaded: bool,
)
    requires
        s.wf(),
        s.subframe_count > 1,
        pacer_realized(s, delta_micros) > 25000,
    ensures
        pacer_next(s, delta_micros, scene_loaded).subframe_count == s.subframe_count - 1,
{
}

/// The subframe count never leaves the pacer's hands below one.
pub proof fn lemma_pacer_count_at_least_one(
    s: PacingState,
    delta_micros: Option<u64>,
    scene_loaded: bool,
)
    requires
        s.wf(),
        s.subframe_count < 0xFFFF_FFFF,
    ensures
        pacer_next(s, delta_micros, scene_loaded).subframe_count >= 1,
{
}

} // verus!
