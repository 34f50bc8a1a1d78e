//! Per-tick frame processing: jank classification over a window of frame
//! timings, and the activation / deactivation steps around an abstract frame
//! sensor and performance controller.

use vstd::prelude::*;

verus! {

/// Nanoseconds in one second; frame durations are carried as nanoseconds.
pub const NANOS_PER_SEC: u64 = 1_000_000_000;

/// Nominal per-frame budget, in milliseconds, used only to size the sampling
/// horizon on activation; independent of the actual target frame rate.
pub const FRAME_WINDOW_MS: u64 = 40;

/// Slack below the target frame rate that is still considered smooth.
pub const FPS_SLACK: u64 = 3;

/// An error reported by a frame sensor or performance controller.
#[derive(Debug)]
pub struct SchedulerError {
    pub what: String,
}

/// A source of frame timing data for the monitored process. Implementations
/// live outside the verified core; the scheduler is verified for every
/// behaviour of them.
pub trait VirtualFrameSensor {
    /// Stop collecting frame timings.
    fn pause(&self) -> Result<(), SchedulerError>;

    /// Start collecting, sampling `frame_windows` windows over a horizon of
    /// `fps_time_ms` milliseconds.
    fn resume(&self, frame_windows: u32, fps_time_ms: u64) -> Result<(), SchedulerError>;

    /// The most recent window of frame durations, in nanoseconds.
    fn frametimes(&self, target_fps: u32) -> Vec<u64>;

    /// The average frame rate over the same window, in frames per second.
    fn fps(&self) -> u32;
}

/// The actuator that applies or relaxes a performance bound.
pub trait VirtualPerformanceController {
    fn plug_in(&self) -> Result<(), SchedulerError>;

    fn plug_out(&self) -> Result<(), SchedulerError>;

    /// Relax the frequency bound: the app is smooth.
    fn release(&self);

    /// Apply the current bound: jank was detected or data is insufficient.
    fn limit(&self);
}

/// The target frame duration in nanoseconds for a target frame rate.
pub open spec fn spec_target_frametime(target_fps: u32) -> int {
    NANOS_PER_SEC as int / target_fps as int
}

/// The per-frame spike tolerance: about 3.45% over the frame budget. A single
/// frame longer than this counts as jank even when the average looks fine.
pub open spec fn spec_spike_limit(target_fps: u32) -> int {
    spec_target_frametime(target_fps) * 30 / 29
}

/// The jank classifier: a window is janking when it is empty (no recent
/// data, treated conservatively), when the average frame rate falls more
/// than the slack band below the target, or when any single frame exceeds
/// the spike tolerance.
pub open spec fn spec_jank(frametimes: Seq<u64>, avg_fps: u32, target_fps: u32) -> bool {
    ||| frametimes.len() == 0
    ||| avg_fps + FPS_SLACK <= target_fps
    ||| exists|i: int|
        0 <= i < frametimes.len() && frametimes[i] > spec_spike_limit(target_fps)
}

/// The window is empty: classified as jank.
pub proof fn lemma_jank_on_empty_window(frametimes: Seq<u64>, avg_fps: u32, target_fps: u32)
    requires
        frametimes.len() == 0,
    ensures
        spec_jank(frametimes, avg_fps, target_fps),
{
}

/// Every frame within the spike tolerance and an average no more than the
/// slack band below the target: classified as smooth.
pub proof fn lemma_smooth_window(frametimes: Seq<u64>, avg_fps: u32, target_fps: u32)
    requires
        frametimes.len() > 0,
        avg_fps + FPS_SLACK > target_fps,
        forall|i: int|
            0 <= i < frametimes.len() ==> frametimes[i] <= spec_spike_limit(target_fps),
    ensures
        !spec_jank(frametimes, avg_fps, target_fps),
{
}

/// Whether the window of frame durations counts as janking against the
/// target frame rate, combining the aggregate test and the worst-case test.
pub fn jank(frametimes: &Vec<u64>, avg_fps: u32, target_fps: u32) -> (r: bool)
    requires
        1 <= target_fps,
    ensures
        r == spec_jank(frametimes@, avg_fps, target_fps),
{
    if frametimes.len() == 0 {
        return true;
    }
    if avg_fps as u64 + FPS_SLACK <= target_fps as u64 {
        return true;
    }
    let target_frametime: u64 = NANOS_PER_SEC / (target_fps as u64);
    let limit: u64 = target_frametime * 30 / 29;
    assert(limit == spec_spike_limit(target_fps));
    let mut i: usize = 0;
    while i < frametimes.len()
        invariant
            0 <= i <= frametimes@.len(),
            limit == spec_spike_limit(target_fps),
            forall|j: int| 0 <= j < i ==> frametimes@[j] <= spec_spike_limit(target_fps),
        decreases frametimes@.len() - i,
    {
        if frametimes[i] > limit {
            return true;
        }
        i = i + 1;
    }
    false
}

/// The scheduler's per-tick and activation API around the two abstract
/// collaborators.
pub struct Scheduler;

impl Scheduler {
    /// Pause the sensor and plug out the controller, propagating the first
    /// failure without rolling the other step back.
    pub fn process_unload<S: VirtualFrameSensor, C: VirtualPerformanceController>(
        sensor: &S,
        controller: &C,
    ) -> (r: Result<(), SchedulerError>) {
        match sensor.pause() {
            Ok(()) => {},
            Err(e) => {
                return Err(e);
            },
        }
        match controller.plug_out() {
            Ok(()) => {},
            Err(e) => {
                return Err(e);
            },
        }
        Ok(())
    }

    /// Resume the sensor with a horizon of `frame_windows` nominal frame
    /// budgets and plug in the controller. On success the returned horizon
    /// is exactly `frame_windows * 40` milliseconds.
    pub fn init_load<S: VirtualFrameSensor, C: VirtualPerformanceController>(
        sensor: &S,
        controller: &C,
        frame_windows: u32,
    ) -> (r: Result<u64, SchedulerError>)
        ensures
            r matches Ok(t) ==> t == frame_windows * FRAME_WINDOW_MS,
    {
        let fps_time_ms: u64 = (frame_windows as u64) * FRAME_WINDOW_MS;
        match sensor.resume(frame_windows, fps_time_ms) {
            Ok(()) => {},
            Err(e) => {
                return Err(e);
            },
        }
        match controller.plug_in() {
            Ok(()) => {},
            Err(e) => {
                return Err(e);
            },
        }
        Ok(fps_time_ms)
    }

    /// One control tick: pull the latest window and average frame rate from
    /// the sensor, classify it, and issue exactly one of `release` (smooth)
    /// or `limit` (janking or insufficient data) to the controller.
    pub fn process_load<S: VirtualFrameSensor, C: VirtualPerformanceController>(
        sensor: &S,
        controller: &C,
        target_fps: u32,
    )
        requires
            1 <= target_fps,
    {
        let frametimes = sensor.frametimes(target_fps);
        let fps = sensor.fps();
        if jank(&frametimes, fps, target_fps) {
            controller.limit();
        } else {
            controller.release();
        }
    }
}

} // verus!
