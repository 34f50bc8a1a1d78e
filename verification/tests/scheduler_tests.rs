use std::cell::Cell;

use fas_rs::scheduler::{
    jank, Scheduler, SchedulerError, VirtualFrameSensor, VirtualPerformanceController,
};

const MS: u64 = 1_000_000;

#[test]
fn jank_on_empty_window() {
    let frames: Vec<u64> = Vec::new();
    assert!(jank(&frames, 60, 60));
}

#[test]
fn smooth_window_is_not_jank() {
    // 60 fps target: every frame at 16ms is within the spike limit and the
    // average is inside the slack band.
    let frames: Vec<u64> = vec![16 * MS; 10];
    assert!(!jank(&frames, 60, 60));
    assert!(!jank(&frames, 58, 60));
}

#[test]
fn aggregate_band_counts_as_jank() {
    let frames: Vec<u64> = vec![16 * MS; 10];
    // avg 57 <= 60 - 3: jank by the aggregate test alone.
    assert!(jank(&frames, 57, 60));
    // avg 58 is inside the band.
    assert!(!jank(&frames, 58, 60));
}

#[test]
fn single_spike_dominates_good_average() {
    // One 20ms frame among nine 16ms frames: 20/16.67 = 1.20 > 30/29, so the
    // worst-case test fires even though the average fps of 58 is inside the
    // slack band.
    let mut frames: Vec<u64> = vec![16 * MS; 9];
    frames.push(20 * MS);
    assert!(jank(&frames, 58, 60));
}

#[test]
fn spike_limit_boundary() {
    // (1s / 60) * 30 / 29 = 17_241_378 ns, computed in integer steps.
    let limit = (1_000_000_000u64 / 60) * 30 / 29;
    assert_eq!(limit, 17_241_378);
    assert!(!jank(&vec![limit], 60, 60));
    assert!(jank(&vec![limit + 1], 60, 60));
}

struct TestSensor {
    fail_pause: bool,
    fail_resume: bool,
    frames: Vec<u64>,
    fps: u32,
    resumed_with: Cell<Option<(u32, u64)>>,
}

impl VirtualFrameSensor for TestSensor {
    fn pause(&self) -> Result<(), SchedulerError> {
        if self.fail_pause {
            Err(SchedulerError { what: String::from("pause failed") })
        } else {
            Ok(())
        }
    }

    fn resume(&self, frame_windows: u32, fps_time_ms: u64) -> Result<(), SchedulerError> {
        self.resumed_with.set(Some((frame_windows, fps_time_ms)));
        if self.fail_resume {
            Err(SchedulerError { what: String::from("resume failed") })
        } else {
            Ok(())
        }
    }

    fn frametimes(&self, _target_fps: u32) -> Vec<u64> {
        self.frames.clone()
    }

    fn fps(&self) -> u32 {
        self.fps
    }
}

#[derive(Default)]
struct TestController {
    released: Cell<u32>,
    limited: Cell<u32>,
    plugged: Cell<bool>,
}

impl VirtualPerformanceController for TestController {
    fn plug_in(&self) -> Result<(), SchedulerError> {
        self.plugged.set(true);
        Ok(())
    }

    fn plug_out(&self) -> Result<(), SchedulerError> {
        self.plugged.set(false);
        Ok(())
    }

    fn release(&self) {
        self.released.set(self.released.get() + 1);
    }

    fn limit(&self) {
        self.limited.set(self.limited.get() + 1);
    }
}

fn sensor(frames: Vec<u64>, fps: u32) -> TestSensor {
    TestSensor {
        fail_pause: false,
        fail_resume: false,
        frames,
        fps,
        resumed_with: Cell::new(None),
    }
}

#[test]
fn init_load_sizes_the_horizon() {
    let s = sensor(Vec::new(), 0);
    let c = TestController::default();
    let r = Scheduler::init_load(&s, &c, 5);
    assert_eq!(r.unwrap(), 200);
    assert_eq!(s.resumed_with.get(), Some((5, 200)));
    assert!(c.plugged.get());
}

#[test]
fn init_load_propagates_resume_failure() {
    let mut s = sensor(Vec::new(), 0);
    s.fail_resume = true;
    let c = TestController::default();
    assert!(Scheduler::init_load(&s, &c, 5).is_err());
    // fail-fast: the controller was never plugged in.
    assert!(!c.plugged.get());
}

#[test]
fn process_unload_propagates_pause_failure() {
    let mut s = sensor(Vec::new(), 0);
    s.fail_pause = true;
    let c = TestController::default();
    c.plugged.set(true);
    assert!(Scheduler::process_unload(&s, &c).is_err());
    assert!(c.plugged.get());
}

#[test]
fn process_unload_pauses_and_plugs_out() {
    let s = sensor(Vec::new(), 0);
    let c = TestController::default();
    c.plugged.set(true);
    assert!(Scheduler::process_unload(&s, &c).is_ok());
    assert!(!c.plugged.get());
}

#[test]
fn tick_limits_on_jank_and_releases_when_smooth() {
    let c = TestController::default();
    let janky = sensor(vec![20 * MS], 58);
    Scheduler::process_load(&janky, &c, 60);
    assert_eq!((c.limited.get(), c.released.get()), (1, 0));

    let smooth = sensor(vec![16 * MS; 10], 60);
    Scheduler::process_load(&smooth, &c, 60);
    assert_eq!((c.limited.get(), c.released.get()), (1, 1));
}
