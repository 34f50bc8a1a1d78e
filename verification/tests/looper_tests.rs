use fas_rs::buffer::BufferState;
use fas_rs::config::{Config, ConfigData, GameEntry};
use fas_rs::cpu_common::{Controller, CpuInfo, FreqRequest};
use fas_rs::extension::ApiEvent;
use fas_rs::looper::{FasData, Looper, State};

fn config_with(pkg: &str, fps: u32) -> Config {
    Config {
        data: ConfigData {
            keep_std: true,
            userspace_governor: false,
            scene_game_list: true,
            game_list: vec![GameEntry { pkg: String::from(pkg), fps }],
            scene_games: Vec::new(),
        },
    }
}

fn looper() -> Looper {
    let controller = Controller::new(vec![
        CpuInfo::new(0, vec![0, 1, 2, 3], &vec![500_000, 1_800_000]).unwrap(),
    ]);
    Looper::new(config_with("com.game.pkg", 60), controller)
}

#[test]
fn enable_fas_has_hysteresis() {
    let mut l = looper();
    assert_eq!(l.state, State::NotWorking);
    l.enable_fas(1000);
    // first call: settling begins, the controller is untouched.
    assert_eq!(l.state, State::Waiting);
    assert!(!l.cleaner.applied);
    assert!(l.controller.pending_writes.is_empty());
    // 3000ms elapsed is not strictly more than the delay: still settling.
    l.enable_fas(4000);
    assert_eq!(l.state, State::Waiting);
    assert!(l.controller.pending_writes.is_empty());
    // past the delay: steering starts and the controller resets to max.
    l.enable_fas(4001);
    assert_eq!(l.state, State::Working);
    assert!(l.cleaner.applied);
    assert_eq!(l.controller.policy_freq, 1_800_000);
    let writes = l.controller.take_pending_writes();
    assert_eq!(writes.len(), 1);
    assert_eq!(
        writes[0].request,
        FreqRequest::Limited { freq: 1_800_000, weight: 1000 }
    );
}

#[test]
fn disable_fas_twice_from_not_working_is_silent() {
    let mut l = looper();
    l.disable_fas();
    assert_eq!(l.state, State::NotWorking);
    assert!(l.extension.events.is_empty());
    l.disable_fas();
    assert_eq!(l.state, State::NotWorking);
    assert!(l.extension.events.is_empty());
    assert!(l.controller.pending_writes.is_empty());
}

#[test]
fn disable_fas_from_working_resets_and_notifies() {
    let mut l = looper();
    l.enable_fas(0);
    l.enable_fas(5000);
    assert_eq!(l.state, State::Working);
    l.extension.take_events();
    l.controller.take_pending_writes();
    l.disable_fas();
    assert_eq!(l.state, State::NotWorking);
    assert!(!l.cleaner.applied);
    assert_eq!(l.controller.cpu_infos[0].request, FreqRequest::Default);
    let events = l.extension.take_events();
    assert_eq!(events.len(), 6);
    assert_eq!(events[0].event, ApiEvent::ResetCpuFreq);
    assert_eq!(events[3].event, ApiEvent::StopFas);
}

#[test]
fn buffer_update_ignores_background_pids() {
    let mut l = looper();
    l.set_topapp_pids(vec![1, 2, 3]);
    let r = l.buffer_update(
        &FasData { pid: 42, frametime: 16_000_000 },
        Some(String::from("com.game.pkg")),
    );
    assert!(r.is_none());
    assert!(l.buffer.is_none());
    assert!(l.extension.events.is_empty());
}

#[test]
fn buffer_update_ignores_zero_durations() {
    let mut l = looper();
    l.set_topapp_pids(vec![42]);
    let r = l.buffer_update(&FasData { pid: 42, frametime: 0 }, None);
    assert!(r.is_none());
    assert!(l.buffer.is_none());
}

#[test]
fn buffer_update_needs_a_configured_target() {
    let mut l = looper();
    l.set_topapp_pids(vec![42]);
    let r = l.buffer_update(
        &FasData { pid: 42, frametime: 16_000_000 },
        Some(String::from("com.other.pkg")),
    );
    assert!(r.is_none());
    assert!(l.buffer.is_none());
}

#[test]
fn buffer_update_creates_one_buffer_and_notifies() {
    let mut l = looper();
    l.set_topapp_pids(vec![42]);
    let r = l.buffer_update(
        &FasData { pid: 42, frametime: 16_000_000 },
        Some(String::from("com.game.pkg")),
    );
    assert_eq!(r, Some(BufferState::Unusable));
    let b = l.buffer.as_ref().unwrap();
    assert_eq!(b.pid, 42);
    assert_eq!(b.pkg, "com.game.pkg");
    assert_eq!(b.target_fps, 60);
    assert_eq!(b.frametimes, vec![16_000_000]);
    let events = l.extension.take_events();
    assert_eq!(events.len(), 3);
    assert_eq!(
        events[0].event,
        ApiEvent::LoadFas { pid: 42, pkg: String::from("com.game.pkg") }
    );
}

#[test]
fn buffer_becomes_usable_after_enough_samples() {
    let mut l = looper();
    l.set_topapp_pids(vec![42]);
    let mut last = l.buffer_update(
        &FasData { pid: 42, frametime: 16_000_000 },
        Some(String::from("com.game.pkg")),
    );
    for _ in 1..59 {
        last = l.buffer_update(&FasData { pid: 42, frametime: 16_000_000 }, None);
        assert_eq!(last, Some(BufferState::Unusable));
    }
    last = l.buffer_update(&FasData { pid: 42, frametime: 16_000_000 }, None);
    assert_eq!(last, Some(BufferState::Usable));
}

#[test]
fn window_trims_to_its_time_span() {
    let mut l = looper();
    l.set_topapp_pids(vec![42]);
    l.buffer_update(
        &FasData { pid: 42, frametime: 16_666_666 },
        Some(String::from("com.game.pkg")),
    );
    for _ in 1..61 {
        l.buffer_update(&FasData { pid: 42, frametime: 16_666_666 }, None);
    }
    // 61 frames were pushed, but only 60 fit one second.
    let b = l.buffer.as_ref().unwrap();
    assert_eq!(b.frametimes.len(), 60);
    assert_eq!(b.pushed_count, 61);
}

#[test]
fn oversized_frame_clears_the_window() {
    let mut l = looper();
    l.set_topapp_pids(vec![42]);
    l.buffer_update(
        &FasData { pid: 42, frametime: 16_666_666 },
        Some(String::from("com.game.pkg")),
    );
    l.buffer_update(&FasData { pid: 42, frametime: 2_000_000_000 }, None);
    assert!(l.buffer.as_ref().unwrap().frametimes.is_empty());
}

#[test]
fn retain_topapp_without_buffer_disables() {
    let mut l = looper();
    l.retain_topapp(0);
    assert_eq!(l.state, State::NotWorking);
    assert!(l.buffer.is_none());
    assert!(l.extension.events.is_empty());
}

#[test]
fn retain_topapp_keeps_the_foreground_buffer() {
    let mut l = looper();
    l.set_topapp_pids(vec![42]);
    l.buffer_update(
        &FasData { pid: 42, frametime: 16_000_000 },
        Some(String::from("com.game.pkg")),
    );
    l.extension.take_events();
    l.retain_topapp(100);
    assert!(l.buffer.is_some());
    assert_eq!(l.state, State::Waiting);
    assert_eq!(l.delay_timer, 100);
    let events = l.extension.take_events();
    assert_eq!(events.len(), 3);
    assert_eq!(events[0].event, ApiEvent::StartFas);
}

#[test]
fn retain_topapp_unloads_a_departed_app() {
    let mut l = looper();
    l.set_topapp_pids(vec![42]);
    l.buffer_update(
        &FasData { pid: 42, frametime: 16_000_000 },
        Some(String::from("com.game.pkg")),
    );
    l.retain_topapp(100);
    l.retain_topapp(5000);
    assert_eq!(l.state, State::Working);
    l.extension.take_events();
    l.controller.take_pending_writes();
    // the app leaves the foreground: unload, then a full stop.
    l.set_topapp_pids(vec![7]);
    l.retain_topapp(6000);
    assert!(l.buffer.is_none());
    assert_eq!(l.state, State::NotWorking);
    assert_eq!(l.controller.cpu_infos[0].request, FreqRequest::Default);
    let events = l.extension.take_events();
    assert_eq!(events.len(), 9);
    assert_eq!(
        events[0].event,
        ApiEvent::UnloadFas { pid: 42, pkg: String::from("com.game.pkg") }
    );
    assert_eq!(events[3].event, ApiEvent::ResetCpuFreq);
    assert_eq!(events[6].event, ApiEvent::StopFas);
}
