use fas_rs::cpu_common::{
    Controller, CpuInfo, FreqRequest, FreqWrite, WeightEntry, WeightedCalculator,
};
use fas_rs::extension::{ApiEvent, ApiVersion, Extension};

fn cluster(policy: i32, freqs: Vec<i64>) -> CpuInfo {
    CpuInfo::new(policy, vec![policy], &freqs).unwrap()
}

fn two_cluster_controller() -> Controller {
    Controller::new(vec![
        cluster(0, vec![500_000, 1_000_000, 1_800_000]),
        cluster(4, vec![200_000, 2_400_000]),
    ])
}

#[test]
fn cpu_info_sorts_and_dedups() {
    let c = CpuInfo::new(0, vec![0, 1], &vec![300, 100, 200, 200, 100]).unwrap();
    assert_eq!(c.freqs, vec![100, 200, 300]);
    assert_eq!(c.policy, 0);
    assert!(matches!(c.request, FreqRequest::Default));
}

#[test]
fn cpu_info_rejects_empty_frequency_list() {
    assert!(CpuInfo::new(0, vec![0], &Vec::new()).is_none());
}

#[test]
fn controller_derives_global_bounds() {
    let c = two_cluster_controller();
    assert_eq!(c.max_freq, 2_400_000);
    assert_eq!(c.min_freq, 200_000);
    assert_eq!(c.policy_freq, 2_400_000);
    assert!(c.pending_writes.is_empty());
}

#[test]
fn scale_factor_exact_value() {
    // 60 fps target: frame 20ms vs target 16.666666ms. The magnitude
    // (3_333_334 * 120 * 1_000_000) / (16_666_666 * 60) rounds up to
    // 400_001 factor units.
    let f = Controller::scale_factor(60, 20_000_000, 16_666_666);
    assert_eq!(f, 400_001);
}

#[test]
fn scale_factor_is_odd_around_the_target() {
    let target: u64 = 16_666_666;
    let d: u64 = 3_333_334;
    let over = Controller::scale_factor(60, target + d, target);
    let under = Controller::scale_factor(60, target - d, target);
    assert_eq!(over, -under);
    assert_eq!(under, -400_001);
    assert_eq!(Controller::scale_factor(60, target, target), 0);
}

#[test]
fn scale_factor_keeps_the_sign_of_tiny_deviations() {
    // One nanosecond over a one-second budget still registers as positive:
    // ceil(120_000_000 / 1_000_000_000) = 1 factor unit.
    assert_eq!(Controller::scale_factor(1, 1_000_000_001, 1_000_000_000), 1);
    assert_eq!(Controller::scale_factor(1, 999_999_999, 1_000_000_000), -1);
}

#[test]
fn update_applies_the_delta_with_fallback_weights() {
    let mut c = two_cluster_controller();
    // factor -1.0: the requested frequency drops by one base step.
    c.fas_update_freq(-1_000_000, None);
    assert_eq!(c.policy_freq, 1_800_000);
    let writes = c.take_pending_writes();
    assert_eq!(writes.len(), 2);
    assert_eq!(
        writes[0],
        FreqWrite { policy: 0, request: FreqRequest::Limited { freq: 1_800_000, weight: 1000 } }
    );
    assert_eq!(
        writes[1],
        FreqWrite { policy: 4, request: FreqRequest::Limited { freq: 1_800_000, weight: 1000 } }
    );
    assert!(c.take_pending_writes().is_empty());
}

#[test]
fn update_clamps_for_extreme_signals() {
    let limit: i128 = 1_000_000_000_000_000_000_000_000_000_000;
    let mut c = two_cluster_controller();
    c.fas_update_freq(-limit, None);
    assert_eq!(c.policy_freq, 200_000);
    c.fas_update_freq(limit, None);
    assert_eq!(c.policy_freq, 2_400_000);
    // and once more downwards: still never past the bound.
    c.fas_update_freq(-limit, None);
    assert_eq!(c.policy_freq, 200_000);
}

#[test]
fn update_uses_the_snapshot_weights() {
    let mut c = two_cluster_controller();
    let snapshot = vec![WeightEntry { policy: 0, weight: 1500 }];
    c.fas_update_freq(0, Some(snapshot));
    let writes = c.take_pending_writes();
    // cluster 0 gets its snapshot weight, cluster 4 the fallback.
    assert_eq!(
        writes[0].request,
        FreqRequest::Limited { freq: 2_400_000, weight: 1500 }
    );
    assert_eq!(
        writes[1].request,
        FreqRequest::Limited { freq: 2_400_000, weight: 1000 }
    );
}

#[test]
fn weights_refresh_on_a_cadence() {
    let mut w = WeightedCalculator::new();
    w.update(Some(vec![WeightEntry { policy: 0, weight: 2000 }]));
    assert_eq!(w.weight(0), 2000);
    assert_eq!(w.weight(99), 1000);
    // not due again yet: a new snapshot is ignored for the next nine ticks.
    w.update(Some(vec![WeightEntry { policy: 0, weight: 500 }]));
    assert_eq!(w.weight(0), 2000);
    for _ in 0..8 {
        w.update(None);
    }
    // due again: the snapshot now applies.
    w.update(Some(vec![WeightEntry { policy: 0, weight: 500 }]));
    assert_eq!(w.weight(0), 500);
}

#[test]
fn reset_to_max_then_default_leaves_defaults() {
    let mut c = two_cluster_controller();
    let mut ext = Extension::new();
    c.init_game(&mut ext);
    for info in &c.cpu_infos {
        assert_eq!(
            info.request,
            FreqRequest::Limited { freq: 2_400_000, weight: 1000 }
        );
    }
    c.init_default(&mut ext);
    // every cluster ends at its system default, not an intermediate value.
    for info in &c.cpu_infos {
        assert_eq!(info.request, FreqRequest::Default);
    }
    let writes = c.take_pending_writes();
    assert_eq!(writes.len(), 4);
    assert!(matches!(writes[0].request, FreqRequest::Limited { .. }));
    assert!(matches!(writes[1].request, FreqRequest::Limited { .. }));
    assert_eq!(writes[2].request, FreqRequest::Default);
    assert_eq!(writes[3].request, FreqRequest::Default);
}

#[test]
fn resets_announce_to_every_protocol_version_in_order() {
    let mut c = two_cluster_controller();
    let mut ext = Extension::new();
    c.init_game(&mut ext);
    c.init_default(&mut ext);
    let events = ext.take_events();
    assert_eq!(events.len(), 6);
    for (i, e) in events.iter().enumerate() {
        let version = match i % 3 {
            0 => ApiVersion::V0,
            1 => ApiVersion::V1,
            _ => ApiVersion::V2,
        };
        assert_eq!(e.version, version);
        if i < 3 {
            assert_eq!(e.event, ApiEvent::InitCpuFreq);
        } else {
            assert_eq!(e.event, ApiEvent::ResetCpuFreq);
        }
    }
    assert!(ext.take_events().is_empty());
}
