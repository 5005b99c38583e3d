use stats_provider::event::build_cycle_event;
use stats_provider::metrics::DiskVolume;
use stats_provider::metrics::MetricSnapshot;
use stats_provider::metrics::aggregate_disk_space;
use stats_provider::normalize::NormalizeError;
use stats_provider::sampling::LoopAction;
use stats_provider::sampling::LoopEvent;
use stats_provider::sampling::LoopPhase;
use stats_provider::sampling::SLEEP_SECONDS;
use stats_provider::sampling::SamplingLoop;

fn good_snapshot() -> MetricSnapshot {
    MetricSnapshot {
        cpu_core_centi_percents: vec![1000, 3000],
        memory_total_bytes: 1000,
        memory_used_bytes: 500,
        disk_total_bytes: 2000,
        disk_available_bytes: 1500,
    }
}

#[test]
fn aggregate_disk_space_sums_all_volumes() {
    let vols = vec![
        DiskVolume { total_bytes: 100, available_bytes: 40 },
        DiskVolume { total_bytes: 200, available_bytes: 60 },
    ];
    assert_eq!(aggregate_disk_space(&vols), (300, 100));
    assert_eq!(aggregate_disk_space(&vec![]), (0, 0));
}

#[test]
fn aggregate_disk_space_saturates_instead_of_wrapping() {
    let vols = vec![
        DiskVolume { total_bytes: u64::MAX, available_bytes: 10 },
        DiskVolume { total_bytes: 5, available_bytes: 1 },
    ];
    assert_eq!(aggregate_disk_space(&vols), (u64::MAX, 11));
}

#[test]
fn end_to_end_cycle_produces_expected_notification() {
    // Cores at 10.0 % and 30.0 % average to 20 %; memory 500 of 1000 is
    // 50 %; disk 500 used of 2000 is 25 %.
    let ev = build_cycle_event(&good_snapshot()).unwrap();
    assert_eq!(ev.name, "system_stats");
    assert_eq!(
        ev.payload,
        "CPU_USAGE=\"20%\" MEMORY_USAGE=\"50%\" DISK_USAGE=\"25%\""
    );
}

#[test]
fn machine_walks_all_five_phases_in_order() {
    let mut m = SamplingLoop::new();
    assert_eq!(m.phase, LoopPhase::Initializing);

    let a = m.step(LoopEvent::Started);
    assert!(matches!(a, LoopAction::Sample));
    assert_eq!(m.phase, LoopPhase::Sampling);

    let a = m.step(LoopEvent::Sampled(good_snapshot()));
    assert!(matches!(a, LoopAction::Format));
    assert_eq!(m.phase, LoopPhase::Formatting);

    let a = m.step(LoopEvent::Continue);
    match a {
        LoopAction::Notify(ev) => {
            assert_eq!(
                ev.payload,
                "CPU_USAGE=\"20%\" MEMORY_USAGE=\"50%\" DISK_USAGE=\"25%\""
            );
        }
        other => panic!("expected a notification, got {:?}", other),
    }
    assert_eq!(m.phase, LoopPhase::Notifying);

    let a = m.step(LoopEvent::Delivered(true));
    assert!(matches!(a, LoopAction::Sleep));
    assert_eq!(m.phase, LoopPhase::Sleeping);

    let a = m.step(LoopEvent::Woke);
    assert!(matches!(a, LoopAction::Sample));
    assert_eq!(m.phase, LoopPhase::Sampling);
}

#[test]
fn failed_delivery_does_not_stop_the_loop() {
    let mut m = SamplingLoop::new();
    m.step(LoopEvent::Started);
    m.step(LoopEvent::Sampled(good_snapshot()));
    let a = m.step(LoopEvent::Continue);
    assert!(matches!(a, LoopAction::Notify(_)));

    // The consumer rejects the event; the loop sleeps and runs a full
    // further cycle all the same.
    let a = m.step(LoopEvent::Delivered(false));
    assert!(matches!(a, LoopAction::Sleep));
    assert_eq!(m.phase, LoopPhase::Sleeping);

    let a = m.step(LoopEvent::Woke);
    assert!(matches!(a, LoopAction::Sample));
    m.step(LoopEvent::Sampled(good_snapshot()));
    let a = m.step(LoopEvent::Continue);
    match a {
        LoopAction::Notify(ev) => {
            assert_eq!(
                ev.payload,
                "CPU_USAGE=\"20%\" MEMORY_USAGE=\"50%\" DISK_USAGE=\"25%\""
            );
        }
        other => panic!("expected a notification, got {:?}", other),
    }
    let a = m.step(LoopEvent::Delivered(true));
    assert!(matches!(a, LoopAction::Sleep));
}

#[test]
fn normalization_fault_skips_to_sleep() {
    let bad = MetricSnapshot {
        cpu_core_centi_percents: vec![1000],
        memory_total_bytes: 0,
        memory_used_bytes: 0,
        disk_total_bytes: 2000,
        disk_available_bytes: 1500,
    };
    let mut m = SamplingLoop::new();
    m.step(LoopEvent::Started);
    m.step(LoopEvent::Sampled(bad));
    let a = m.step(LoopEvent::Continue);
    assert!(matches!(a, LoopAction::Skip(NormalizeError::ZeroTotal)));
    assert_eq!(m.phase, LoopPhase::Sleeping);

    // The fault is cycle-local: the loop samples again after its sleep.
    let a = m.step(LoopEvent::Woke);
    assert!(matches!(a, LoopAction::Sample));
    assert_eq!(m.phase, LoopPhase::Sampling);
}

#[test]
fn cadence_constant_is_two_seconds() {
    assert_eq!(SLEEP_SECONDS, 2);
}
