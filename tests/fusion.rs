use telemetry_core::batcher::{BatchAction, BatchCollector};
use telemetry_core::driver_state::{DmsAlert, DmsAnalysis, DrowsinessLevel};
use telemetry_core::fusion::{
    DriverStateSample, EventFusion, FusedEvent, FusionConfig, InertialSample, ObdFrame,
    RoadSceneSample, Severity, SlidingWindow,
};

const MS: u64 = 1_000_000;

fn obd(t: u64, speed: u8, brake: u8) -> ObdFrame {
    ObdFrame { timestamp_ns: t, rpm: 2000, speed_kmh: speed, brake_pedal: brake, throttle: 0 }
}

#[test]
fn crash_takes_precedence_over_hard_braking() {
    let mut fusion = EventFusion::new(FusionConfig::default());
    fusion.add_obd(obd(1000 * MS, 60, 90));
    fusion.add_imu(InertialSample { timestamp_ns: 1000 * MS, accel_x_mg: -900, g_force_mg: 3_200 });
    assert_eq!(
        fusion.fuse(1000 * MS),
        Some(FusedEvent::Crash { severity: Severity::Critical, g_force_mg: 3_200, airbag_deployed: false })
    );
}

#[test]
fn hard_braking_needs_pedal() {
    let mut fusion = EventFusion::new(FusionConfig::default());
    fusion.add_imu(InertialSample { timestamp_ns: 0, accel_x_mg: -600, g_force_mg: 1_000 });
    fusion.add_obd(obd(0, 72, 50));
    assert_eq!(fusion.fuse(0), None);
    fusion.add_obd(obd(0, 72, 85));
    assert_eq!(
        fusion.fuse(0),
        Some(FusedEvent::HardBraking { severity: Severity::Medium, decel_mg: 600, speed_before_kmh: 72 })
    );
}

#[test]
fn stale_samples_do_not_count() {
    let mut fusion = EventFusion::new(FusionConfig::default());
    fusion.add_imu(InertialSample { timestamp_ns: 0, accel_x_mg: 0, g_force_mg: 5_000 });
    assert!(fusion.fuse(50 * MS).is_some());
    assert_eq!(fusion.fuse(51 * MS), None);
}

#[test]
fn drowsiness_with_lane_departure() {
    let mut fusion = EventFusion::new(FusionConfig::default());
    fusion.add_dms(DriverStateSample { timestamp_ns: 0, drowsiness_level: DrowsinessLevel::Moderate, distraction: None });
    fusion.add_adas(RoadSceneSample { timestamp_ns: 0, lane_departing: true, speed_limit_kmh: None });
    assert_eq!(
        fusion.fuse(100 * MS),
        Some(FusedEvent::DrowsinessLaneDeparture { severity: Severity::High, eyes_closed_ms: 0 })
    );
    fusion.add_dms(DriverStateSample { timestamp_ns: 0, drowsiness_level: DrowsinessLevel::Mild, distraction: None });
    assert_eq!(fusion.fuse(100 * MS), None);
}

#[test]
fn speeding_over_margin() {
    let mut fusion = EventFusion::new(FusionConfig::default());
    fusion.add_adas(RoadSceneSample { timestamp_ns: 0, lane_departing: false, speed_limit_kmh: Some(50) });
    fusion.add_obd(obd(0, 60, 0));
    assert_eq!(fusion.fuse(0), None);
    fusion.add_obd(obd(0, 61, 0));
    assert_eq!(fusion.fuse(0), Some(FusedEvent::Speeding { current_kmh: 61, limit_kmh: 50 }));
}

#[test]
fn driver_is_attached() {
    let mut fusion = EventFusion::new(FusionConfig::default());
    assert!(fusion.current_driver().is_none());
    fusion.set_driver(Some("driver-7".to_string()));
    assert_eq!(fusion.current_driver().unwrap(), "driver-7");
}

#[test]
fn sliding_window_drops_oldest() {
    let mut w = SlidingWindow::new(2);
    w.push(1);
    w.push(2);
    w.push(3);
    assert_eq!(w.len(), 2);
    assert_eq!(w.back(), Some(&3));
    assert_eq!(w.pop_front(), Some(2));
}

#[test]
fn dms_alert_priority() {
    let a = DmsAnalysis {
        face_detected: true,
        drowsiness_level: DrowsinessLevel::High,
        distraction_type: None,
        alerts: vec![DmsAlert::HeadDown, DmsAlert::Distraction],
    };
    assert!(a.has_alerts());
    assert_eq!(a.highest_severity_alert(), Some(DmsAlert::Distraction));
    let b = DmsAnalysis { alerts: vec![DmsAlert::FrequentYawning, DmsAlert::HighPerclos], ..a.clone() };
    assert_eq!(b.highest_severity_alert(), Some(DmsAlert::FrequentYawning));
}

#[test]
fn batcher_timeout_dispatches_single_item() {
    let mut c: BatchCollector<u32> = BatchCollector::new(16, 200);
    assert_eq!(c.next_action(0), BatchAction::WaitFirst);
    c.add(7, 1_000);
    assert_eq!(c.next_action(1_050), BatchAction::WaitUntil(1_200));
    assert_eq!(c.next_action(1_200), BatchAction::Dispatch);
    assert_eq!(c.take_batch(), vec![7]);
    assert_eq!(c.len(), 0);
}

#[test]
fn batcher_full_batch_dispatches_at_once() {
    let mut c: BatchCollector<u32> = BatchCollector::new(3, 5_000);
    for i in 0..3 {
        c.add(i, 10 + i as u64);
    }
    assert_eq!(c.next_action(12), BatchAction::Dispatch);
    assert_eq!(c.take_batch(), vec![0, 1, 2]);
}

#[test]
fn sustained_distraction_after_threshold() {
    let mut fusion = EventFusion::new(FusionConfig::default());
    let distracted = |t: u64| DriverStateSample {
        timestamp_ns: t * MS,
        drowsiness_level: DrowsinessLevel::Normal,
        distraction: Some(telemetry_core::driver_state::DistractionType::PhoneUse),
    };
    fusion.add_dms(DriverStateSample { timestamp_ns: 0, drowsiness_level: DrowsinessLevel::Normal, distraction: None });
    for t in [100u64, 1_000, 2_000, 3_000] {
        fusion.add_dms(distracted(t));
    }
    assert_eq!(fusion.fuse(3_000 * MS), None);
    fusion.add_dms(distracted(3_100));
    assert_eq!(
        fusion.fuse(3_100 * MS),
        Some(FusedEvent::SustainedDistraction { severity: Severity::Medium, duration_ms: 3_000 })
    );
    fusion.add_dms(distracted(6_100));
    assert_eq!(
        fusion.fuse(6_100 * MS),
        Some(FusedEvent::SustainedDistraction { severity: Severity::High, duration_ms: 6_000 })
    );
    assert_eq!(fusion.fuse(6_500 * MS), None);
}

#[test]
fn heartbeat_when_quiet_for_a_minute() {
    let mut fusion = EventFusion::new(FusionConfig::default());
    assert_eq!(fusion.tick(0), Some(FusedEvent::Normal));
    assert_eq!(fusion.tick(30_000 * MS), None);
    assert_eq!(fusion.tick(60_000 * MS), Some(FusedEvent::Normal));
    fusion.add_imu(InertialSample { timestamp_ns: 70_000 * MS, accel_x_mg: 0, g_force_mg: 4_000 });
    assert!(matches!(fusion.tick(70_000 * MS), Some(FusedEvent::Crash { .. })));
    assert_eq!(fusion.tick(120_000 * MS), None);
    assert_eq!(fusion.tick(130_000 * MS), Some(FusedEvent::Normal));
}
