use telemetry_core::driver_state::{DistractionType, DmsAlert, DmsConfig, DriverState, DrowsinessLevel};
use telemetry_core::road_scene::{
    scene_alerts, AdasAlert, AdasConfig, AdasAnalysis, DetectedObject, LanePosition, LaneState, ObjectClass,
    TrafficSign,
};

#[test]
fn eyes_closed_past_threshold_is_drowsiness() {
    let mut s = DriverState::new();
    let mut last = Vec::new();
    for _ in 0..46 {
        last = s.update_state(true, true, false, 1500, 3000);
    }
    assert_eq!(s.eyes_closed_ms, 1518);
    assert_eq!(s.drowsiness_level, DrowsinessLevel::High);
    assert_eq!(last, vec![DmsAlert::Drowsiness]);
    let open = s.update_state(false, true, false, 1500, 3000);
    assert!(open.is_empty());
    assert_eq!(s.eyes_closed_ms, 0);
    assert_eq!(s.drowsiness_level, DrowsinessLevel::Normal);
}

#[test]
fn looking_away_past_threshold_is_distraction() {
    let mut s = DriverState::new();
    for _ in 0..90 {
        s.update_state(false, false, false, 1500, 3000);
    }
    assert_eq!(s.distraction, None);
    let alerts = s.update_state(false, false, true, 1500, 3000);
    assert_eq!(s.distraction, Some(DistractionType::LookingAway));
    assert_eq!(alerts, vec![DmsAlert::Distraction, DmsAlert::HeadDown]);
}

#[test]
fn face_missing_for_long_is_reported() {
    let mut s = DriverState::new();
    for _ in 0..30 {
        assert!(s.face_missing().is_empty());
    }
    assert_eq!(s.face_missing(), vec![DmsAlert::FaceNotVisible]);
    s.update_state(false, true, false, 1500, 3000);
    assert_eq!(s.face_absent_frames, 0);
    s.reset_state();
    assert_eq!(s, DriverState::new());
}

#[test]
fn road_alerts() {
    let lane = LaneState { lanes_detected: true, position: LanePosition::Left, departing: true, signal_active: false };
    let objects = vec![
        DetectedObject { class: ObjectClass::Pedestrian, distance_cm: 300 },
        DetectedObject { class: ObjectClass::Vehicle, distance_cm: 800 },
        DetectedObject { class: ObjectClass::Vehicle, distance_cm: 500 },
    ];
    let signs = vec![TrafficSign::Stop, TrafficSign::SpeedLimit(50)];
    let alerts = scene_alerts(&lane, &objects, &signs, 1000);
    assert_eq!(
        alerts,
        vec![
            AdasAlert::LaneDeparture,
            AdasAlert::ForwardCollision { distance_cm: 800, object_type: ObjectClass::Vehicle },
            AdasAlert::SpeedLimitDetected { limit_kmh: 50 },
        ]
    );
    let signalled = LaneState { signal_active: true, ..lane };
    assert!(scene_alerts(&signalled, &vec![], &vec![], 1000).is_empty());
    let analysis = AdasAnalysis { lane_state: lane, objects, signs, alerts };
    assert!(analysis.has_critical_alerts());
    let calm = AdasAnalysis { alerts: vec![AdasAlert::LaneDeparture], ..analysis.clone() };
    assert!(!calm.has_critical_alerts());
}

#[test]
fn monitoring_presets() {
    let d = DmsConfig::default();
    assert_eq!((d.drowsiness_threshold_ms, d.distraction_threshold_ms, d.gaze_threshold_degrees), (1500, 3000, 30));
    let s = DmsConfig::strict();
    assert_eq!((s.drowsiness_threshold_ms, s.distraction_threshold_ms, s.gaze_threshold_degrees), (1000, 2000, 20));
    let l = DmsConfig::lenient();
    assert_eq!((l.drowsiness_threshold_ms, l.distraction_threshold_ms, l.gaze_threshold_degrees), (2500, 5000, 45));
    assert_eq!(l.face_confidence, 7000);
    let a = AdasConfig::default();
    assert_eq!(a.fcw_distance_cm, 1000);
    assert!(a.lane_departure_enabled && a.sign_detection_enabled);
}
