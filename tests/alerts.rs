use telemetry_core::alerts::{AlertConfig, AlertManager};

#[test]
fn test_confidence_threshold() {
    let mut manager = AlertManager::default();

    assert!(!manager.should_fire("overheating", 5_000, 0));

    assert!(manager.should_fire("overheating", 8_500, 0));
}

#[test]
fn test_deduplication() {
    let config = AlertConfig {
        cooldown_seconds: 60,
        ..Default::default()
    };
    let mut manager = AlertManager::new(config, 0);

    assert!(manager.should_fire("overheating", 8_500, 0));
    manager.record_fire("overheating", 0);

    assert!(!manager.should_fire("overheating", 8_500, 0));
}

#[test]
fn test_severity_levels() {
    let manager = AlertManager::default();

    assert_eq!(manager.get_severity(9_500), "critical");
    assert_eq!(manager.get_severity(8_700), "high");
    assert_eq!(manager.get_severity(7_800), "medium");
    assert_eq!(manager.get_severity(5_000), "low");
}

#[test]
fn test_acknowledgement() {
    let mut manager = AlertManager::default();
    manager.record_fire("overheating", 0);

    assert!(!manager.state("overheating").unwrap().acknowledged);
    manager.acknowledge("overheating");
    assert!(manager.state("overheating").unwrap().acknowledged);
}

#[test]
fn cooldown_scenario_sixty_seconds() {
    let config = AlertConfig {
        cooldown_seconds: 60,
        ..Default::default()
    };
    let mut manager = AlertManager::new(config, 0);
    assert!(manager.should_fire("overheating", 8_500, 0));
    manager.record_fire("overheating", 0);
    assert!(!manager.should_fire("overheating", 8_500, 10_000));
    assert!(manager.should_fire("overheating", 8_500, 61_000));
}

#[test]
fn cooldown_is_per_label() {
    let mut manager = AlertManager::default();
    manager.record_fire("overheating", 0);
    assert!(manager.should_fire("misfire", 9_000, 1_000));
    assert!(!manager.should_fire("overheating", 9_000, 1_000));
}

#[test]
fn hourly_cap_throttles_until_window_slides() {
    let config = AlertConfig {
        cooldown_seconds: 0,
        max_alerts_per_hour: 3,
        ..Default::default()
    };
    let mut manager = AlertManager::new(config, 0);
    let mut fired = 0;
    for i in 0..10u64 {
        let label = format!("fault{}", i);
        if manager.should_fire(&label, 9_000, i * 1000) {
            manager.record_fire(&label, i * 1000);
            fired += 1;
        }
    }
    assert_eq!(fired, 3);
    assert_eq!(manager.hourly_count(), 3);
    assert!(manager.should_fire("late", 9_000, 3_600_001));
    assert_eq!(manager.hourly_count(), 0);
}

#[test]
fn acknowledge_unknown_label_is_false() {
    let mut manager = AlertManager::default();
    assert!(!manager.acknowledge("nothing"));
}

#[test]
fn pending_lists_unacknowledged_labels() {
    let mut manager = AlertManager::default();
    manager.record_fire("a", 0);
    manager.record_fire("b", 0);
    manager.acknowledge("a");
    let pending = manager.get_pending();
    assert_eq!(pending.len(), 1);
    assert_eq!(pending[0].0, "b");
    assert_eq!(pending[0].1.fire_count, 1);
    manager.record_fire("b", 5);
    assert_eq!(manager.state("b").unwrap().fire_count, 2);
    manager.clear();
    assert!(manager.get_pending().is_empty());
    assert_eq!(manager.hourly_count(), 0);
}
