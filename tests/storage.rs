use telemetry_core::repository::{PredictionRecord, Repository, SensorRecord};

#[test]
fn test_sensor_insert_and_retrieve() {
    let mut repo = Repository::new();

    let record = SensorRecord {
        timestamp_ms: 1234567890,
        rpm: 3000,
        speed: 60,
        coolant_temp: 85,
        engine_load: 50,
        maf: 1250,
        fuel_trim_short: 200,
        fuel_trim_long: 150,
    };

    repo.insert_sensor(record);

    let sensors = repo.get_sensors(10);
    assert_eq!(sensors.len(), 1);
    assert_eq!(sensors[0].rpm, 3000);
}

#[test]
fn test_prediction_insert() {
    let mut repo = Repository::new();

    let record = PredictionRecord {
        id: 0,
        timestamp_ms: 1234567890,
        fault_class: "overheating".to_string(),
        confidence: 8_500,
        severity: "high".to_string(),
    };

    let id = repo.insert_prediction(record);
    assert_eq!(id, 1);

    let preds = repo.get_predictions(None, 10);
    assert_eq!(preds.len(), 1);
    assert_eq!(preds[0].fault_class, "overheating");
}

#[test]
fn test_retention_limit() {
    let mut repo = Repository::with_limits(5, 10_000);

    for i in 0..10 {
        repo.insert_sensor(SensorRecord {
            timestamp_ms: i,
            rpm: i as i32 * 100,
            ..Default::default()
        });
    }

    assert_eq!(repo.sensor_count(), 5);
}

fn prediction(t: i64, severity: &str) -> PredictionRecord {
    PredictionRecord {
        id: 0,
        timestamp_ms: t,
        fault_class: "misfire".to_string(),
        confidence: 9_000,
        severity: severity.to_string(),
    }
}

#[test]
fn retention_keeps_newest_sensors() {
    let mut repo = Repository::with_limits(3, 2);
    for i in 0..6 {
        repo.insert_sensor(SensorRecord { timestamp_ms: i, ..Default::default() });
    }
    let newest: Vec<i64> = repo.get_sensors(10).iter().map(|r| r.timestamp_ms).collect();
    assert_eq!(newest, vec![5, 4, 3]);
    let since: Vec<i64> = repo.get_sensors_since(4).iter().map(|r| r.timestamp_ms).collect();
    assert_eq!(since, vec![4, 5]);
}

#[test]
fn predictions_get_increasing_ids_and_filter_by_severity() {
    let mut repo = Repository::with_limits(10, 3);
    assert_eq!(repo.insert_prediction(prediction(1, "high")), 1);
    assert_eq!(repo.insert_prediction(prediction(2, "low")), 2);
    assert_eq!(repo.insert_prediction(prediction(3, "high")), 3);
    assert_eq!(repo.insert_prediction(prediction(4, "high")), 4);
    assert_eq!(repo.prediction_count(), 3);
    let high: Vec<i64> = repo.get_predictions(Some("high"), 10).iter().map(|p| p.id).collect();
    assert_eq!(high, vec![4, 3]);
    let newest: Vec<i64> = repo.get_predictions(None, 2).iter().map(|p| p.id).collect();
    assert_eq!(newest, vec![4, 3]);
    repo.clear();
    assert_eq!(repo.prediction_count(), 0);
    assert_eq!(repo.insert_prediction(prediction(5, "low")), 5);
}
