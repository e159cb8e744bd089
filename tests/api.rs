use telemetry_core::repository::{PredictionRecord, Repository, SensorRecord};
use telemetry_core::routes::alerts::{alert_response, AlertRecord};
use telemetry_core::routes::health::health_report;
use telemetry_core::routes::predictions::{self, PredictionQuery};
use telemetry_core::routes::sensors::{self, SensorQuery};

fn filled() -> Repository {
    let mut repo = Repository::new();
    for i in 0..1200 {
        repo.insert_sensor(SensorRecord { timestamp_ms: i, ..Default::default() });
    }
    for i in 0..3 {
        repo.insert_prediction(PredictionRecord {
            id: 0,
            timestamp_ms: i,
            fault_class: "overheating".to_string(),
            confidence: 9_000,
            severity: if i == 1 { "low".to_string() } else { "high".to_string() },
        });
    }
    repo
}

#[test]
fn live_sensors_are_capped() {
    let repo = filled();
    let r = sensors::get_live(&repo, &SensorQuery { limit: 5000, since: None });
    assert_eq!(r.meta.limit, 1000);
    assert_eq!(r.meta.count, 1000);
    assert_eq!(r.data[0].timestamp_ms, 1199);
    let r = sensors::get_live(&repo, &SensorQuery { limit: sensors::default_limit(), since: Some(1195) });
    assert_eq!(r.meta.count, 5);
    assert_eq!(r.data[0].timestamp_ms, 1195);
}

#[test]
fn predictions_by_severity() {
    let repo = filled();
    let r = predictions::get_predictions(
        &repo,
        &PredictionQuery { severity: Some("high".to_string()), limit: predictions::default_limit() },
    );
    assert_eq!(r.count, 2);
    assert_eq!(r.data[0].id, 3);
}

#[test]
fn alert_counts() {
    let rec = |id: i64, ack: bool| AlertRecord {
        id,
        timestamp_ms: 0,
        fault_type: "none".to_string(),
        severity: "low".to_string(),
        message: "System operating normally".to_string(),
        acknowledged: ack,
    };
    let r = alert_response(vec![rec(1, true), rec(2, false), rec(3, false)]);
    assert_eq!(r.count, 3);
    assert_eq!(r.unacknowledged_count, 2);
}

#[test]
fn health_counts_records() {
    let repo = filled();
    let h = health_report(&repo, "0.1.0", 1_700_000_000, 42);
    assert_eq!(h.status, "healthy");
    assert_eq!(h.metrics.sensor_count, 1200);
    assert_eq!(h.metrics.prediction_count, 3);
    assert_eq!(h.components.database.last_activity_ms, None);
}
