use vstd::prelude::*;
use crate::repository::Repository;

verus! {

/// Health of one component.
#[derive(Debug, Clone, PartialEq, Eq)]
pub struct ComponentHealth {
    pub status: String,
    pub last_activity_ms: Option<u64>,
}

/// Health of the diagnostics link, the classifier and the store.
#[derive(Debug, Clone, PartialEq, Eq)]
pub struct ComponentStatus {
    pub obd: ComponentHealth,
    pub inference: ComponentHealth,
    pub database: ComponentHealth,
}

/// Counts of stored records.
#[derive(Debug, Clone, Copy, PartialEq, Eq)]
pub struct SystemMetrics {
    pub sensor_count: usize,
    pub prediction_count: usize,
}

/// Answer to a health request.
#[derive(Debug, Clone, PartialEq, Eq)]
pub struct HealthResponse {
    pub status: String,
    /// Seconds since the epoch.
    pub timestamp: u64,
    pub version: String,
    pub uptime_seconds: u64,
    pub components: ComponentStatus,
    pub metrics: SystemMetrics,
}

/// The health report at `timestamp` of a service of `version` up for
/// `uptime_seconds`, with the store's record counts.
pub fn health_report(repo: &Repository, version: &str, timestamp: u64, uptime_seconds: u64) -> (r:
    HealthResponse)
    ensures
        r.status@ == "healthy"@,
        r.version@ == version@,
        r.timestamp == timestamp,
        r.uptime_seconds == uptime_seconds,
        r.metrics.sensor_count == repo.sensors().len(),
        r.metrics.prediction_count == repo.predictions().len(),
        r.components.obd.status@ == "ok"@,
        r.components.obd.last_activity_ms == Some(100u64),
        r.components.inference.status@ == "ok"@,
        r.components.inference.last_activity_ms == Some(150u64),
        r.components.database.status@ == "ok"@,
        r.components.database.last_activity_ms is None,
{
    HealthResponse {
        status: "healthy".to_owned(),
        timestamp,
        version: version.to_owned(),
        uptime_seconds,
        components: ComponentStatus {
            obd: ComponentHealth { status: "ok".to_owned(), last_activity_ms: Some(100) },
            inference: ComponentHealth { status: "ok".to_owned(), last_activity_ms: Some(150) },
            database: ComponentHealth { status: "ok".to_owned(), last_activity_ms: None },
        },
        metrics: SystemMetrics {
            sensor_count: repo.sensor_count(),
            prediction_count: repo.prediction_count(),
        },
    }
}

} // verus!
