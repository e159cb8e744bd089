use vstd::prelude::*;
use crate::fusion::FusedEvent;

verus! {

/// Failures of the cloud uplink.
#[derive(Debug, Clone, PartialEq, Eq)]
pub enum CloudError {
    Connection(String),
    Publish(String),
    BandwidthLimit,
    Serialization(String),
}

/// When events may be uploaded.
#[derive(Debug, Clone, Copy, PartialEq, Eq, Structural)]
pub enum UploadSchedule {
    /// At once.
    Immediate,
    /// Whenever a link is available.
    Opportunistic,
    /// During the night window only.
    Nightly,
    /// Only by hand, at the depot.
    Manual,
}

/// Uplink settings.
#[derive(Debug, Clone, PartialEq, Eq)]
pub struct CloudConfig {
    pub broker_url: String,
    pub broker_port: u16,
    pub vehicle_id: String,
    /// Upload budget per day (MB).
    pub daily_quota_mb: u32,
    pub schedule: UploadSchedule,
}

impl Default for CloudConfig {
    fn default() -> (r: CloudConfig)
        ensures
            r.broker_url@ == "localhost"@,
            r.broker_port == 1883,
            r.vehicle_id@ == "unknown"@,
            r.daily_quota_mb == 500,
            r.schedule == UploadSchedule::Opportunistic,
    {
        CloudConfig {
            broker_url: "localhost".to_owned(),
            broker_port: 1883,
            vehicle_id: "unknown".to_owned(),
            daily_quota_mb: 500,
            schedule: UploadSchedule::Opportunistic,
        }
    }
}

/// Video files attached to an uploaded event.
#[derive(Debug, Clone, PartialEq, Eq)]
pub struct VideoReferences {
    pub cabin: Option<String>,
    pub road: Option<String>,
}

/// Whether `hour` (UTC, 0..23) falls in the night upload window, 02:00 to 06:59.
pub open spec fn nightly(hour: u32) -> bool {
    2 <= hour <= 6
}

/// Whether an event may be uploaded: crashes always; others while the day's
/// budget lasts and as the schedule allows.
pub open spec fn upload_allowed(
    event: FusedEvent,
    used_today_mb: u32,
    daily_quota_mb: u32,
    schedule: UploadSchedule,
    hour: u32,
) -> bool {
    if event is Crash {
        true
    } else if used_today_mb >= daily_quota_mb {
        false
    } else {
        match schedule {
            UploadSchedule::Immediate | UploadSchedule::Opportunistic => true,
            UploadSchedule::Nightly => nightly(hour),
            UploadSchedule::Manual => false,
        }
    }
}

/// Whether `hour` (UTC) falls in the night upload window.
pub fn is_nightly_window(hour: u32) -> (r: bool)
    ensures
        r == nightly(hour),
{
    hour >= 2 && hour <= 6
}

/// Upload decision for `event` given the budget used today and the current
/// UTC hour.
pub fn should_upload(
    event: &FusedEvent,
    used_today_mb: u32,
    daily_quota_mb: u32,
    schedule: UploadSchedule,
    hour: u32,
) -> (r: bool)
    ensures
        r == upload_allowed(*event, used_today_mb, daily_quota_mb, schedule, hour),
{
    if let FusedEvent::Crash { .. } = event {
        return true;
    }
    if used_today_mb >= daily_quota_mb {
        return false;
    }
    match schedule {
        UploadSchedule::Immediate => true,
        UploadSchedule::Opportunistic => true,
        UploadSchedule::Nightly => is_nightly_window(hour),
        UploadSchedule::Manual => false,
    }
}

} // verus!
