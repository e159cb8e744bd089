use telemetry_core::camera::{CameraConfig, CameraType};
use telemetry_core::cloud::{should_upload, CloudConfig, UploadSchedule};
use telemetry_core::fusion::{FusedEvent, Severity};
use telemetry_core::inference::{FaultType, InferenceEngine};
use telemetry_core::rate_limit::RateLimitConfig;

#[test]
fn test_default_config() {
    let config = RateLimitConfig::default();
    assert_eq!(config.per_second, 2);
    assert_eq!(config.burst_size, 5);
}

#[test]
fn test_strict_config() {
    let config = RateLimitConfig::strict();
    assert_eq!(config.per_second, 4);
    assert_eq!(config.burst_size, 2);
}

#[test]
fn lenient_config() {
    let config = RateLimitConfig::lenient();
    assert_eq!(config.per_second, 1);
    assert_eq!(config.burst_size, 10);
}

#[test]
fn camera_presets() {
    let cabin = CameraConfig::cabin();
    assert_eq!(cabin.camera_type, CameraType::Cabin);
    assert_eq!((cabin.width, cabin.height, cabin.fps), (640, 480, 15));
    assert!(cabin.enable_ir);
    let road = CameraConfig::road();
    assert_eq!(road.device, "/dev/video1");
    assert_eq!((road.width, road.height, road.fps), (1920, 1080, 30));
    assert!(!road.enable_ir);
}

#[test]
fn fault_names_and_actions() {
    assert_eq!(FaultType::Overheating.as_str(), "engine_overheating");
    assert_eq!(FaultType::NoFault.as_str(), "none");
    assert_eq!(FaultType::NoFault.recommended_action(), "No action required");
    assert!(FaultType::Misfire.recommended_action().starts_with("Check spark plugs"));
}

#[test]
fn inference_engine_loading() {
    let mut engine = InferenceEngine::new("model.onnx").unwrap();
    assert!(!engine.is_loaded());
    assert_eq!(engine.model_path(), "model.onnx");
    engine.load().unwrap();
    assert!(engine.is_loaded());
    assert!(InferenceEngine::mock().is_loaded());
}

#[test]
fn upload_policy() {
    let crash = FusedEvent::Crash { severity: Severity::Critical, g_force_mg: 3_200, airbag_deployed: false };
    let speeding = FusedEvent::Speeding { current_kmh: 80, limit_kmh: 50 };
    assert!(should_upload(&crash, 900, 500, UploadSchedule::Manual, 12));
    assert!(!should_upload(&speeding, 500, 500, UploadSchedule::Immediate, 12));
    assert!(should_upload(&speeding, 10, 500, UploadSchedule::Opportunistic, 12));
    assert!(should_upload(&speeding, 10, 500, UploadSchedule::Nightly, 3));
    assert!(!should_upload(&speeding, 10, 500, UploadSchedule::Nightly, 12));
    assert!(!should_upload(&speeding, 10, 500, UploadSchedule::Manual, 3));
    assert_eq!(CloudConfig::default().daily_quota_mb, 500);
}
