use telemetry_core::filter::MedianFilter;
use telemetry_core::sensor::SensorFrame;
use telemetry_core::validator::{ValidationError, Validator};

#[test]
fn test_median_filter_basic() {
    let mut filter = MedianFilter::new(5);

    filter.filter(10);
    filter.filter(12);
    filter.filter(11);
    filter.filter(100);
    filter.filter(13);

    let result = filter.filter(12);
    assert_eq!(result, 12);
}

#[test]
fn test_median_filter_removes_spike() {
    let mut filter = MedianFilter::new(5);

    for val in [10, 11, 10, 100, 10] {
        filter.filter(val);
    }

    let result = filter.filter(11);
    assert!(result < 20);
}

#[test]
fn median_despike_scenario() {
    let mut filter = MedianFilter::new(5);
    let outputs: Vec<i64> = [10, 11, 10, 100, 10, 11].iter().map(|&v| filter.filter(v)).collect();
    assert_eq!(&outputs[..4], &[10, 11, 10, 100]);
    assert_eq!(outputs[5], 11);
}

#[test]
fn median_of_constant_stream_is_constant() {
    let mut filter = MedianFilter::new(3);
    for _ in 0..10 {
        assert_eq!(filter.filter(42), 42);
    }
    filter.reset();
    assert_eq!(filter.filter(-7), -7);
}

#[test]
fn test_valid_rpm() {
    let validator = Validator::default();
    assert!(validator.validate_rpm(3000).is_ok());
    assert!(validator.validate_rpm(0).is_ok());
    assert!(validator.validate_rpm(8000).is_ok());
}

#[test]
fn test_invalid_rpm() {
    let validator = Validator::default();
    assert!(validator.validate_rpm(-100).is_err());
    assert!(validator.validate_rpm(10000).is_err());
}

#[test]
fn test_coolant_temp_range() {
    let validator = Validator::default();
    assert!(validator.validate_coolant_temp(-40).is_ok());
    assert!(validator.validate_coolant_temp(90).is_ok());
    assert!(validator.validate_coolant_temp(215).is_ok());
    assert!(validator.validate_coolant_temp(-50).is_err());
    assert!(validator.validate_coolant_temp(250).is_err());
}

#[test]
fn test_checksum() {
    let validator = Validator::default();
    let data = [0x41, 0x0C, 0x1A, 0x2B];
    let checksum = data.iter().fold(0u8, |acc, &x| acc.wrapping_add(x));
    assert!(validator.validate_checksum(&data, checksum).is_ok());
    assert!(validator.validate_checksum(&data, checksum.wrapping_add(1)).is_err());
}

#[test]
fn checksum_error_reports_both_values() {
    let validator = Validator::default();
    let data = [0xFF, 0x02];
    assert_eq!(
        validator.validate_checksum(&data, 0),
        Err(ValidationError::ChecksumMismatch { expected: 0, actual: 1 })
    );
}

#[test]
fn range_error_carries_the_bounds() {
    let validator = Validator::default();
    assert_eq!(
        validator.validate_speed(301),
        Err(ValidationError::OutOfRange { field: "speed", value: 301, min: 0, max: 300 })
    );
    assert!(validator.validate_engine_load(101).is_err());
    assert!(validator.validate_maf(65535).is_ok());
}

#[test]
fn frame_validation_lists_each_rejected_field() {
    let validator = Validator::default();
    let good = SensorFrame { rpm: 3000, coolant_temp: 90, speed: 80, engine_load: 40, ..SensorFrame::new(0) };
    let result = validator.validate(&good);
    assert!(result.valid);
    assert_eq!(result.fields_checked, 5);

    let bad = SensorFrame { rpm: 9000, coolant_temp: 300, speed: 80, engine_load: 150, ..SensorFrame::new(0) };
    let result = validator.validate(&bad);
    assert!(!result.valid);
    assert_eq!(result.errors.len(), 3);
    assert_eq!(
        result.errors[0],
        ValidationError::OutOfRange { field: "rpm", value: 9000, min: 0, max: 8000 }
    );
    assert_eq!(
        result.errors[2],
        ValidationError::OutOfRange { field: "engine_load", value: 150, min: 0, max: 100 }
    );
}
