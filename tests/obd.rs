use telemetry_core::can::{read_outcome, CanErrorCode, DriverConfig, DriverError};
use telemetry_core::client::ObdClient;
use telemetry_core::pid::{Pid, PidResponse};
use telemetry_core::protocol::{ObdError, ObdProtocol};
use telemetry_core::sensor::SensorFrame;

fn value(r: &PidResponse) -> f64 {
    r.value_num as f64 / r.value_den as f64
}

#[test]
fn test_rpm_decode() {
    let response = PidResponse::decode(0x0C, vec![0x1A, 0x2B], 0);
    assert!((value(&response) - 1674.75).abs() < 0.01);
}

#[test]
fn test_coolant_temp_decode() {
    let response = PidResponse::decode(0x05, vec![0x73], 0);
    assert!((value(&response) - 75.0).abs() < 0.01);
}

#[test]
fn test_speed_decode() {
    let response = PidResponse::decode(0x0D, vec![0x55], 0);
    assert!((value(&response) - 85.0).abs() < 0.01);
}

#[test]
fn test_fuel_trim_decode() {
    let response = PidResponse::decode(0x06, vec![0x80], 0);
    assert!((value(&response) - 0.0).abs() < 0.01);

    let response = PidResponse::decode(0x06, vec![0x90], 0);
    assert!((value(&response) - 12.5).abs() < 0.01);
}

#[test]
fn decode_other_formulas() {
    let load = PidResponse::decode(0x04, vec![0xFF], 0);
    assert_eq!((load.value_num, load.value_den), (25_500, 255));
    let maf = PidResponse::decode(0x10, vec![0x01, 0x00], 0);
    assert_eq!((maf.value_num, maf.value_den), (256, 100));
    let o2 = PidResponse::decode(0x14, vec![100], 0);
    assert_eq!((o2.value_num, o2.value_den), (100, 200));
    let short = PidResponse::decode(0x0C, vec![0x1A], 0);
    assert_eq!((short.value_num, short.value_den), (0, 1));
    let unknown = PidResponse::decode(0x7F, vec![1, 2], 0);
    assert_eq!((unknown.value_num, unknown.value_den), (0, 1));
}

#[test]
fn frame_update_scales_each_field() {
    let mut frame = SensorFrame::new(5);
    frame.update_from_response(&PidResponse::decode(0x0C, vec![0x1A, 0x2B], 0));
    assert_eq!(frame.rpm, 1674);
    frame.update_from_response(&PidResponse::decode(0x05, vec![0x10], 0));
    assert_eq!(frame.coolant_temp, -24);
    frame.update_from_response(&PidResponse::decode(0x10, vec![0x01, 0x00], 0));
    assert_eq!(frame.maf, 256);
    frame.update_from_response(&PidResponse::decode(0x06, vec![0x90], 0));
    assert_eq!(frame.fuel_trim_short, 1250);
    frame.update_from_response(&PidResponse::decode(0x07, vec![0x70], 0));
    assert_eq!(frame.fuel_trim_long, -1250);
    frame.update_from_response(&PidResponse::decode(0x14, vec![90], 0));
    assert_eq!(frame.o2_voltage, 450);
    assert_eq!(frame.timestamp_ms, 5);
}

#[test]
fn pid_tables() {
    assert_eq!(Pid::Rpm.as_hex(), 0x0C);
    assert_eq!(Pid::CoolantTemp.as_hex(), 0x05);
    assert_eq!(Pid::Maf.response_bytes(), 2);
    assert_eq!(Pid::Speed.response_bytes(), 1);
    assert_eq!(Pid::Rpm.sampling_priority(), 10);
    assert_eq!(Pid::Maf.sampling_priority(), 5);
    assert_eq!(Pid::O2Voltage.sampling_priority(), 2);
}

#[test]
fn protocol_commands() {
    assert_eq!(ObdProtocol::Auto.to_elm_command(), "ATSP0");
    assert_eq!(ObdProtocol::Iso15765_4Can29bit250.to_elm_command(), "ATSP9");
    assert!(ObdProtocol::Iso15765_4Can11bit500.is_can());
    assert!(!ObdProtocol::J1850Pwm.is_can());
    assert_eq!(ObdProtocol::Iso15765_4Can11bit500.default_baud_rate(), 115200);
    assert_eq!(ObdProtocol::default().default_baud_rate(), 38400);
}

#[test]
fn test_mock_client_creation() {
    let client = ObdClient::mock();
    assert!(client.is_connected());
    assert!(client.is_mock());
}

#[test]
fn test_mock_pid_query() {
    let mut client = ObdClient::mock();
    let response = client.query_pid(0x0C, 1_000, 123_456_789).unwrap();
    assert_eq!(response.pid, 0x0C);
    let v = value(&response);
    assert!(v >= 800.0 && v <= 3500.0);
}

#[test]
fn test_mock_protocol_change() {
    let mut client = ObdClient::mock();
    client.set_protocol(ObdProtocol::Iso15765_4Can29bit500).unwrap();
    assert_eq!(client.protocol(), ObdProtocol::Iso15765_4Can29bit500);
}

#[test]
fn disconnected_client_does_not_answer() {
    let mut client = ObdClient::new("/dev/ttyUSB0", 38400);
    assert!(!client.is_connected());
    assert_eq!(client.query_pid(0x0C, 0, 0).unwrap_err(), ObdError::AdapterNotResponding);
    client.initialize().unwrap();
    assert!(client.is_connected());
    client.set_timeout(500);
    assert_eq!(client.timeout_ms(), 500);
    client.disconnect();
    assert!(!client.is_connected());
}

#[test]
fn test_driver_config_default() {
    let config = DriverConfig::default();
    assert_eq!(config.can_interface, "vcan0");
    assert_eq!(config.baud_rate, 38400);
    assert!(!config.use_elm327);
}

#[test]
fn test_error_code_conversion() {
    assert_eq!(CanErrorCode::from(0), CanErrorCode::Success);
    assert_eq!(CanErrorCode::from(-10), CanErrorCode::BusOff);
    assert_eq!(CanErrorCode::from(-999), CanErrorCode::Unknown);
}

#[test]
fn driver_errors_from_codes() {
    assert_eq!(DriverError::from_code(CanErrorCode::NoAck), DriverError::Timeout);
    assert_eq!(
        DriverError::from_code(CanErrorCode::SerialOpen),
        DriverError::Serial("failed to open port".to_string())
    );
    assert_eq!(read_outcome(1), Ok(true));
    assert_eq!(read_outcome(0), Ok(false));
    assert_eq!(read_outcome(-10), Err(DriverError::BusOff));
}
