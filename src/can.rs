use vstd::prelude::*;

verus! {

/// A raw frame as handed over by the bus driver.
#[derive(Debug, Clone, Copy)]
pub struct CCanFrame {
    pub can_id: u32,
    pub dlc: u8,
    pub data: [u8; 8],
    pub timestamp_ns: u64,
}

/// A decoded sensor frame as handed over by the bus driver.
#[derive(Debug, Clone, Copy)]
pub struct CSensorFrame {
    pub timestamp_ns: u64,
    pub rpm: u16,
    pub coolant_temp: u8,
    pub speed: u8,
    pub engine_load: u8,
    pub maf: u16,
    pub throttle_pos: u8,
    pub fuel_trim_short: i8,
    pub fuel_trim_long: i8,
    pub valid_mask: u8,
}

/// Status codes returned by the bus driver.
#[derive(Debug, Clone, Copy, PartialEq, Eq, Structural)]
pub enum CanErrorCode {
    Success,
    ErrorInit,
    NotInitialized,
    BusOff,
    NoAck,
    Timeout,
    SerialOpen,
    SerialTimeout,
    ProtocolMismatch,
    InvalidResponse,
    NoData,
    Unknown,
}

/// The status a driver return code stands for.
pub open spec fn code_of(code: i32) -> CanErrorCode {
    if code == 0 {
        CanErrorCode::Success
    } else if code == -1 {
        CanErrorCode::ErrorInit
    } else if code == -2 {
        CanErrorCode::NotInitialized
    } else if code == -10 {
        CanErrorCode::BusOff
    } else if code == -11 {
        CanErrorCode::NoAck
    } else if code == -12 {
        CanErrorCode::Timeout
    } else if code == -20 {
        CanErrorCode::SerialOpen
    } else if code == -21 {
        CanErrorCode::SerialTimeout
    } else if code == -30 {
        CanErrorCode::ProtocolMismatch
    } else if code == -31 {
        CanErrorCode::InvalidResponse
    } else if code == -40 {
        CanErrorCode::NoData
    } else {
        CanErrorCode::Unknown
    }
}

impl From<i32> for CanErrorCode {
    fn from(code: i32) -> (r: CanErrorCode)
        ensures
            r == code_of(code),
    {
        match code {
            0 => CanErrorCode::Success,
            -1 => CanErrorCode::ErrorInit,
            -2 => CanErrorCode::NotInitialized,
            -10 => CanErrorCode::BusOff,
            -11 => CanErrorCode::NoAck,
            -12 => CanErrorCode::Timeout,
            -20 => CanErrorCode::SerialOpen,
            -21 => CanErrorCode::SerialTimeout,
            -30 => CanErrorCode::ProtocolMismatch,
            -31 => CanErrorCode::InvalidResponse,
            -40 => CanErrorCode::NoData,
            _ => CanErrorCode::Unknown,
        }
    }
}

impl vstd::std_specs::convert::FromSpecImpl<i32> for CanErrorCode {
    open spec fn obeys_from_spec() -> bool {
        true
    }

    open spec fn from_spec(code: i32) -> CanErrorCode {
        code_of(code)
    }
}

/// Failures of the bus driver.
#[derive(Debug, Clone, PartialEq, Eq)]
pub enum DriverError {
    Init(String),
    NotInitialized,
    BusOff,
    Timeout,
    Serial(String),
    Protocol(String),
    NoData,
    Unknown(String),
}

/// The kind of error a status stands for, without its message.
pub enum DriverErrorKind {
    Init,
    NotInitialized,
    BusOff,
    Timeout,
    Serial,
    Protocol,
    NoData,
    Unknown,
}

pub open spec fn kind_of(e: DriverError) -> DriverErrorKind {
    match e {
        DriverError::Init(_) => DriverErrorKind::Init,
        DriverError::NotInitialized => DriverErrorKind::NotInitialized,
        DriverError::BusOff => DriverErrorKind::BusOff,
        DriverError::Timeout => DriverErrorKind::Timeout,
        DriverError::Serial(_) => DriverErrorKind::Serial,
        DriverError::Protocol(_) => DriverErrorKind::Protocol,
        DriverError::NoData => DriverErrorKind::NoData,
        DriverError::Unknown(_) => DriverErrorKind::Unknown,
    }
}

/// The error a failure status maps to (`Success` and unknown codes map to `Unknown`).
pub open spec fn error_of(code: CanErrorCode) -> DriverErrorKind {
    match code {
        CanErrorCode::ErrorInit => DriverErrorKind::Init,
        CanErrorCode::NotInitialized => DriverErrorKind::NotInitialized,
        CanErrorCode::BusOff => DriverErrorKind::BusOff,
        CanErrorCode::NoAck | CanErrorCode::Timeout => DriverErrorKind::Timeout,
        CanErrorCode::SerialOpen | CanErrorCode::SerialTimeout => DriverErrorKind::Serial,
        CanErrorCode::ProtocolMismatch | CanErrorCode::InvalidResponse => DriverErrorKind::Protocol,
        CanErrorCode::NoData => DriverErrorKind::NoData,
        CanErrorCode::Success | CanErrorCode::Unknown => DriverErrorKind::Unknown,
    }
}

/// Message carried by the error of a status.
pub open spec fn message_of(code: CanErrorCode) -> Seq<char> {
    match code {
        CanErrorCode::ErrorInit => "initialization failed"@,
        CanErrorCode::SerialOpen => "failed to open port"@,
        CanErrorCode::SerialTimeout => "timeout"@,
        CanErrorCode::ProtocolMismatch => "mismatch"@,
        CanErrorCode::InvalidResponse => "invalid response"@,
        CanErrorCode::Success => "not an error"@,
        _ => "unknown error"@,
    }
}

pub open spec fn message_in(e: DriverError) -> Option<Seq<char>> {
    match e {
        DriverError::Init(m) => Some(m@),
        DriverError::Serial(m) => Some(m@),
        DriverError::Protocol(m) => Some(m@),
        DriverError::Unknown(m) => Some(m@),
        _ => None,
    }
}

impl DriverError {
    /// The error a driver status stands for. `Success` is no failure and maps to
    /// `Unknown("not an error")`.
    pub fn from_code(code: CanErrorCode) -> (r: DriverError)
        ensures
            kind_of(r) == error_of(code),
            message_in(r) is Some ==> message_in(r) == Some(message_of(code)),
    {
        match code {
            CanErrorCode::Success => DriverError::Unknown("not an error".to_owned()),
            CanErrorCode::ErrorInit => DriverError::Init("initialization failed".to_owned()),
            CanErrorCode::NotInitialized => DriverError::NotInitialized,
            CanErrorCode::BusOff => DriverError::BusOff,
            CanErrorCode::NoAck | CanErrorCode::Timeout => DriverError::Timeout,
            CanErrorCode::SerialOpen => DriverError::Serial("failed to open port".to_owned()),
            CanErrorCode::SerialTimeout => DriverError::Serial("timeout".to_owned()),
            CanErrorCode::ProtocolMismatch => DriverError::Protocol("mismatch".to_owned()),
            CanErrorCode::InvalidResponse => DriverError::Protocol("invalid response".to_owned()),
            CanErrorCode::NoData => DriverError::NoData,
            CanErrorCode::Unknown => DriverError::Unknown("unknown error".to_owned()),
        }
    }
}

/// Outcome of a non-blocking read by its return code: a frame is ready
/// (`Ok(true)`) for a positive code, none yet (`Ok(false)`) for zero, and the
/// code's error for a negative one.
pub fn read_outcome(ret: i32) -> (r: Result<bool, DriverError>)
    ensures
        ret > 0 ==> r == Ok::<bool, DriverError>(true),
        ret == 0 ==> r == Ok::<bool, DriverError>(false),
        ret < 0 ==> r is Err && kind_of(r->Err_0) == error_of(code_of(ret)),
{
    if ret > 0 {
        Ok(true)
    } else if ret == 0 {
        Ok(false)
    } else {
        Err(DriverError::from_code(CanErrorCode::from(ret)))
    }
}

/// Settings of the bus driver.
#[derive(Debug, Clone, PartialEq, Eq)]
pub struct DriverConfig {
    /// Bus interface name.
    pub can_interface: String,
    /// Serial device of the adapter.
    pub serial_device: String,
    /// Serial baud rate.
    pub baud_rate: i32,
    /// Whether to talk to a serial adapter instead of the bus interface.
    pub use_elm327: bool,
}

impl Default for DriverConfig {
    fn default() -> (r: DriverConfig)
        ensures
            r.can_interface@ == "vcan0"@,
            r.serial_device@ == "/dev/ttyUSB0"@,
            r.baud_rate == 38400,
            !r.use_elm327,
    {
        DriverConfig {
            can_interface: "vcan0".to_owned(),
            serial_device: "/dev/ttyUSB0".to_owned(),
            baud_rate: 38400,
            use_elm327: false,
        }
    }
}

} // verus!
