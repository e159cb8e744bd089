use vstd::prelude::*;

verus! {

/// Bus protocols an adapter can be set to.
#[derive(Debug, Clone, Copy, PartialEq, Eq, Structural)]
pub enum ObdProtocol {
    Auto,
    J1850Pwm,
    J1850Vpw,
    Iso9141_2,
    Iso14230_4Kwp,
    Iso14230_4KwpFast,
    Iso15765_4Can11bit500,
    Iso15765_4Can29bit500,
    Iso15765_4Can11bit250,
    Iso15765_4Can29bit250,
}

impl ObdProtocol {
    pub open spec fn spec_is_can(self) -> bool {
        match self {
            ObdProtocol::Iso15765_4Can11bit500 | ObdProtocol::Iso15765_4Can29bit500
            | ObdProtocol::Iso15765_4Can11bit250 | ObdProtocol::Iso15765_4Can29bit250 => true,
            _ => false,
        }
    }

    /// The adapter command that selects this protocol.
    pub fn to_elm_command(&self) -> (r: &'static str)
        ensures
            r@ == (match *self {
                ObdProtocol::Auto => "ATSP0"@,
                ObdProtocol::J1850Pwm => "ATSP1"@,
                ObdProtocol::J1850Vpw => "ATSP2"@,
                ObdProtocol::Iso9141_2 => "ATSP3"@,
                ObdProtocol::Iso14230_4Kwp => "ATSP4"@,
                ObdProtocol::Iso14230_4KwpFast => "ATSP5"@,
                ObdProtocol::Iso15765_4Can11bit500 => "ATSP6"@,
                ObdProtocol::Iso15765_4Can29bit500 => "ATSP7"@,
                ObdProtocol::Iso15765_4Can11bit250 => "ATSP8"@,
                ObdProtocol::Iso15765_4Can29bit250 => "ATSP9"@,
            }),
    {
        match self {
            ObdProtocol::Auto => "ATSP0",
            ObdProtocol::J1850Pwm => "ATSP1",
            ObdProtocol::J1850Vpw => "ATSP2",
            ObdProtocol::Iso9141_2 => "ATSP3",
            ObdProtocol::Iso14230_4Kwp => "ATSP4",
            ObdProtocol::Iso14230_4KwpFast => "ATSP5",
            ObdProtocol::Iso15765_4Can11bit500 => "ATSP6",
            ObdProtocol::Iso15765_4Can29bit500 => "ATSP7",
            ObdProtocol::Iso15765_4Can11bit250 => "ATSP8",
            ObdProtocol::Iso15765_4Can29bit250 => "ATSP9",
        }
    }

    /// Whether this is one of the CAN protocols.
    pub fn is_can(&self) -> (r: bool)
        ensures
            r == self.spec_is_can(),
    {
        match self {
            ObdProtocol::Iso15765_4Can11bit500 | ObdProtocol::Iso15765_4Can29bit500
            | ObdProtocol::Iso15765_4Can11bit250 | ObdProtocol::Iso15765_4Can29bit250 => true,
            _ => false,
        }
    }

    /// Serial baud rate: 115200 for CAN protocols, 38400 otherwise.
    pub fn default_baud_rate(&self) -> (r: u32)
        ensures
            r == if self.spec_is_can() {
                115200u32
            } else {
                38400u32
            },
    {
        if self.is_can() {
            115200
        } else {
            38400
        }
    }
}

impl Default for ObdProtocol {
    fn default() -> (r: ObdProtocol)
        ensures
            r == ObdProtocol::Auto,
    {
        ObdProtocol::Auto
    }
}

/// Failures of diagnostics communication.
#[derive(Debug, Clone, PartialEq, Eq)]
pub enum ObdError {
    SerialError(String),
    Timeout(u64),
    InvalidResponse(String),
    ChecksumError { expected: u8, actual: u8 },
    UnsupportedProtocol(String),
    PidNotSupported(u8),
    AdapterNotResponding,
    CanBusError(String),
    VehicleNotConnected,
}

} // verus!
