use vstd::prelude::*;

verus! {

/// One time-tagged set of engine and chassis readings.
#[derive(Debug, Clone, Copy, PartialEq, Eq)]
pub struct SensorFrame {
    /// Capture time, milliseconds since the epoch.
    pub timestamp_ms: u64,
    /// Engine speed (rpm).
    pub rpm: u16,
    /// Vehicle speed (km/h).
    pub speed: u8,
    /// Coolant temperature (°C).
    pub coolant_temp: i16,
    /// Calculated engine load (%).
    pub engine_load: u8,
    /// Mass air flow, hundredths of g/s.
    pub maf: u16,
    /// Short-term fuel trim, hundredths of a percent.
    pub fuel_trim_short: i16,
    /// Long-term fuel trim, hundredths of a percent.
    pub fuel_trim_long: i16,
    /// Oxygen sensor voltage (mV).
    pub o2_voltage: u16,
}

impl SensorFrame {
    /// A frame with every reading zero.
    pub open spec fn zeroed(timestamp_ms: u64) -> SensorFrame {
        SensorFrame {
            timestamp_ms,
            rpm: 0,
            speed: 0,
            coolant_temp: 0,
            engine_load: 0,
            maf: 0,
            fuel_trim_short: 0,
            fuel_trim_long: 0,
            o2_voltage: 0,
        }
    }

    /// An empty frame stamped with `timestamp_ms`.
    pub fn new(timestamp_ms: u64) -> (r: SensorFrame)
        ensures
            r == SensorFrame::zeroed(timestamp_ms),
    {
        SensorFrame {
            timestamp_ms,
            rpm: 0,
            speed: 0,
            coolant_temp: 0,
            engine_load: 0,
            maf: 0,
            fuel_trim_short: 0,
            fuel_trim_long: 0,
            o2_voltage: 0,
        }
    }
}

impl Default for SensorFrame {
    fn default() -> (r: SensorFrame)
        ensures
            r == SensorFrame::zeroed(0),
    {
        SensorFrame::new(0)
    }
}

} // verus!
