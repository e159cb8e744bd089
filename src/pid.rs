use vstd::prelude::*;
use crate::sensor::SensorFrame;

verus! {

/// Standard mode-01 diagnostic parameters.
#[derive(Debug, Clone, Copy, PartialEq, Eq, Structural, Hash)]
pub enum Pid {
    Rpm,
    Speed,
    CoolantTemp,
    EngineLoad,
    Maf,
    ShortFuelTrim,
    LongFuelTrim,
    O2Voltage,
    IntakeManifoldPressure,
    ThrottlePosition,
}

impl Pid {
    pub open spec fn spec_hex(self) -> u8 {
        match self {
            Pid::Rpm => 0x0C,
            Pid::Speed => 0x0D,
            Pid::CoolantTemp => 0x05,
            Pid::EngineLoad => 0x04,
            Pid::Maf => 0x10,
            Pid::ShortFuelTrim => 0x06,
            Pid::LongFuelTrim => 0x07,
            Pid::O2Voltage => 0x14,
            Pid::IntakeManifoldPressure => 0x0B,
            Pid::ThrottlePosition => 0x11,
        }
    }

    pub open spec fn spec_priority(self) -> u8 {
        match self {
            Pid::Rpm | Pid::Speed | Pid::CoolantTemp | Pid::EngineLoad => 10,
            Pid::Maf => 5,
            _ => 2,
        }
    }

    /// The code sent on the bus for this parameter.
    pub fn as_hex(&self) -> (r: u8)
        ensures
            r == self.spec_hex(),
    {
        match self {
            Pid::Rpm => 0x0C,
            Pid::Speed => 0x0D,
            Pid::CoolantTemp => 0x05,
            Pid::EngineLoad => 0x04,
            Pid::Maf => 0x10,
            Pid::ShortFuelTrim => 0x06,
            Pid::LongFuelTrim => 0x07,
            Pid::O2Voltage => 0x14,
            Pid::IntakeManifoldPressure => 0x0B,
            Pid::ThrottlePosition => 0x11,
        }
    }

    /// Number of data bytes in a reply.
    pub fn response_bytes(&self) -> (r: usize)
        ensures
            r == (match *self {
                Pid::Rpm | Pid::Maf | Pid::O2Voltage => 2usize,
                _ => 1usize,
            }),
    {
        match self {
            Pid::Rpm | Pid::Maf | Pid::O2Voltage => 2,
            _ => 1,
        }
    }

    /// Base sampling weight; higher is sampled more often.
    pub fn sampling_priority(&self) -> (r: u8)
        ensures
            r == self.spec_priority(),
    {
        match self {
            Pid::Rpm | Pid::Speed | Pid::CoolantTemp | Pid::EngineLoad => 10,
            Pid::Maf => 5,
            _ => 2,
        }
    }
}

/// Exact decoded value of a reply, as numerator and denominator.
pub open spec fn decoded(pid: u8, b: Seq<u8>) -> (int, int) {
    if pid == 0x0C && b.len() >= 2 {
        (b[0] * 256 + b[1], 4)
    } else if pid == 0x0D && b.len() >= 1 {
        (b[0] as int, 1)
    } else if pid == 0x05 && b.len() >= 1 {
        (b[0] - 40, 1)
    } else if pid == 0x04 && b.len() >= 1 {
        (b[0] * 100, 255)
    } else if pid == 0x10 && b.len() >= 2 {
        (b[0] * 256 + b[1], 100)
    } else if (pid == 0x06 || pid == 0x07) && b.len() >= 1 {
        ((b[0] - 128) * 100, 128)
    } else if pid == 0x14 && b.len() >= 1 {
        (b[0] as int, 200)
    } else if pid == 0x0B && b.len() >= 1 {
        (b[0] as int, 1)
    } else if pid == 0x11 && b.len() >= 1 {
        (b[0] * 100, 255)
    } else {
        (0, 1)
    }
}

/// A decoded reply to one parameter query.
#[derive(Debug, Clone)]
pub struct PidResponse {
    /// Parameter code that was queried.
    pub pid: u8,
    /// Time the reply was received (ms since the epoch).
    pub timestamp_ms: u64,
    /// Numerator of the decoded value.
    pub value_num: i64,
    /// Denominator of the decoded value (positive).
    pub value_den: i64,
    /// Data bytes of the reply.
    pub raw_bytes: Vec<u8>,
}

impl PidResponse {
    /// The value is the decoding of the raw bytes.
    pub open spec fn wf(&self) -> bool {
        (self.value_num as int, self.value_den as int) == decoded(self.pid, self.raw_bytes@)
    }

    /// Decodes `raw_bytes` by the formula of parameter `pid`; an unknown
    /// parameter or too few bytes decode to zero.
    pub fn decode(pid: u8, raw_bytes: Vec<u8>, timestamp_ms: u64) -> (r: PidResponse)
        ensures
            r.wf(),
            r.pid == pid,
            r.timestamp_ms == timestamp_ms,
            r.raw_bytes@ == raw_bytes@,
    {
        let (value_num, value_den) = decode_value(pid, raw_bytes.as_slice());
        PidResponse { pid, timestamp_ms, value_num, value_den, raw_bytes }
    }
}

fn decode_value(pid: u8, bytes: &[u8]) -> (r: (i64, i64))
    ensures
        (r.0 as int, r.1 as int) == decoded(pid, bytes@),
{
    let n = bytes.len();
    if pid == 0x0C && n >= 2 {
        (bytes[0] as i64 * 256 + bytes[1] as i64, 4)
    } else if pid == 0x0D && n >= 1 {
        (bytes[0] as i64, 1)
    } else if pid == 0x05 && n >= 1 {
        (bytes[0] as i64 - 40, 1)
    } else if pid == 0x04 && n >= 1 {
        (bytes[0] as i64 * 100, 255)
    } else if pid == 0x10 && n >= 2 {
        (bytes[0] as i64 * 256 + bytes[1] as i64, 100)
    } else if (pid == 0x06 || pid == 0x07) && n >= 1 {
        ((bytes[0] as i64 - 128) * 100, 128)
    } else if pid == 0x14 && n >= 1 {
        (bytes[0] as i64, 200)
    } else if pid == 0x0B && n >= 1 {
        (bytes[0] as i64, 1)
    } else if pid == 0x11 && n >= 1 {
        (bytes[0] as i64 * 100, 255)
    } else {
        (0, 1)
    }
}

/// `n / d` rounded toward zero.
pub open spec fn trunc_div(n: int, d: int) -> int {
    if n >= 0 {
        n / d
    } else {
        -((-n) / d)
    }
}

/// `v` limited to `[lo, hi]`.
pub open spec fn clamp(v: int, lo: int, hi: int) -> int {
    if v < lo {
        lo
    } else if v > hi {
        hi
    } else {
        v
    }
}

/// `num * scale / den` rounded toward zero and limited to `[lo, hi]`.
fn scaled(num: i64, den: i64, scale: i64, lo: i64, hi: i64) -> (r: i64)
    requires
        den > 0,
        scale > 0,
        scale <= 1000,
        -10_000_000 <= num <= 10_000_000,
        lo <= hi,
    ensures
        r == clamp(trunc_div(num * scale, den as int), lo as int, hi as int),
{
    proof {
        assert(-10_000_000_000 <= num * scale <= 10_000_000_000) by (nonlinear_arith)
            requires
                -10_000_000 <= num <= 10_000_000,
                0 < scale <= 1000,
        ;
    }
    let p = num * scale;
    let t = if p >= 0 {
        p / den
    } else {
        -((-p) / den)
    };
    if t < lo {
        lo
    } else if t > hi {
        hi
    } else {
        t
    }
}

pub proof fn lemma_decoded_bounds(pid: u8, b: Seq<u8>)
    ensures
        decoded(pid, b).1 > 0,
        -10_000_000 <= decoded(pid, b).0 <= 10_000_000,
{
}

/// `o` with the value of `response` stored in the field of its parameter.
pub open spec fn applied(o: SensorFrame, response: PidResponse) -> SensorFrame {
    let n = response.value_num as int;
    let d = response.value_den as int;
    if response.pid == 0x0C {
        SensorFrame { rpm: clamp(trunc_div(n, d), 0, 65535) as u16, ..o }
    } else if response.pid == 0x0D {
        SensorFrame { speed: clamp(trunc_div(n, d), 0, 255) as u8, ..o }
    } else if response.pid == 0x05 {
        SensorFrame { coolant_temp: clamp(trunc_div(n, d), -32768, 32767) as i16, ..o }
    } else if response.pid == 0x04 {
        SensorFrame { engine_load: clamp(trunc_div(n, d), 0, 255) as u8, ..o }
    } else if response.pid == 0x10 {
        SensorFrame { maf: clamp(trunc_div(n * 100, d), 0, 65535) as u16, ..o }
    } else if response.pid == 0x06 {
        SensorFrame { fuel_trim_short: clamp(trunc_div(n * 100, d), -32768, 32767) as i16, ..o }
    } else if response.pid == 0x07 {
        SensorFrame { fuel_trim_long: clamp(trunc_div(n * 100, d), -32768, 32767) as i16, ..o }
    } else if response.pid == 0x14 {
        SensorFrame { o2_voltage: clamp(trunc_div(n * 1000, d), 0, 65535) as u16, ..o }
    } else {
        o
    }
}

impl SensorFrame {
    /// Stores the value of `response` in the field of its parameter, scaled to
    /// the field's unit, rounded toward zero and limited to the field's type.
    /// Other parameters leave the frame as it is.
    pub fn update_from_response(&mut self, response: &PidResponse)
        requires
            response.wf(),
        ensures
            *final(self) == applied(*old(self), *response),
    {
        proof {
            lemma_decoded_bounds(response.pid, response.raw_bytes@);
        }
        let n = response.value_num;
        let d = response.value_den;
        match response.pid {
            0x0C => self.rpm = scaled(n, d, 1, 0, 65535) as u16,
            0x0D => self.speed = scaled(n, d, 1, 0, 255) as u8,
            0x05 => self.coolant_temp = scaled(n, d, 1, -32768, 32767) as i16,
            0x04 => self.engine_load = scaled(n, d, 1, 0, 255) as u8,
            0x10 => self.maf = scaled(n, d, 100, 0, 65535) as u16,
            0x06 => self.fuel_trim_short = scaled(n, d, 100, -32768, 32767) as i16,
            0x07 => self.fuel_trim_long = scaled(n, d, 100, -32768, 32767) as i16,
            0x14 => self.o2_voltage = scaled(n, d, 1000, 0, 65535) as u16,
            _ => {},
        }
    }
}

} // verus!
