use vstd::prelude::*;
use crate::sensor::SensorFrame;

verus! {

/// Why a reading or a frame was rejected.
#[derive(Debug, Clone, PartialEq, Eq)]
pub enum ValidationError {
    /// A reading outside its allowed range.
    OutOfRange { field: &'static str, value: i64, min: i64, max: i64 },
    /// The payload's checksum differs from the declared one.
    ChecksumMismatch { expected: u8, actual: u8 },
    /// The data could not be read.
    InvalidFormat(String),
    /// A required reading is absent.
    MissingField(&'static str),
}

/// Inclusive allowed ranges, in the units of `SensorFrame`.
#[derive(Debug, Clone, Copy, PartialEq, Eq)]
pub struct ValidationConfig {
    /// Engine speed (rpm).
    pub rpm_range: (i64, i64),
    /// Coolant temperature (°C).
    pub coolant_range: (i64, i64),
    /// Vehicle speed (km/h).
    pub speed_range: (i64, i64),
    /// Engine load (%).
    pub load_range: (i64, i64),
    /// Mass air flow (hundredths of g/s).
    pub maf_range: (i64, i64),
}

impl Default for ValidationConfig {
    fn default() -> (r: ValidationConfig)
        ensures
            r.rpm_range == (0i64, 8000i64),
            r.coolant_range == (-40i64, 215i64),
            r.speed_range == (0i64, 300i64),
            r.load_range == (0i64, 100i64),
            r.maf_range == (0i64, 65535i64),
    {
        ValidationConfig {
            rpm_range: (0, 8000),
            coolant_range: (-40, 215),
            speed_range: (0, 300),
            load_range: (0, 100),
            maf_range: (0, 65535),
        }
    }
}

/// Outcome of checking a frame.
#[derive(Debug, Clone)]
pub struct ValidationResult {
    /// Whether every reading is in range.
    pub valid: bool,
    /// One error per rejected reading.
    pub errors: Vec<ValidationError>,
    /// Number of readings checked (for an invalid result, the number rejected).
    pub fields_checked: usize,
}

impl ValidationResult {
    /// A passing result over `fields_checked` readings.
    pub fn valid(fields_checked: usize) -> (r: ValidationResult)
        ensures
            r.valid,
            r.errors@.len() == 0,
            r.fields_checked == fields_checked,
    {
        ValidationResult { valid: true, errors: Vec::new(), fields_checked }
    }

    /// A failing result carrying `errors`.
    pub fn invalid(errors: Vec<ValidationError>) -> (r: ValidationResult)
        ensures
            !r.valid,
            r.errors@ == errors@,
            r.fields_checked == errors@.len(),
    {
        let n = errors.len();
        ValidationResult { valid: false, errors, fields_checked: n }
    }
}

/// Whether `v` lies in the inclusive range `r`.
pub open spec fn in_range(v: i64, r: (i64, i64)) -> bool {
    r.0 <= v <= r.1
}

/// Sum of the bytes modulo 256.
pub open spec fn byte_sum(s: Seq<u8>) -> u8
    decreases s.len(),
{
    if s.len() == 0 {
        0
    } else {
        ((byte_sum(s.drop_last()) + s.last()) % 256) as u8
    }
}

/// `(name, value)` when `value` is outside `range`, nothing otherwise.
pub open spec fn check_field(name: Seq<char>, value: i64, range: (i64, i64)) -> Seq<(Seq<char>, i64)> {
    if in_range(value, range) {
        Seq::empty()
    } else {
        seq![(name, value)]
    }
}

/// The readings of `f` that `validate` rejects, in field order, as (name, value).
pub open spec fn out_of_range_fields(c: ValidationConfig, f: SensorFrame) -> Seq<(Seq<char>, i64)> {
    check_field("rpm"@, f.rpm as i64, c.rpm_range) + check_field(
        "coolant_temp"@,
        f.coolant_temp as i64,
        c.coolant_range,
    ) + check_field("speed"@, f.speed as i64, c.speed_range) + check_field(
        "engine_load"@,
        f.engine_load as i64,
        c.load_range,
    ) + check_field("maf"@, f.maf as i64, c.maf_range)
}

pub open spec fn error_names(errors: Seq<ValidationError>) -> Seq<(Seq<char>, i64)> {
    errors.map_values(
        |e: ValidationError|
            match e {
                ValidationError::OutOfRange { field, value, .. } => (field@, value),
                _ => (Seq::empty(), 0),
            },
    )
}

/// Range and checksum checks on diagnostics readings.
pub struct Validator {
    config: ValidationConfig,
}

impl Validator {
    pub closed spec fn spec_config(&self) -> ValidationConfig {
        self.config
    }

    /// A validator with the given ranges.
    pub fn new(config: ValidationConfig) -> (r: Validator)
        ensures
            r.spec_config() == config,
    {
        Validator { config }
    }

    /// `Ok` when `value` lies in `range` (bounds included), else the range error.
    pub fn validate_range(&self, field: &'static str, value: i64, range: (i64, i64)) -> (r: Result<
        (),
        ValidationError,
    >)
        ensures
            in_range(value, range) ==> r is Ok,
            !in_range(value, range) ==> r == Err::<(), ValidationError>(
                ValidationError::OutOfRange { field, value, min: range.0, max: range.1 },
            ),
    {
        if value < range.0 || value > range.1 {
            Err(ValidationError::OutOfRange { field, value, min: range.0, max: range.1 })
        } else {
            Ok(())
        }
    }

    /// Checks engine speed (rpm).
    pub fn validate_rpm(&self, rpm: i64) -> (r: Result<(), ValidationError>)
        ensures
            r is Ok <==> in_range(rpm, self.spec_config().rpm_range),
            r is Err ==> r->Err_0 == (ValidationError::OutOfRange {
                field: "rpm",
                value: rpm,
                min: self.spec_config().rpm_range.0,
                max: self.spec_config().rpm_range.1,
            }),
    {
        self.validate_range("rpm", rpm, self.config.rpm_range)
    }

    /// Checks coolant temperature (°C).
    pub fn validate_coolant_temp(&self, temp: i64) -> (r: Result<(), ValidationError>)
        ensures
            r is Ok <==> in_range(temp, self.spec_config().coolant_range),
            r is Err ==> r->Err_0 == (ValidationError::OutOfRange {
                field: "coolant_temp",
                value: temp,
                min: self.spec_config().coolant_range.0,
                max: self.spec_config().coolant_range.1,
            }),
    {
        self.validate_range("coolant_temp", temp, self.config.coolant_range)
    }

    /// Checks vehicle speed (km/h).
    pub fn validate_speed(&self, speed: i64) -> (r: Result<(), ValidationError>)
        ensures
            r is Ok <==> in_range(speed, self.spec_config().speed_range),
            r is Err ==> r->Err_0 == (ValidationError::OutOfRange {
                field: "speed",
                value: speed,
                min: self.spec_config().speed_range.0,
                max: self.spec_config().speed_range.1,
            }),
    {
        self.validate_range("speed", speed, self.config.speed_range)
    }

    /// Checks engine load (%).
    pub fn validate_engine_load(&self, load: i64) -> (r: Result<(), ValidationError>)
        ensures
            r is Ok <==> in_range(load, self.spec_config().load_range),
            r is Err ==> r->Err_0 == (ValidationError::OutOfRange {
                field: "engine_load",
                value: load,
                min: self.spec_config().load_range.0,
                max: self.spec_config().load_range.1,
            }),
    {
        self.validate_range("engine_load", load, self.config.load_range)
    }

    /// Checks mass air flow (hundredths of g/s).
    pub fn validate_maf(&self, maf: i64) -> (r: Result<(), ValidationError>)
        ensures
            r is Ok <==> in_range(maf, self.spec_config().maf_range),
            r is Err ==> r->Err_0 == (ValidationError::OutOfRange {
                field: "maf",
                value: maf,
                min: self.spec_config().maf_range.0,
                max: self.spec_config().maf_range.1,
            }),
    {
        self.validate_range("maf", maf, self.config.maf_range)
    }

    /// Compares the wrapping byte sum of `data` with `expected`.
    pub fn validate_checksum(&self, data: &[u8], expected: u8) -> (r: Result<(), ValidationError>)
        ensures
            byte_sum(data@) == expected ==> r is Ok,
            byte_sum(data@) != expected ==> r == Err::<(), ValidationError>(
                ValidationError::ChecksumMismatch { expected, actual: byte_sum(data@) },
            ),
    {
        let mut sum: u8 = 0;
        let mut i: usize = 0;
        while i < data.len()
            invariant
                i <= data@.len(),
                sum == byte_sum(data@.take(i as int)),
            decreases data.len() - i,
        {
            assert(data@.take(i + 1).drop_last() =~= data@.take(i as int));
            sum = sum.wrapping_add(data[i]);
            i = i + 1;
        }
        assert(data@.take(data@.len() as int) =~= data@);
        if sum != expected {
            Err(ValidationError::ChecksumMismatch { expected, actual: sum })
        } else {
            Ok(())
        }
    }

    /// Checks every reading of `frame`; the result lists, in field order
    /// (rpm, coolant, speed, load, air flow), one range error per rejected one.
    pub fn validate(&self, frame: &SensorFrame) -> (r: ValidationResult)
        ensures
            r.valid <==> out_of_range_fields(self.spec_config(), *frame).len() == 0,
            error_names(r.errors@) == out_of_range_fields(self.spec_config(), *frame),
            r.valid ==> r.fields_checked == 5,
            !r.valid ==> r.fields_checked == r.errors@.len(),
    {
        let mut errors: Vec<ValidationError> = Vec::new();
        let ghost mut expected: Seq<(Seq<char>, i64)> = Seq::empty();
        let r1 = self.validate_rpm(frame.rpm as i64);
        if let Err(e) = r1 {
            errors.push(e);
        }
        proof {
            expected = expected + check_field("rpm"@, frame.rpm as i64, self.config.rpm_range);
            assert(error_names(errors@) =~= expected);
        }
        let r2 = self.validate_coolant_temp(frame.coolant_temp as i64);
        if let Err(e) = r2 {
            errors.push(e);
        }
        proof {
            expected = expected + check_field(
                "coolant_temp"@,
                frame.coolant_temp as i64,
                self.config.coolant_range,
            );
            assert(error_names(errors@) =~= expected);
        }
        let r3 = self.validate_speed(frame.speed as i64);
        if let Err(e) = r3 {
            errors.push(e);
        }
        proof {
            expected = expected + check_field("speed"@, frame.speed as i64, self.config.speed_range);
            assert(error_names(errors@) =~= expected);
        }
        let r4 = self.validate_engine_load(frame.engine_load as i64);
        if let Err(e) = r4 {
            errors.push(e);
        }
        proof {
            expected = expected + check_field(
                "engine_load"@,
                frame.engine_load as i64,
                self.config.load_range,
            );
            assert(error_names(errors@) =~= expected);
        }
        let r5 = self.validate_maf(frame.maf as i64);
        if let Err(e) = r5 {
            errors.push(e);
        }
        proof {
            expected = expected + check_field("maf"@, frame.maf as i64, self.config.maf_range);
            assert(error_names(errors@) =~= expected);
            assert(expected =~= out_of_range_fields(self.config, *frame));
        }
        if errors.len() == 0 {
            ValidationResult::valid(5)
        } else {
            ValidationResult::invalid(errors)
        }
    }
}

impl Default for Validator {
    fn default() -> (r: Validator)
        ensures
            r.spec_config().rpm_range == (0i64, 8000i64),
            r.spec_config().coolant_range == (-40i64, 215i64),
            r.spec_config().speed_range == (0i64, 300i64),
            r.spec_config().load_range == (0i64, 100i64),
            r.spec_config().maf_range == (0i64, 65535i64),
    {
        Validator::new(ValidationConfig::default())
    }
}

} // verus!
