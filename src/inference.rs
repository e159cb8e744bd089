use vstd::prelude::*;

verus! {

/// Fault classes the classifier reports.
#[derive(Debug, Clone, Copy, PartialEq, Eq, Structural)]
pub enum FaultType {
    NoFault,
    Overheating,
    O2SensorDegradation,
    Misfire,
}

impl FaultType {
    /// Stable name of the fault.
    pub fn as_str(&self) -> (r: &'static str)
        ensures
            r@ == (match *self {
                FaultType::NoFault => "none"@,
                FaultType::Overheating => "engine_overheating"@,
                FaultType::O2SensorDegradation => "o2_sensor_degradation"@,
                FaultType::Misfire => "engine_misfire"@,
            }),
    {
        match self {
            FaultType::NoFault => "none",
            FaultType::Overheating => "engine_overheating",
            FaultType::O2SensorDegradation => "o2_sensor_degradation",
            FaultType::Misfire => "engine_misfire",
        }
    }

    /// What the driver or a mechanic should do about the fault.
    pub fn recommended_action(&self) -> (r: &'static str)
        ensures
            r@ == (match *self {
                FaultType::NoFault => "No action required"@,
                FaultType::Overheating => "Check coolant level, reduce engine load, allow engine to cool"@,
                FaultType::O2SensorDegradation => "Schedule O2 sensor inspection, check fuel efficiency"@,
                FaultType::Misfire => "Check spark plugs, fuel injectors, and ignition system"@,
            }),
    {
        match self {
            FaultType::NoFault => "No action required",
            FaultType::Overheating => "Check coolant level, reduce engine load, allow engine to cool",
            FaultType::O2SensorDegradation => "Schedule O2 sensor inspection, check fuel efficiency",
            FaultType::Misfire => "Check spark plugs, fuel injectors, and ignition system",
        }
    }
}

/// Failures of the classifier.
#[derive(Debug, Clone, PartialEq, Eq)]
pub enum InferenceError {
    ModelLoadError(String),
    InferenceFailed(String),
    InvalidInputShape { expected: String, actual: String },
    Timeout(u64),
}

/// The classifier's model and whether it is ready.
pub struct InferenceEngine {
    model_path: String,
    loaded: bool,
    mock_mode: bool,
}

impl InferenceEngine {
    pub closed spec fn spec_model_path(&self) -> Seq<char> {
        self.model_path@
    }

    pub closed spec fn spec_loaded(&self) -> bool {
        self.loaded
    }

    pub closed spec fn spec_mock(&self) -> bool {
        self.mock_mode
    }

    /// An engine for the model at `model_path`, not loaded yet; it runs on the
    /// rule-based fallback until a model exists.
    pub fn new(model_path: &str) -> (r: Result<InferenceEngine, InferenceError>)
        ensures
            r is Ok,
            r->Ok_0.spec_model_path() == model_path@,
            !r->Ok_0.spec_loaded(),
            r->Ok_0.spec_mock(),
    {
        Ok(InferenceEngine { model_path: model_path.to_owned(), loaded: false, mock_mode: true })
    }

    /// A loaded engine on the rule-based fallback.
    pub fn mock() -> (r: InferenceEngine)
        ensures
            r.spec_model_path() == "mock"@,
            r.spec_loaded(),
            r.spec_mock(),
    {
        InferenceEngine { model_path: "mock".to_owned(), loaded: true, mock_mode: true }
    }

    /// Makes the engine ready.
    pub fn load(&mut self) -> (r: Result<(), InferenceError>)
        ensures
            r is Ok,
            final(self).spec_loaded(),
            final(self).spec_model_path() == old(self).spec_model_path(),
            final(self).spec_mock() == old(self).spec_mock(),
    {
        self.loaded = true;
        Ok(())
    }

    /// Whether the engine is ready.
    pub fn is_loaded(&self) -> (r: bool)
        ensures
            r == self.spec_loaded(),
    {
        self.loaded
    }

    /// Path of the model.
    pub fn model_path(&self) -> (r: &str)
        ensures
            r@ == self.spec_model_path(),
    {
        self.model_path.as_str()
    }

    /// Whether predictions come from the rule-based fallback.
    pub fn is_mock(&self) -> (r: bool)
        ensures
            r == self.spec_mock(),
    {
        self.mock_mode
    }
}

} // verus!
