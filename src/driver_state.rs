use vstd::prelude::*;

verus! {

/// Ordinal drowsiness of the driver.
#[derive(Debug, Clone, Copy, PartialEq, Eq, Structural)]
pub enum DrowsinessLevel {
    Normal,
    Mild,
    Moderate,
    High,
}

impl Default for DrowsinessLevel {
    fn default() -> (r: DrowsinessLevel)
        ensures
            r == DrowsinessLevel::Normal,
    {
        DrowsinessLevel::Normal
    }
}

/// What is taking the driver's attention.
#[derive(Debug, Clone, Copy, PartialEq, Eq, Structural)]
pub enum DistractionType {
    LookingAway,
    PhoneUse,
    Eating,
    Smoking,
    Unknown,
}

/// Alerts raised by driver monitoring.
#[derive(Debug, Clone, Copy, PartialEq, Eq, Structural)]
pub enum DmsAlert {
    Drowsiness,
    Distraction,
    HeadDown,
    FaceNotVisible,
    FrequentYawning,
    HighPerclos,
}

/// The most severe of `alerts`: drowsiness, then distraction, then head
/// down, else the first one.
pub open spec fn highest_alert(alerts: Seq<DmsAlert>) -> Option<DmsAlert> {
    if alerts.contains(DmsAlert::Drowsiness) {
        Some(DmsAlert::Drowsiness)
    } else if alerts.contains(DmsAlert::Distraction) {
        Some(DmsAlert::Distraction)
    } else if alerts.contains(DmsAlert::HeadDown) {
        Some(DmsAlert::HeadDown)
    } else if alerts.len() > 0 {
        Some(alerts[0])
    } else {
        None
    }
}

fn contains_alert(alerts: &Vec<DmsAlert>, a: DmsAlert) -> (r: bool)
    ensures
        r == alerts@.contains(a),
{
    let mut i: usize = 0;
    while i < alerts.len()
        invariant
            i <= alerts@.len(),
            forall|j: int| 0 <= j < i ==> alerts@[j] != a,
        decreases alerts.len() - i,
    {
        if alerts[i] == a {
            return true;
        }
        i = i + 1;
    }
    false
}

/// What driver monitoring found in one cabin frame.
#[derive(Debug, Clone)]
pub struct DmsAnalysis {
    /// Whether a face was found.
    pub face_detected: bool,
    /// Current drowsiness.
    pub drowsiness_level: DrowsinessLevel,
    /// Current distraction, if any.
    pub distraction_type: Option<DistractionType>,
    /// Active alerts.
    pub alerts: Vec<DmsAlert>,
}

impl DmsAnalysis {
    /// Whether any alert is active.
    pub fn has_alerts(&self) -> (r: bool)
        ensures
            r == (self.alerts@.len() > 0),
    {
        self.alerts.len() > 0
    }

    /// The most severe active alert.
    pub fn highest_severity_alert(&self) -> (r: Option<DmsAlert>)
        ensures
            r == highest_alert(self.alerts@),
    {
        if contains_alert(&self.alerts, DmsAlert::Drowsiness) {
            Some(DmsAlert::Drowsiness)
        } else if contains_alert(&self.alerts, DmsAlert::Distraction) {
            Some(DmsAlert::Distraction)
        } else if contains_alert(&self.alerts, DmsAlert::HeadDown) {
            Some(DmsAlert::HeadDown)
        } else if self.alerts.len() > 0 {
            Some(self.alerts[0])
        } else {
            None
        }
    }
}

/// Driver-monitoring thresholds.
#[derive(Debug, Clone, PartialEq, Eq)]
pub struct DmsConfig {
    /// Eyes closed this long (ms) raise a drowsiness alert.
    pub drowsiness_threshold_ms: u64,
    /// Gaze away this long (ms) raises a distraction alert.
    pub distraction_threshold_ms: u64,
    /// Head turn (degrees from centre) beyond which the driver looks away.
    pub gaze_threshold_degrees: u32,
    /// Least face detection confidence (basis points).
    pub face_confidence: u32,
    /// Least eye detection confidence (basis points).
    pub eye_confidence: u32,
    pub enable_pose: bool,
    pub face_model_path: Option<String>,
    pub eye_model_path: Option<String>,
    pub pose_model_path: Option<String>,
}

impl DmsConfig {
    /// Lower thresholds: 1 s eyes closed, 2 s looking away, 20 degrees.
    pub fn strict() -> (r: DmsConfig)
        ensures
            r.drowsiness_threshold_ms == 1000,
            r.distraction_threshold_ms == 2000,
            r.gaze_threshold_degrees == 20,
            r.face_confidence == 7000,
            r.eye_confidence == 6000,
            r.enable_pose,
    {
        DmsConfig {
            drowsiness_threshold_ms: 1000,
            distraction_threshold_ms: 2000,
            gaze_threshold_degrees: 20,
            ..DmsConfig::default()
        }
    }

    /// Higher thresholds: 2.5 s eyes closed, 5 s looking away, 45 degrees.
    pub fn lenient() -> (r: DmsConfig)
        ensures
            r.drowsiness_threshold_ms == 2500,
            r.distraction_threshold_ms == 5000,
            r.gaze_threshold_degrees == 45,
            r.face_confidence == 7000,
            r.eye_confidence == 6000,
            r.enable_pose,
    {
        DmsConfig {
            drowsiness_threshold_ms: 2500,
            distraction_threshold_ms: 5000,
            gaze_threshold_degrees: 45,
            ..DmsConfig::default()
        }
    }
}

impl Default for DmsConfig {
    fn default() -> (r: DmsConfig)
        ensures
            r.drowsiness_threshold_ms == 1500,
            r.distraction_threshold_ms == 3000,
            r.gaze_threshold_degrees == 30,
            r.face_confidence == 7000,
            r.eye_confidence == 6000,
            r.enable_pose,
            r.face_model_path is None,
            r.eye_model_path is None,
            r.pose_model_path is None,
    {
        DmsConfig {
            drowsiness_threshold_ms: 1500,
            distraction_threshold_ms: 3000,
            gaze_threshold_degrees: 30,
            face_confidence: 7000,
            eye_confidence: 6000,
            enable_pose: true,
            face_model_path: None,
            eye_model_path: None,
            pose_model_path: None,
        }
    }
}

/// Time one cabin frame stands for (ms), at about 30 frames per second.
pub const FRAME_MS: u64 = 33;

/// Consecutive frames without a face after which the face counts as not visible.
pub const FACE_ABSENT_FRAMES: u32 = 30;

pub open spec fn plus_sat_u64(a: u64, b: u64) -> u64 {
    if a + b > u64::MAX {
        u64::MAX
    } else {
        (a + b) as u64
    }
}

/// Driver state tracked across cabin frames.
#[derive(Debug, Clone, Copy, PartialEq, Eq)]
pub struct DriverState {
    /// Consecutive frames without a face.
    pub face_absent_frames: u32,
    /// How long both eyes have been closed (ms).
    pub eyes_closed_ms: u64,
    /// How long the driver has looked away (ms).
    pub distraction_ms: u64,
    pub drowsiness_level: DrowsinessLevel,
    pub distraction: Option<DistractionType>,
    /// Yawns in the last ten minutes.
    pub yawn_count: u32,
}

impl DriverState {
    /// The state of a driver not seen yet.
    pub fn new() -> (r: DriverState)
        ensures
            r == (DriverState {
                face_absent_frames: 0,
                eyes_closed_ms: 0,
                distraction_ms: 0,
                drowsiness_level: DrowsinessLevel::Normal,
                distraction: None,
                yawn_count: 0,
            }),
    {
        DriverState {
            face_absent_frames: 0,
            eyes_closed_ms: 0,
            distraction_ms: 0,
            drowsiness_level: DrowsinessLevel::Normal,
            distraction: None,
            yawn_count: 0,
        }
    }

    /// A frame without a face: counts it, and reports the face not visible
    /// once more than `FACE_ABSENT_FRAMES` frames in a row had none.
    pub fn face_missing(&mut self) -> (r: Vec<DmsAlert>)
        ensures
            final(self).face_absent_frames == if old(self).face_absent_frames == u32::MAX {
                u32::MAX
            } else {
                (old(self).face_absent_frames + 1) as u32
            },
            final(self).eyes_closed_ms == old(self).eyes_closed_ms,
            final(self).distraction_ms == old(self).distraction_ms,
            final(self).drowsiness_level == old(self).drowsiness_level,
            final(self).distraction == old(self).distraction,
            final(self).yawn_count == old(self).yawn_count,
            r@ == if final(self).face_absent_frames > FACE_ABSENT_FRAMES {
                seq![DmsAlert::FaceNotVisible]
            } else {
                Seq::<DmsAlert>::empty()
            },
    {
        self.face_absent_frames = self.face_absent_frames.saturating_add(1);
        let mut alerts: Vec<DmsAlert> = Vec::new();
        if self.face_absent_frames > FACE_ABSENT_FRAMES {
            alerts.push(DmsAlert::FaceNotVisible);
        }
        assert(alerts@ =~= if self.face_absent_frames > FACE_ABSENT_FRAMES {
            seq![DmsAlert::FaceNotVisible]
        } else {
            Seq::<DmsAlert>::empty()
        });
        alerts
    }

    /// A frame with a face. Closed eyes and a gaze away accumulate time, which
    /// an open-eyed or forward-looking frame resets; past its threshold each
    /// raises its alert (drowsiness sets the level to high, distraction to
    /// looking away). A lowered head raises its alert at once.
    pub fn update_state(
        &mut self,
        eyes_closed: bool,
        looking_forward: bool,
        head_down: bool,
        drowsiness_threshold_ms: u64,
        distraction_threshold_ms: u64,
    ) -> (r: Vec<DmsAlert>)
        ensures
            final(self).face_absent_frames == 0,
            final(self).yawn_count == old(self).yawn_count,
            final(self).eyes_closed_ms == if eyes_closed {
                plus_sat_u64(old(self).eyes_closed_ms, FRAME_MS)
            } else {
                0
            },
            final(self).drowsiness_level == if !eyes_closed {
                DrowsinessLevel::Normal
            } else if final(self).eyes_closed_ms > drowsiness_threshold_ms {
                DrowsinessLevel::High
            } else {
                old(self).drowsiness_level
            },
            final(self).distraction_ms == if !looking_forward {
                plus_sat_u64(old(self).distraction_ms, FRAME_MS)
            } else {
                0
            },
            final(self).distraction == if looking_forward {
                None
            } else if final(self).distraction_ms > distraction_threshold_ms {
                Some(DistractionType::LookingAway)
            } else {
                old(self).distraction
            },
            r@ == (if eyes_closed && final(self).eyes_closed_ms > drowsiness_threshold_ms {
                seq![DmsAlert::Drowsiness]
            } else {
                Seq::<DmsAlert>::empty()
            }) + (if !looking_forward && final(self).distraction_ms > distraction_threshold_ms {
                seq![DmsAlert::Distraction]
            } else {
                Seq::<DmsAlert>::empty()
            }) + (if head_down {
                seq![DmsAlert::HeadDown]
            } else {
                Seq::<DmsAlert>::empty()
            }),
    {
        self.face_absent_frames = 0;
        let mut alerts: Vec<DmsAlert> = Vec::new();
        if eyes_closed {
            self.eyes_closed_ms = self.eyes_closed_ms.saturating_add(FRAME_MS);
            if self.eyes_closed_ms > drowsiness_threshold_ms {
                self.drowsiness_level = DrowsinessLevel::High;
                alerts.push(DmsAlert::Drowsiness);
            }
        } else {
            self.eyes_closed_ms = 0;
            self.drowsiness_level = DrowsinessLevel::Normal;
        }
        let ghost first = alerts@;
        if !looking_forward {
            self.distraction_ms = self.distraction_ms.saturating_add(FRAME_MS);
            if self.distraction_ms > distraction_threshold_ms {
                self.distraction = Some(DistractionType::LookingAway);
                alerts.push(DmsAlert::Distraction);
            }
        } else {
            self.distraction_ms = 0;
            self.distraction = None;
        }
        let ghost second = alerts@;
        if head_down {
            alerts.push(DmsAlert::HeadDown);
        }
        proof {
            let a = if eyes_closed && self.eyes_closed_ms > drowsiness_threshold_ms {
                seq![DmsAlert::Drowsiness]
            } else {
                Seq::<DmsAlert>::empty()
            };
            let b = if !looking_forward && self.distraction_ms > distraction_threshold_ms {
                seq![DmsAlert::Distraction]
            } else {
                Seq::<DmsAlert>::empty()
            };
            let c = if head_down {
                seq![DmsAlert::HeadDown]
            } else {
                Seq::<DmsAlert>::empty()
            };
            assert(first =~= a);
            assert(second =~= a + b);
            assert(alerts@ =~= a + b + c);
        }
        alerts
    }

    /// Forgets everything about the driver (on a change of driver).
    pub fn reset_state(&mut self)
        ensures
            *final(self) == (DriverState {
                face_absent_frames: 0,
                eyes_closed_ms: 0,
                distraction_ms: 0,
                drowsiness_level: DrowsinessLevel::Normal,
                distraction: None,
                yawn_count: 0,
            }),
    {
        *self = DriverState::new();
    }
}

} // verus!
