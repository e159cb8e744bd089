use vstd::prelude::*;

verus! {

/// Failures of road-scene analysis.
#[derive(Debug, Clone, PartialEq, Eq)]
pub enum AdasError {
    ModelLoad(String),
    Inference(String),
    InvalidFrame,
}

/// Road-scene settings.
#[derive(Debug, Clone, PartialEq, Eq)]
pub struct AdasConfig {
    /// Forward collision warning distance (cm).
    pub fcw_distance_cm: u32,
    pub lane_departure_enabled: bool,
    /// Least object detection confidence (basis points).
    pub object_confidence: u32,
    /// Least lane detection confidence (basis points).
    pub lane_confidence: u32,
    pub sign_detection_enabled: bool,
    pub lane_model_path: Option<String>,
    pub object_model_path: Option<String>,
    pub sign_model_path: Option<String>,
}

impl Default for AdasConfig {
    fn default() -> (r: AdasConfig)
        ensures
            r.fcw_distance_cm == 1000,
            r.lane_departure_enabled,
            r.object_confidence == 5000,
            r.lane_confidence == 7000,
            r.sign_detection_enabled,
            r.lane_model_path is None,
            r.object_model_path is None,
            r.sign_model_path is None,
    {
        AdasConfig {
            fcw_distance_cm: 1000,
            lane_departure_enabled: true,
            object_confidence: 5000,
            lane_confidence: 7000,
            sign_detection_enabled: true,
            lane_model_path: None,
            object_model_path: None,
            sign_model_path: None,
        }
    }
}

/// Recognised traffic signs.
#[derive(Debug, Clone, Copy, PartialEq, Eq, Structural)]
pub enum TrafficSign {
    /// Speed limit (km/h).
    SpeedLimit(u32),
    Stop,
    Yield,
    NoEntry,
    NoOvertaking,
    EndRestriction,
    Unknown,
}

/// Classes of detected road users.
#[derive(Debug, Clone, Copy, PartialEq, Eq, Structural)]
pub enum ObjectClass {
    Vehicle,
    Pedestrian,
    Cyclist,
    Motorcycle,
    Truck,
    Unknown,
}

/// Position of the vehicle in its lane.
#[derive(Debug, Clone, Copy, PartialEq, Eq, Structural)]
pub enum LanePosition {
    Center,
    Left,
    Right,
    Unknown,
}

/// A detected road user and its distance.
#[derive(Debug, Clone, Copy, PartialEq, Eq)]
pub struct DetectedObject {
    pub class: ObjectClass,
    /// Estimated distance (cm).
    pub distance_cm: u32,
}

/// Lane state of one road frame.
#[derive(Debug, Clone, Copy, PartialEq, Eq)]
pub struct LaneState {
    pub lanes_detected: bool,
    pub position: LanePosition,
    pub departing: bool,
    /// Whether a turn signal is on.
    pub signal_active: bool,
}

/// Warnings from the road scene.
#[derive(Debug, Clone, Copy, PartialEq, Eq, Structural)]
pub enum AdasAlert {
    /// Leaving the lane without signalling.
    LaneDeparture,
    /// A vehicle ahead closer than the warning distance.
    ForwardCollision { distance_cm: u32, object_type: ObjectClass },
    /// A speed-limit sign was recognised.
    SpeedLimitDetected { limit_kmh: u32 },
    /// A pedestrian in the path.
    PedestrianWarning { distance_cm: u32 },
    StopSignDetected,
    /// Following too closely.
    Tailgating { distance_cm: u32 },
}

/// The first vehicle of `objs` closer than `fcw_cm`.
pub open spec fn first_close_vehicle(objs: Seq<DetectedObject>, fcw_cm: u32) -> Option<DetectedObject>
    decreases objs.len(),
{
    if objs.len() == 0 {
        None
    } else if objs[0].class == ObjectClass::Vehicle && objs[0].distance_cm < fcw_cm {
        Some(objs[0])
    } else {
        first_close_vehicle(objs.drop_first(), fcw_cm)
    }
}

/// One speed-limit alert per speed-limit sign, in order.
pub open spec fn limit_alerts(signs: Seq<TrafficSign>) -> Seq<AdasAlert>
    decreases signs.len(),
{
    if signs.len() == 0 {
        Seq::empty()
    } else {
        match signs.last() {
            TrafficSign::SpeedLimit(l) => limit_alerts(signs.drop_last()).push(
                AdasAlert::SpeedLimitDetected { limit_kmh: l },
            ),
            _ => limit_alerts(signs.drop_last()),
        }
    }
}

/// The alerts of one road frame: an unsignalled lane departure, a forward
/// collision warning for the first vehicle within `fcw_distance_cm`, and the
/// recognised speed limits.
pub open spec fn expected_alerts(
    lane: LaneState,
    objs: Seq<DetectedObject>,
    signs: Seq<TrafficSign>,
    fcw_distance_cm: u32,
) -> Seq<AdasAlert> {
    (if lane.departing && !lane.signal_active {
        seq![AdasAlert::LaneDeparture]
    } else {
        Seq::empty()
    }) + (match first_close_vehicle(objs, fcw_distance_cm) {
        Some(o) => seq![AdasAlert::ForwardCollision { distance_cm: o.distance_cm, object_type: o.class }],
        None => Seq::empty(),
    }) + limit_alerts(signs)
}

/// Builds the alerts of one road frame.
pub fn scene_alerts(
    lane: &LaneState,
    objects: &Vec<DetectedObject>,
    signs: &Vec<TrafficSign>,
    fcw_distance_cm: u32,
) -> (r: Vec<AdasAlert>)
    ensures
        r@ == expected_alerts(*lane, objects@, signs@, fcw_distance_cm),
{
    let mut alerts: Vec<AdasAlert> = Vec::new();
    if lane.departing && !lane.signal_active {
        alerts.push(AdasAlert::LaneDeparture);
    }
    let ghost lane_part = alerts@;
    let mut i: usize = 0;
    let mut found = false;
    assert(objects@.skip(0) =~= objects@);
    while i < objects.len() && !found
        invariant
            i <= objects@.len(),
            !found ==> alerts@ == lane_part && first_close_vehicle(objects@, fcw_distance_cm)
                == first_close_vehicle(objects@.skip(i as int), fcw_distance_cm),
            found ==> match first_close_vehicle(objects@, fcw_distance_cm) {
                Some(o) => alerts@ == lane_part + seq![
                    AdasAlert::ForwardCollision { distance_cm: o.distance_cm, object_type: o.class },
                ],
                None => false,
            },
        decreases objects.len() - i + (if found { 0int } else { 1int }),
    {
        let o = objects[i];
        let ghost rest = objects@.skip(i as int);
        assert(rest[0] == o);
        assert(rest.drop_first() =~= objects@.skip(i + 1));
        if o.class == ObjectClass::Vehicle && o.distance_cm < fcw_distance_cm {
            alerts.push(AdasAlert::ForwardCollision { distance_cm: o.distance_cm, object_type: o.class });
            found = true;
        } else {
            i = i + 1;
        }
    }
    proof {
        if !found {
            assert(objects@.skip(i as int).len() == 0);
        }
    }
    let ghost mid = alerts@;
    let mut j: usize = 0;
    assert(signs@.take(0) =~= Seq::<TrafficSign>::empty());
    while j < signs.len()
        invariant
            j <= signs@.len(),
            alerts@ == mid + limit_alerts(signs@.take(j as int)),
        decreases signs.len() - j,
    {
        assert(signs@.take(j + 1).drop_last() =~= signs@.take(j as int));
        if let TrafficSign::SpeedLimit(limit) = signs[j] {
            alerts.push(AdasAlert::SpeedLimitDetected { limit_kmh: limit });
        }
        j = j + 1;
        assert(alerts@ =~= mid + limit_alerts(signs@.take(j as int)));
    }
    assert(signs@.take(signs@.len() as int) =~= signs@);
    assert(alerts@ =~= expected_alerts(*lane, objects@, signs@, fcw_distance_cm));
    alerts
}

pub open spec fn is_critical(a: AdasAlert) -> bool {
    a is ForwardCollision || a is PedestrianWarning
}

/// What road-scene analysis found in one frame.
#[derive(Debug, Clone)]
pub struct AdasAnalysis {
    pub lane_state: LaneState,
    pub objects: Vec<DetectedObject>,
    pub signs: Vec<TrafficSign>,
    pub alerts: Vec<AdasAlert>,
}

impl AdasAnalysis {
    /// Whether a forward-collision or pedestrian warning is active.
    pub fn has_critical_alerts(&self) -> (r: bool)
        ensures
            r == exists|i: int| 0 <= i < self.alerts@.len() && is_critical(#[trigger] self.alerts@[i]),
    {
        let mut i: usize = 0;
        while i < self.alerts.len()
            invariant
                i <= self.alerts@.len(),
                forall|j: int| 0 <= j < i ==> !is_critical(#[trigger] self.alerts@[j]),
            decreases self.alerts.len() - i,
        {
            match self.alerts[i] {
                AdasAlert::ForwardCollision { .. } | AdasAlert::PedestrianWarning { .. } => {
                    return true;
                },
                _ => {},
            }
            i = i + 1;
        }
        false
    }
}

} // verus!
