use vstd::prelude::*;
use std::collections::VecDeque;
use crate::driver_state::{DrowsinessLevel, DistractionType};

verus! {

/// Ordinal severity of a fused event.
#[derive(Debug, Clone, Copy, PartialEq, Eq, Structural, PartialOrd, Ord, Hash)]
pub enum Severity {
    Low,
    Medium,
    High,
    Critical,
}

/// An incident correlated from several sources.
#[derive(Debug, Clone, Copy, PartialEq, Eq, Structural)]
pub enum FusedEvent {
    /// Nothing notable.
    Normal,
    /// Strong deceleration while the brake pedal is pressed hard.
    HardBraking { severity: Severity, decel_mg: u32, speed_before_kmh: u32 },
    /// Braking in answer to a forward collision warning.
    EmergencyBraking { severity: Severity, object_distance_cm: u32, reaction_time_ms: u64 },
    /// A drowsy driver leaving the lane.
    DrowsinessLaneDeparture { severity: Severity, eyes_closed_ms: u64 },
    /// Acceleration beyond the crash threshold.
    Crash { severity: Severity, g_force_mg: u32, airbag_deployed: bool },
    /// Distraction that lasted.
    SustainedDistraction { severity: Severity, duration_ms: u64 },
    /// Speed above the recognised limit by more than the margin.
    Speeding { current_kmh: u32, limit_kmh: u32 },
}

/// Diagnostics reading as used by fusion.
#[derive(Debug, Clone, Copy, PartialEq, Eq)]
pub struct ObdFrame {
    pub timestamp_ns: u64,
    pub rpm: u16,
    pub speed_kmh: u8,
    /// Brake pedal position (%).
    pub brake_pedal: u8,
    /// Throttle position (%).
    pub throttle: u8,
}

/// Inertial reading as used by fusion, in thousandths of g.
#[derive(Debug, Clone, Copy, PartialEq, Eq)]
pub struct InertialSample {
    pub timestamp_ns: u64,
    /// Longitudinal acceleration (mg).
    pub accel_x_mg: i32,
    /// Magnitude of the acceleration vector (mg).
    pub g_force_mg: u32,
}

/// Driver-state analysis as used by fusion.
#[derive(Debug, Clone, Copy, PartialEq, Eq)]
pub struct DriverStateSample {
    pub timestamp_ns: u64,
    pub drowsiness_level: DrowsinessLevel,
    pub distraction: Option<DistractionType>,
}

/// Road-scene analysis as used by fusion.
#[derive(Debug, Clone, Copy, PartialEq, Eq)]
pub struct RoadSceneSample {
    pub timestamp_ns: u64,
    /// Whether the vehicle is leaving its lane.
    pub lane_departing: bool,
    /// Limit of the last recognised speed-limit sign (km/h).
    pub speed_limit_kmh: Option<u32>,
}

/// A window of the most recent items, bounded by count.
pub struct SlidingWindow<T> {
    data: VecDeque<T>,
    capacity: usize,
}

impl<T> SlidingWindow<T> {
    /// The items held, oldest first.
    pub closed spec fn view(&self) -> Seq<T> {
        self.data@
    }

    pub closed spec fn spec_capacity(&self) -> nat {
        self.capacity as nat
    }

    pub open spec fn wf(&self) -> bool {
        self.view().len() <= self.spec_capacity()
    }

    /// An empty window of at most `capacity` items.
    pub fn new(capacity: usize) -> (r: SlidingWindow<T>)
        ensures
            r.wf(),
            r.view() == Seq::<T>::empty(),
            r.spec_capacity() == capacity,
    {
        SlidingWindow { data: VecDeque::new(), capacity }
    }

    /// Appends `item`, first dropping the oldest item when the window is full.
    pub fn push(&mut self, item: T)
        requires
            old(self).wf(),
            old(self).spec_capacity() > 0,
        ensures
            final(self).wf(),
            final(self).spec_capacity() == old(self).spec_capacity(),
            final(self).view() == if old(self).view().len() >= old(self).spec_capacity() {
                old(self).view().drop_first().push(item)
            } else {
                old(self).view().push(item)
            },
    {
        if self.data.len() >= self.capacity {
            let _ = self.data.pop_front();
        }
        self.data.push_back(item);
    }

    /// Takes out the oldest item, if any.
    pub fn pop_front(&mut self) -> (r: Option<T>)
        requires
            old(self).wf(),
        ensures
            final(self).wf(),
            final(self).spec_capacity() == old(self).spec_capacity(),
            old(self).view().len() == 0 ==> r is None && final(self).view() == old(self).view(),
            old(self).view().len() > 0 ==> r == Some(old(self).view()[0]) && final(self).view()
                == old(self).view().drop_first(),
    {
        self.data.pop_front()
    }

    /// The newest item, if any.
    pub fn back(&self) -> (r: Option<&T>)
        ensures
            r == if self.view().len() == 0 {
                None
            } else {
                Some(&self.view().last())
            },
    {
        let n = self.data.len();
        if n == 0 {
            None
        } else {
            Some(&self.data[n - 1])
        }
    }

    /// The item at position `i`, oldest first.
    pub fn get(&self, i: usize) -> (r: &T)
        requires
            i < self.view().len(),
        ensures
            *r == self.view()[i as int],
    {
        &self.data[i]
    }

    /// Number of items held.
    pub fn len(&self) -> (r: usize)
        ensures
            r == self.view().len(),
    {
        self.data.len()
    }
}

/// Thresholds of the incident predicates.
#[derive(Debug, Clone, Copy, PartialEq, Eq)]
pub struct FusionConfig {
    /// Longitudinal deceleration (mg) above which braking is hard.
    pub hard_brake_mg: u32,
    /// Acceleration magnitude (mg) above which a crash is reported.
    pub crash_mg: u32,
    /// Margin over the speed limit (km/h) above which speeding is reported.
    pub speeding_threshold_kmh: u32,
    /// Continuous distraction (ms) from which it is reported.
    pub distraction_threshold_ms: u64,
}

impl Default for FusionConfig {
    fn default() -> (r: FusionConfig)
        ensures
            r.hard_brake_mg == 400,
            r.crash_mg == 3000,
            r.speeding_threshold_kmh == 10,
            r.distraction_threshold_ms == 3000,
    {
        FusionConfig {
            hard_brake_mg: 400,
            crash_mg: 3000,
            speeding_threshold_kmh: 10,
            distraction_threshold_ms: 3000,
        }
    }
}

/// Brake pedal position (%) above which braking counts as hard.
pub const HARD_BRAKE_PEDAL: u8 = 80;

/// Oldest diagnostics reading (ns) a predicate may use.
pub const OBD_STALENESS_NS: u64 = 500_000_000;

/// Oldest driver-state analysis (ns) a predicate may use.
pub const DMS_STALENESS_NS: u64 = 300_000_000;

/// Oldest road-scene analysis (ns) a predicate may use.
pub const ADAS_STALENESS_NS: u64 = 600_000_000;

/// Oldest inertial reading (ns) a predicate may use.
pub const IMU_STALENESS_NS: u64 = 50_000_000;

/// Quiet time (ns) after which a `Normal` heartbeat is reported.
pub const HEARTBEAT_NS: u64 = 60_000_000_000;

/// Whether a heartbeat is due at `now` after the last report at `last`.
pub open spec fn heartbeat_due(last: Option<u64>, now: u64) -> bool {
    match last {
        Some(t) => now >= t + HEARTBEAT_NS,
        None => true,
    }
}

/// Whether a sample stamped `ts` is at most `budget` old at `now`.
pub open spec fn is_fresh(ts: u64, now: u64, budget: u64) -> bool {
    now <= ts + budget
}

/// The newest item of `s` when it is at most `budget` old at `now`.
pub open spec fn fresh_latest<T>(s: Seq<T>, ts: spec_fn(T) -> u64, now: u64, budget: u64) -> Option<T> {
    if s.len() > 0 && is_fresh(ts(s.last()), now, budget) {
        Some(s.last())
    } else {
        None
    }
}

pub open spec fn abs_mg(a: i32) -> int {
    if a < 0 {
        -(a as int)
    } else {
        a as int
    }
}

pub open spec fn drowsy(level: DrowsinessLevel) -> bool {
    level == DrowsinessLevel::Moderate || level == DrowsinessLevel::High
}

/// Stamp of the oldest sample of the run of distracted samples that ends
/// with the newest one; `None` when the newest is not distracted.
pub open spec fn distraction_start(s: Seq<DriverStateSample>) -> Option<u64>
    decreases s.len(),
{
    if s.len() == 0 || s.last().distraction is None {
        None
    } else {
        match distraction_start(s.drop_last()) {
            Some(t) => Some(t),
            None => Some(s.last().timestamp_ns),
        }
    }
}

/// Length (ms) of the distraction run ending with `latest`, begun at `start`.
pub open spec fn run_ms(latest: DriverStateSample, start: u64) -> int {
    if latest.timestamp_ns >= start {
        (latest.timestamp_ns - start) / 1_000_000
    } else {
        0
    }
}

/// Severity of a sustained distraction: high from twice the threshold on.
pub open spec fn distraction_severity(duration_ms: int, threshold_ms: u64) -> Severity {
    if duration_ms >= 2 * threshold_ms {
        Severity::High
    } else {
        Severity::Medium
    }
}

/// The event of one fusion tick: the first predicate that holds, in order
/// crash, hard braking, drowsiness with lane departure, sustained
/// distraction, speeding; each on fresh samples only. `distracted_since` is
/// the start of the distraction run that ends with `dms`.
pub open spec fn fused_event(
    config: FusionConfig,
    imu: Option<InertialSample>,
    obd: Option<ObdFrame>,
    dms: Option<DriverStateSample>,
    adas: Option<RoadSceneSample>,
    distracted_since: Option<u64>,
) -> Option<FusedEvent> {
    if imu is Some && imu.unwrap().g_force_mg > config.crash_mg {
        Some(
            FusedEvent::Crash {
                severity: Severity::Critical,
                g_force_mg: imu.unwrap().g_force_mg,
                airbag_deployed: false,
            },
        )
    } else if imu is Some && abs_mg(imu.unwrap().accel_x_mg) > config.hard_brake_mg && obd is Some
        && obd.unwrap().brake_pedal > HARD_BRAKE_PEDAL {
        Some(
            FusedEvent::HardBraking {
                severity: Severity::Medium,
                decel_mg: abs_mg(imu.unwrap().accel_x_mg) as u32,
                speed_before_kmh: obd.unwrap().speed_kmh as u32,
            },
        )
    } else if dms is Some && adas is Some && drowsy(dms.unwrap().drowsiness_level)
        && adas.unwrap().lane_departing {
        Some(FusedEvent::DrowsinessLaneDeparture { severity: Severity::High, eyes_closed_ms: 0 })
    } else if dms is Some && distracted_since is Some && run_ms(
        dms.unwrap(),
        distracted_since.unwrap(),
    ) >= config.distraction_threshold_ms {
        Some(
            FusedEvent::SustainedDistraction {
                severity: distraction_severity(
                    run_ms(dms.unwrap(), distracted_since.unwrap()),
                    config.distraction_threshold_ms,
                ),
                duration_ms: run_ms(dms.unwrap(), distracted_since.unwrap()) as u64,
            },
        )
    } else if obd is Some && adas is Some && adas.unwrap().speed_limit_kmh is Some
        && obd.unwrap().speed_kmh > adas.unwrap().speed_limit_kmh.unwrap()
        + config.speeding_threshold_kmh {
        Some(
            FusedEvent::Speeding {
                current_kmh: obd.unwrap().speed_kmh as u32,
                limit_kmh: adas.unwrap().speed_limit_kmh.unwrap(),
            },
        )
    } else {
        None
    }
}

/// Per-source windows and the incident predicates over them.
pub struct EventFusion {
    obd_window: SlidingWindow<ObdFrame>,
    dms_window: SlidingWindow<DriverStateSample>,
    adas_window: SlidingWindow<RoadSceneSample>,
    imu_window: SlidingWindow<InertialSample>,
    config: FusionConfig,
    driver_id: Option<String>,
    last_event_ns: Option<u64>,
}

pub open spec fn obd_ts(f: ObdFrame) -> u64 {
    f.timestamp_ns
}

pub open spec fn dms_ts(f: DriverStateSample) -> u64 {
    f.timestamp_ns
}

pub open spec fn adas_ts(f: RoadSceneSample) -> u64 {
    f.timestamp_ns
}

pub open spec fn imu_ts(f: InertialSample) -> u64 {
    f.timestamp_ns
}

impl EventFusion {
    pub closed spec fn obd(&self) -> Seq<ObdFrame> {
        self.obd_window.view()
    }

    pub closed spec fn dms(&self) -> Seq<DriverStateSample> {
        self.dms_window.view()
    }

    pub closed spec fn adas(&self) -> Seq<RoadSceneSample> {
        self.adas_window.view()
    }

    pub closed spec fn imu(&self) -> Seq<InertialSample> {
        self.imu_window.view()
    }

    pub closed spec fn spec_config(&self) -> FusionConfig {
        self.config
    }

    /// Instant of the last event reported by `tick`.
    pub closed spec fn spec_last_event(&self) -> Option<u64> {
        self.last_event_ns
    }

    pub closed spec fn spec_driver(&self) -> Option<Seq<char>> {
        match self.driver_id {
            Some(d) => Some(d@),
            None => None,
        }
    }

    /// Each window has its bound (300, 150, 60 and 1000 items).
    pub closed spec fn wf(&self) -> bool {
        &&& self.obd_window.wf() && self.obd_window.spec_capacity() == 300
        &&& self.dms_window.wf() && self.dms_window.spec_capacity() == 150
        &&& self.adas_window.wf() && self.adas_window.spec_capacity() == 60
        &&& self.imu_window.wf() && self.imu_window.spec_capacity() == 1000
    }

    /// The event `fuse` reports at `now`.
    pub open spec fn event_at(&self, now: u64) -> Option<FusedEvent> {
        fused_event(
            self.spec_config(),
            fresh_latest(self.imu(), |s: InertialSample| imu_ts(s), now, IMU_STALENESS_NS),
            fresh_latest(self.obd(), |s: ObdFrame| obd_ts(s), now, OBD_STALENESS_NS),
            fresh_latest(self.dms(), |s: DriverStateSample| dms_ts(s), now, DMS_STALENESS_NS),
            fresh_latest(self.adas(), |s: RoadSceneSample| adas_ts(s), now, ADAS_STALENESS_NS),
            distraction_start(self.dms()),
        )
    }

    /// Empty windows of 300 diagnostics readings, 150 driver-state and 60
    /// road-scene analyses and 1000 inertial readings; no driver set.
    pub fn new(config: FusionConfig) -> (r: EventFusion)
        ensures
            r.wf(),
            r.spec_config() == config,
            r.obd().len() == 0,
            r.dms().len() == 0,
            r.adas().len() == 0,
            r.imu().len() == 0,
            r.spec_driver() is None,
            r.spec_last_event() is None,
    {
        EventFusion {
            obd_window: SlidingWindow::new(300),
            dms_window: SlidingWindow::new(150),
            adas_window: SlidingWindow::new(60),
            imu_window: SlidingWindow::new(1000),
            config,
            driver_id: None,
            last_event_ns: None,
        }
    }

    /// Adds a diagnostics reading.
    pub fn add_obd(&mut self, frame: ObdFrame)
        requires
            old(self).wf(),
        ensures
            final(self).wf(),
            final(self).obd() == if old(self).obd().len() >= 300 {
                old(self).obd().drop_first().push(frame)
            } else {
                old(self).obd().push(frame)
            },
            final(self).dms() == old(self).dms(),
            final(self).adas() == old(self).adas(),
            final(self).imu() == old(self).imu(),
            final(self).spec_config() == old(self).spec_config(),
            final(self).spec_last_event() == old(self).spec_last_event(),
            final(self).spec_driver() == old(self).spec_driver(),
    {
        self.obd_window.push(frame);
    }

    /// Adds a driver-state analysis.
    pub fn add_dms(&mut self, analysis: DriverStateSample)
        requires
            old(self).wf(),
        ensures
            final(self).wf(),
            final(self).dms() == if old(self).dms().len() >= 150 {
                old(self).dms().drop_first().push(analysis)
            } else {
                old(self).dms().push(analysis)
            },
            final(self).obd() == old(self).obd(),
            final(self).adas() == old(self).adas(),
            final(self).imu() == old(self).imu(),
            final(self).spec_config() == old(self).spec_config(),
            final(self).spec_last_event() == old(self).spec_last_event(),
            final(self).spec_driver() == old(self).spec_driver(),
    {
        self.dms_window.push(analysis);
    }

    /// Adds a road-scene analysis.
    pub fn add_adas(&mut self, analysis: RoadSceneSample)
        requires
            old(self).wf(),
        ensures
            final(self).wf(),
            final(self).adas() == if old(self).adas().len() >= 60 {
                old(self).adas().drop_first().push(analysis)
            } else {
                old(self).adas().push(analysis)
            },
            final(self).obd() == old(self).obd(),
            final(self).dms() == old(self).dms(),
            final(self).imu() == old(self).imu(),
            final(self).spec_config() == old(self).spec_config(),
            final(self).spec_last_event() == old(self).spec_last_event(),
            final(self).spec_driver() == old(self).spec_driver(),
    {
        self.adas_window.push(analysis);
    }

    /// Adds an inertial reading.
    pub fn add_imu(&mut self, data: InertialSample)
        requires
            old(self).wf(),
        ensures
            final(self).wf(),
            final(self).imu() == if old(self).imu().len() >= 1000 {
                old(self).imu().drop_first().push(data)
            } else {
                old(self).imu().push(data)
            },
            final(self).obd() == old(self).obd(),
            final(self).dms() == old(self).dms(),
            final(self).adas() == old(self).adas(),
            final(self).spec_config() == old(self).spec_config(),
            final(self).spec_last_event() == old(self).spec_last_event(),
            final(self).spec_driver() == old(self).spec_driver(),
    {
        self.imu_window.push(data);
    }

    /// Sets the driver attached to reported events.
    pub fn set_driver(&mut self, driver_id: Option<String>)
        requires
            old(self).wf(),
        ensures
            final(self).wf(),
            final(self).spec_driver() == match driver_id {
                Some(d) => Some(d@),
                None => None::<Seq<char>>,
            },
            final(self).obd() == old(self).obd(),
            final(self).dms() == old(self).dms(),
            final(self).adas() == old(self).adas(),
            final(self).imu() == old(self).imu(),
            final(self).spec_config() == old(self).spec_config(),
            final(self).spec_last_event() == old(self).spec_last_event(),
    {
        self.driver_id = driver_id;
    }

    /// The driver attached to reported events.
    pub fn current_driver(&self) -> (r: Option<&String>)
        ensures
            match r {
                Some(d) => self.spec_driver() == Some(d@),
                None => self.spec_driver() is None,
            },
    {
        self.driver_id.as_ref()
    }

    /// Start of the distraction run that ends with the newest driver-state sample.
    fn distraction_run_start(&self) -> (r: Option<u64>)
        ensures
            r == distraction_start(self.dms()),
    {
        let n = self.dms_window.len();
        let ghost s = self.dms();
        let mut k: usize = n;
        let mut start: Option<u64> = None;
        while k > 0 && self.dms_window.get(k - 1).distraction.is_some()
            invariant
                n == s.len(),
                s == self.dms(),
                k <= n,
                forall|j: int| k <= j < n ==> (#[trigger] s[j]).distraction is Some,
                k < n ==> start == Some(s[k as int].timestamp_ns),
                k == n ==> start is None,
            decreases k,
        {
            start = Some(self.dms_window.get(k - 1).timestamp_ns);
            k = k - 1;
        }
        proof {
            lemma_run_start(s, k as int);
        }
        start
    }

    /// The incident of this tick at `now_ns`: the first predicate that holds
    /// on samples within their staleness budgets, if any.
    pub fn fuse(&self, now_ns: u64) -> (r: Option<FusedEvent>)
        ensures
            r == self.event_at(now_ns),
    {
        let imu = match self.imu_window.back() {
            Some(s) => if now_ns as u128 <= s.timestamp_ns as u128 + IMU_STALENESS_NS as u128 {
                Some(*s)
            } else {
                None
            },
            None => None,
        };
        let obd = match self.obd_window.back() {
            Some(s) => if now_ns as u128 <= s.timestamp_ns as u128 + OBD_STALENESS_NS as u128 {
                Some(*s)
            } else {
                None
            },
            None => None,
        };
        let dms = match self.dms_window.back() {
            Some(s) => if now_ns as u128 <= s.timestamp_ns as u128 + DMS_STALENESS_NS as u128 {
                Some(*s)
            } else {
                None
            },
            None => None,
        };
        let adas = match self.adas_window.back() {
            Some(s) => if now_ns as u128 <= s.timestamp_ns as u128 + ADAS_STALENESS_NS as u128 {
                Some(*s)
            } else {
                None
            },
            None => None,
        };
        if let Some(i) = imu {
            if i.g_force_mg > self.config.crash_mg {
                return Some(
                    FusedEvent::Crash {
                        severity: Severity::Critical,
                        g_force_mg: i.g_force_mg,
                        airbag_deployed: false,
                    },
                );
            }
        }
        if let Some(i) = imu {
            let ax: i64 = if i.accel_x_mg < 0 {
                -(i.accel_x_mg as i64)
            } else {
                i.accel_x_mg as i64
            };
            if ax > self.config.hard_brake_mg as i64 {
                if let Some(o) = obd {
                    if o.brake_pedal > HARD_BRAKE_PEDAL {
                        return Some(
                            FusedEvent::HardBraking {
                                severity: Severity::Medium,
                                decel_mg: ax as u32,
                                speed_before_kmh: o.speed_kmh as u32,
                            },
                        );
                    }
                }
            }
        }
        if let (Some(d), Some(a)) = (dms, adas) {
            let level_drowsy = match d.drowsiness_level {
                DrowsinessLevel::Moderate | DrowsinessLevel::High => true,
                _ => false,
            };
            if level_drowsy && a.lane_departing {
                return Some(
                    FusedEvent::DrowsinessLaneDeparture { severity: Severity::High, eyes_closed_ms: 0 },
                );
            }
        }
        if let Some(d) = dms {
            if let Some(start) = self.distraction_run_start() {
                let duration_ms: u64 = if d.timestamp_ns >= start {
                    (d.timestamp_ns - start) / 1_000_000
                } else {
                    0
                };
                if duration_ms >= self.config.distraction_threshold_ms {
                    let severity = if duration_ms as u128 >= 2 * self.config.distraction_threshold_ms as u128 {
                        Severity::High
                    } else {
                        Severity::Medium
                    };
                    return Some(FusedEvent::SustainedDistraction { severity, duration_ms });
                }
            }
        }
        if let (Some(o), Some(a)) = (obd, adas) {
            if let Some(limit) = a.speed_limit_kmh {
                if o.speed_kmh as u64 > limit as u64 + self.config.speeding_threshold_kmh as u64 {
                    return Some(
                        FusedEvent::Speeding { current_kmh: o.speed_kmh as u32, limit_kmh: limit },
                    );
                }
            }
        }
        None
    }

    /// One fusion tick at `now_ns`: the incident if one holds; otherwise a
    /// `Normal` heartbeat when nothing was reported in the last
    /// `HEARTBEAT_NS` (or ever); otherwise nothing.
    pub fn tick(&mut self, now_ns: u64) -> (r: Option<FusedEvent>)
        requires
            old(self).wf(),
        ensures
            final(self).wf(),
            final(self).obd() == old(self).obd(),
            final(self).dms() == old(self).dms(),
            final(self).adas() == old(self).adas(),
            final(self).imu() == old(self).imu(),
            final(self).spec_config() == old(self).spec_config(),
            final(self).spec_driver() == old(self).spec_driver(),
            r == match old(self).event_at(now_ns) {
                Some(e) => Some(e),
                None => if heartbeat_due(old(self).spec_last_event(), now_ns) {
                    Some(FusedEvent::Normal)
                } else {
                    None
                },
            },
            final(self).spec_last_event() == if r is Some {
                Some(now_ns)
            } else {
                old(self).spec_last_event()
            },
    {
        let event = self.fuse(now_ns);
        let out = match event {
            Some(e) => Some(e),
            None => {
                let due = match self.last_event_ns {
                    Some(t) => now_ns >= t && now_ns - t >= HEARTBEAT_NS,
                    None => true,
                };
                if due {
                    Some(FusedEvent::Normal)
                } else {
                    None
                }
            },
        };
        if out.is_some() {
            self.last_event_ns = Some(now_ns);
        }
        out
    }
}

/// The run found by scanning back from the newest sample: when samples
/// `k..` are all distracted and sample `k - 1` (if any) is not, the run
/// starts at sample `k`.
proof fn lemma_run_start(s: Seq<DriverStateSample>, k: int)
    requires
        0 <= k <= s.len(),
        forall|j: int| k <= j < s.len() ==> (#[trigger] s[j]).distraction is Some,
        k > 0 ==> s[k - 1].distraction is None,
    ensures
        distraction_start(s) == if k < s.len() {
            Some(s[k].timestamp_ns)
        } else {
            None::<u64>
        },
    decreases s.len(),
{
    if s.len() > 0 && k < s.len() {
        let p = s.drop_last();
        lemma_run_start(p, k);
        if k == s.len() - 1 {
            if k > 0 {
                assert(p.last().distraction is None);
            }
        }
    }
}

/// Precedence: whenever the crash predicate holds, the tick reports a crash,
/// whatever else holds at the same time (hard braking included).
pub proof fn lemma_crash_takes_precedence(
    config: FusionConfig,
    imu: Option<InertialSample>,
    obd: Option<ObdFrame>,
    dms: Option<DriverStateSample>,
    adas: Option<RoadSceneSample>,
    distracted_since: Option<u64>,
)
    requires
        imu is Some,
        imu.unwrap().g_force_mg > config.crash_mg,
    ensures
        fused_event(config, imu, obd, dms, adas, distracted_since) == Some(
            FusedEvent::Crash {
                severity: Severity::Critical,
                g_force_mg: imu.unwrap().g_force_mg,
                airbag_deployed: false,
            },
        ),
{
}

} // verus!
