use vstd::prelude::*;

verus! {

/// Confidences are given in basis points: 10_000 stands for certainty.
pub const CONFIDENCE_SCALE: u32 = 10_000;

/// Length of the throttling window, in milliseconds.
pub const HOUR_MS: u64 = 3_600_000;

/// Confidence (basis points) from which a fire is rated "high".
pub const HIGH_SEVERITY: u32 = 8_500;

/// Gating, deduplication and throttling settings.
#[derive(Debug, Clone, Copy, PartialEq, Eq)]
pub struct AlertConfig {
    /// Least confidence (basis points) that may fire.
    pub confidence_threshold: u32,
    /// Least confidence (basis points) rated critical.
    pub critical_threshold: u32,
    /// Least time between two fires of one label.
    pub cooldown_seconds: u64,
    /// Fires allowed per throttling window.
    pub max_alerts_per_hour: usize,
}

impl Default for AlertConfig {
    fn default() -> (r: AlertConfig)
        ensures
            r.confidence_threshold == 7_500,
            r.critical_threshold == 9_000,
            r.cooldown_seconds == 1800,
            r.max_alerts_per_hour == 10,
    {
        AlertConfig {
            confidence_threshold: 7_500,
            critical_threshold: 9_000,
            cooldown_seconds: 1800,
            max_alerts_per_hour: 10,
        }
    }
}

/// What is remembered of one label.
#[derive(Debug, Clone, Copy, PartialEq, Eq)]
pub struct AlertState {
    /// Time of the last fire (ms).
    pub last_fired_ms: u64,
    /// Number of fires.
    pub fire_count: usize,
    /// Whether the last fire was acknowledged.
    pub acknowledged: bool,
}

/// `a - b`, or zero when `b` is later.
pub open spec fn elapsed(now: u64, since: u64) -> int {
    if now >= since {
        now - since
    } else {
        0
    }
}

/// Label text for a confidence, by the configured bands.
pub open spec fn severity_name(config: AlertConfig, confidence: u32) -> Seq<char> {
    if confidence >= config.critical_threshold {
        "critical"@
    } else if confidence >= HIGH_SEVERITY {
        "high"@
    } else if confidence >= config.confidence_threshold {
        "medium"@
    } else {
        "low"@
    }
}

spec fn labels_match(states: Seq<(String, AlertState)>, labels: Map<Seq<char>, AlertState>) -> bool {
    &&& forall|i: int, j: int| 0 <= i < j < states.len() ==> states[i].0@ != states[j].0@
    &&& forall|i: int|
        0 <= i < states.len() ==> #[trigger] labels.contains_key(states[i].0@) && labels[states[i].0@]
            == states[i].1
    &&& forall|l: Seq<char>|
        #[trigger] labels.contains_key(l) ==> exists|i: int| 0 <= i < states.len() && states[i].0@ == l
}

/// Confidence gate, hourly throttle and per-label cooldown.
pub struct AlertManager {
    config: AlertConfig,
    states: Vec<(String, AlertState)>,
    hourly_count: usize,
    hour_start_ms: u64,
    labels: Ghost<Map<Seq<char>, AlertState>>,
}

impl AlertManager {
    pub closed spec fn wf(&self) -> bool {
        labels_match(self.states@, self.labels@)
    }

    /// State of each label that has fired.
    pub closed spec fn view(&self) -> Map<Seq<char>, AlertState> {
        self.labels@
    }

    pub closed spec fn spec_config(&self) -> AlertConfig {
        self.config
    }

    pub closed spec fn spec_hourly_count(&self) -> nat {
        self.hourly_count as nat
    }

    pub closed spec fn spec_hour_start(&self) -> u64 {
        self.hour_start_ms
    }

    /// Whether the throttling window has run out at `now`.
    pub open spec fn window_expired(&self, now: u64) -> bool {
        elapsed(now, self.spec_hour_start()) > HOUR_MS
    }

    /// The count of fires in the window as seen at `now`.
    pub open spec fn count_at(&self, now: u64) -> nat {
        if self.window_expired(now) {
            0
        } else {
            self.spec_hourly_count()
        }
    }

    /// Whether `label` is still cooling down at `now`.
    pub open spec fn cooling_down(&self, label: Seq<char>, now: u64) -> bool {
        self.view().contains_key(label) && elapsed(now, self.view()[label].last_fired_ms)
            < self.spec_config().cooldown_seconds * 1000
    }

    /// Whether a fire of `label` at `confidence` passes every gate at `now`.
    pub open spec fn fire_allowed(&self, label: Seq<char>, confidence: u32, now: u64) -> bool {
        &&& confidence >= self.spec_config().confidence_threshold
        &&& self.count_at(now) < self.spec_config().max_alerts_per_hour
        &&& !self.cooling_down(label, now)
    }

    /// A manager with no label fired, whose throttling window opens at `now_ms`.
    pub fn new(config: AlertConfig, now_ms: u64) -> (r: AlertManager)
        ensures
            r.wf(),
            r.spec_config() == config,
            r.view() == Map::<Seq<char>, AlertState>::empty(),
            r.spec_hourly_count() == 0,
            r.spec_hour_start() == now_ms,
    {
        AlertManager {
            config,
            states: Vec::new(),
            hourly_count: 0,
            hour_start_ms: now_ms,
            labels: Ghost(Map::empty()),
        }
    }

    fn find(&self, key: &String) -> (r: Option<usize>)
        requires
            self.wf(),
        ensures
            match r {
                Some(i) => i < self.states@.len() && self.states@[i as int].0@ == key@
                    && self.view().contains_key(key@),
                None => !self.view().contains_key(key@),
            },
    {
        let mut i: usize = 0;
        while i < self.states.len()
            invariant
                self.wf(),
                i <= self.states@.len(),
                forall|j: int| 0 <= j < i ==> self.states@[j].0@ != key@,
            decreases self.states.len() - i,
        {
            if self.states[i].0 == *key {
                assert(self.labels@.contains_key(self.states@[i as int].0@));
                return Some(i);
            }
            i = i + 1;
        }
        None
    }

    /// Whether a fire of `fault_type` at `confidence` (basis points) passes the
    /// confidence gate, the hourly throttle and the label's cooldown at `now_ms`.
    /// Past the confidence gate, an expired throttling window is restarted at `now_ms`.
    pub fn should_fire(&mut self, fault_type: &str, confidence: u32, now_ms: u64) -> (r: bool)
        requires
            old(self).wf(),
        ensures
            final(self).wf(),
            r == old(self).fire_allowed(fault_type@, confidence, now_ms),
            final(self).view() == old(self).view(),
            final(self).spec_config() == old(self).spec_config(),
            final(self).spec_hourly_count() == if confidence
                >= old(self).spec_config().confidence_threshold {
                old(self).count_at(now_ms)
            } else {
                old(self).spec_hourly_count()
            },
            final(self).spec_hour_start() == if confidence
                >= old(self).spec_config().confidence_threshold && old(self).window_expired(
                now_ms,
            ) {
                now_ms
            } else {
                old(self).spec_hour_start()
            },
    {
        if confidence < self.config.confidence_threshold {
            return false;
        }
        if now_ms.saturating_sub(self.hour_start_ms) > HOUR_MS {
            self.hourly_count = 0;
            self.hour_start_ms = now_ms;
        }
        if self.hourly_count >= self.config.max_alerts_per_hour {
            return false;
        }
        let key = fault_type.to_owned();
        match self.find(&key) {
            Some(i) => {
                let last = self.states[i].1.last_fired_ms;
                let since = now_ms.saturating_sub(last) as u128;
                let cooldown_ms = self.config.cooldown_seconds as u128 * 1000;
                !(since < cooldown_ms)
            },
            None => true,
        }
    }

    /// Records a fire of `fault_type` at `now_ms`: counts it in the window and
    /// marks the label fired now and not acknowledged.
    pub fn record_fire(&mut self, fault_type: &str, now_ms: u64)
        requires
            old(self).wf(),
        ensures
            final(self).wf(),
            final(self).view() == old(self).view().insert(
                fault_type@,
                AlertState {
                    last_fired_ms: now_ms,
                    fire_count: if old(self).view().contains_key(fault_type@) {
                        if old(self).view()[fault_type@].fire_count == usize::MAX {
                            usize::MAX
                        } else {
                            (old(self).view()[fault_type@].fire_count + 1) as usize
                        }
                    } else {
                        1
                    },
                    acknowledged: false,
                },
            ),
            final(self).spec_config() == old(self).spec_config(),
            final(self).spec_hour_start() == old(self).spec_hour_start(),
            final(self).spec_hourly_count() == if old(self).spec_hourly_count() == usize::MAX {
                usize::MAX as nat
            } else {
                old(self).spec_hourly_count() + 1
            },
    {
        self.hourly_count = self.hourly_count.saturating_add(1);
        let key = fault_type.to_owned();
        match self.find(&key) {
            Some(i) => {
                let old_state = self.states[i].1;
                let st = AlertState {
                    last_fired_ms: now_ms,
                    fire_count: old_state.fire_count.saturating_add(1),
                    acknowledged: false,
                };
                let ghost old_states = self.states@;
                self.states.set(i, (key, st));
                self.labels = Ghost(self.labels@.insert(fault_type@, st));
                proof {
                    assert(old_states[i as int].0@ == fault_type@);
                    assert forall|a: int, b: int|
                        0 <= a < b < self.states@.len() implies self.states@[a].0@
                        != self.states@[b].0@ by {
                        assert(self.states@[a].0@ == old_states[a].0@);
                        assert(self.states@[b].0@ == old_states[b].0@);
                    }
                    assert forall|j: int|
                        0 <= j < self.states@.len() implies #[trigger] self.labels@.contains_key(
                        self.states@[j].0@,
                    ) && self.labels@[self.states@[j].0@] == self.states@[j].1 by {
                        if j != i {
                            assert(self.states@[j] == old_states[j]);
                            assert(old(self).labels@.contains_key(old_states[j].0@));
                        }
                    }
                    assert forall|l: Seq<char>| #[trigger]
                        self.labels@.contains_key(l) implies exists|j: int|
                        0 <= j < self.states@.len() && self.states@[j].0@ == l by {
                        if l != fault_type@ {
                            let j = choose|j: int|
                                0 <= j < old_states.len() && old_states[j].0@ == l;
                            assert(self.states@[j].0@ == l);
                        } else {
                            assert(self.states@[i as int].0@ == l);
                        }
                    }
                }
            },
            None => {
                let st = AlertState { last_fired_ms: now_ms, fire_count: 1, acknowledged: false };
                let ghost old_states = self.states@;
                self.states.push((key, st));
                self.labels = Ghost(self.labels@.insert(fault_type@, st));
                proof {
                    assert forall|i: int|
                        0 <= i < old_states.len() implies old_states[i].0@ != fault_type@ by {
                        assert(old(self).labels@.contains_key(old_states[i].0@));
                    }
                    assert forall|j: int|
                        0 <= j < self.states@.len() implies #[trigger] self.labels@.contains_key(
                        self.states@[j].0@,
                    ) && self.labels@[self.states@[j].0@] == self.states@[j].1 by {
                        if j < old_states.len() {
                            assert(self.states@[j] == old_states[j]);
                            assert(old(self).labels@.contains_key(old_states[j].0@));
                        }
                    }
                    assert forall|l: Seq<char>| #[trigger]
                        self.labels@.contains_key(l) implies exists|j: int|
                        0 <= j < self.states@.len() && self.states@[j].0@ == l by {
                        if l != fault_type@ {
                            let j = choose|j: int|
                                0 <= j < old_states.len() && old_states[j].0@ == l;
                            assert(self.states@[j].0@ == l);
                        } else {
                            assert(self.states@[old_states.len() as int].0@ == l);
                        }
                    }
                }
            },
        }
    }

    /// Marks the last fire of `fault_type` acknowledged; false when the label
    /// has never fired.
    pub fn acknowledge(&mut self, fault_type: &str) -> (r: bool)
        requires
            old(self).wf(),
        ensures
            final(self).wf(),
            r == old(self).view().contains_key(fault_type@),
            final(self).view() == if r {
                old(self).view().insert(
                    fault_type@,
                    AlertState { acknowledged: true, ..old(self).view()[fault_type@] },
                )
            } else {
                old(self).view()
            },
            final(self).spec_config() == old(self).spec_config(),
            final(self).spec_hourly_count() == old(self).spec_hourly_count(),
            final(self).spec_hour_start() == old(self).spec_hour_start(),
    {
        let key = fault_type.to_owned();
        match self.find(&key) {
            Some(i) => {
                let old_state = self.states[i].1;
                let st = AlertState { acknowledged: true, ..old_state };
                let ghost old_states = self.states@;
                self.states.set(i, (key, st));
                self.labels = Ghost(self.labels@.insert(fault_type@, st));
                proof {
                    assert(old_states[i as int].0@ == fault_type@);
                    assert forall|a: int, b: int|
                        0 <= a < b < self.states@.len() implies self.states@[a].0@
                        != self.states@[b].0@ by {
                        assert(self.states@[a].0@ == old_states[a].0@);
                        assert(self.states@[b].0@ == old_states[b].0@);
                    }
                    assert forall|j: int|
                        0 <= j < self.states@.len() implies #[trigger] self.labels@.contains_key(
                        self.states@[j].0@,
                    ) && self.labels@[self.states@[j].0@] == self.states@[j].1 by {
                        if j != i {
                            assert(self.states@[j] == old_states[j]);
                            assert(old(self).labels@.contains_key(old_states[j].0@));
                        }
                    }
                    assert forall|l: Seq<char>| #[trigger]
                        self.labels@.contains_key(l) implies exists|j: int|
                        0 <= j < self.states@.len() && self.states@[j].0@ == l by {
                        if l != fault_type@ {
                            let j = choose|j: int|
                                0 <= j < old_states.len() && old_states[j].0@ == l;
                            assert(self.states@[j].0@ == l);
                        } else {
                            assert(self.states@[i as int].0@ == l);
                        }
                    }
                }
                true
            },
            None => false,
        }
    }

    /// "critical", "high", "medium" or "low" for a confidence in basis points.
    pub fn get_severity(&self, confidence: u32) -> (r: &'static str)
        ensures
            r@ == severity_name(self.spec_config(), confidence),
    {
        if confidence >= self.config.critical_threshold {
            "critical"
        } else if confidence >= HIGH_SEVERITY {
            "high"
        } else if confidence >= self.config.confidence_threshold {
            "medium"
        } else {
            "low"
        }
    }

    /// Every label whose last fire is not acknowledged, once each, with its state.
    pub fn get_pending(&self) -> (r: Vec<(String, AlertState)>)
        requires
            self.wf(),
        ensures
            forall|k: int|
                0 <= k < r@.len() ==> #[trigger] self.view().contains_key(r@[k].0@)
                    && self.view()[r@[k].0@] == r@[k].1 && !r@[k].1.acknowledged,
            forall|l: Seq<char>|
                #[trigger] self.view().contains_key(l) && !self.view()[l].acknowledged
                    ==> exists|k: int| 0 <= k < r@.len() && r@[k].0@ == l,
            forall|k1: int, k2: int| 0 <= k1 < k2 < r@.len() ==> r@[k1].0@ != r@[k2].0@,
    {
        let mut out: Vec<(String, AlertState)> = Vec::new();
        let ghost mut picked: Seq<int> = Seq::empty();
        let mut i: usize = 0;
        while i < self.states.len()
            invariant
                self.wf(),
                i <= self.states@.len(),
                picked.len() == out@.len(),
                forall|k: int|
                    0 <= k < out@.len() ==> 0 <= #[trigger] picked[k] < i && self.states@[picked[k]]
                        == out@[k] && !out@[k].1.acknowledged,
                forall|k1: int, k2: int| 0 <= k1 < k2 < out@.len() ==> picked[k1] < picked[k2],
                forall|j: int|
                    0 <= j < i && !(#[trigger] self.states@[j]).1.acknowledged ==> exists|k: int|
                        0 <= k < out@.len() && picked[k] == j,
            decreases self.states.len() - i,
        {
            if !self.states[i].1.acknowledged {
                let label = self.states[i].0.clone();
                out.push((label, self.states[i].1));
                proof {
                    let ghost old_picked = picked;
                    picked = picked.push(i as int);
                    assert(picked[picked.len() - 1] == i);
                    assert forall|j: int|
                        0 <= j < i && !(#[trigger] self.states@[j]).1.acknowledged implies exists|
                        k: int,
                    | 0 <= k < out@.len() && picked[k] == j by {
                        let k = choose|k: int| 0 <= k < old_picked.len() && old_picked[k] == j;
                        assert(picked[k] == j);
                    }
                }
            }
            i = i + 1;
        }
        proof {
            assert forall|k1: int, k2: int| 0 <= k1 < k2 < out@.len() implies out@[k1].0@
                != out@[k2].0@ by {
                assert(out@[k1].0 == self.states@[picked[k1]].0);
                assert(out@[k2].0 == self.states@[picked[k2]].0);
            }
            assert forall|k: int|
                0 <= k < out@.len() implies #[trigger] self.view().contains_key(out@[k].0@)
                && self.view()[out@[k].0@] == out@[k].1 && !out@[k].1.acknowledged by {
                assert(self.labels@.contains_key(self.states@[picked[k]].0@));
            }
            assert forall|l: Seq<char>| #[trigger]
                self.view().contains_key(l) && !self.view()[l].acknowledged implies exists|k: int|
                0 <= k < out@.len() && out@[k].0@ == l by {
                let j = choose|j: int| 0 <= j < self.states@.len() && self.states@[j].0@ == l;
                assert(self.labels@.contains_key(self.states@[j].0@));
                assert(!self.states@[j].1.acknowledged);
                let k = choose|k: int| 0 <= k < out@.len() && picked[k] == j;
                assert(out@[k].0@ == l);
            }
        }
        out
    }

    /// The remembered state of `fault_type`, if it has fired.
    pub fn state(&self, fault_type: &str) -> (r: Option<AlertState>)
        requires
            self.wf(),
        ensures
            r == if self.view().contains_key(fault_type@) {
                Some(self.view()[fault_type@])
            } else {
                None::<AlertState>
            },
    {
        let key = fault_type.to_owned();
        match self.find(&key) {
            Some(i) => {
                assert(self.labels@.contains_key(self.states@[i as int].0@));
                Some(self.states[i].1)
            },
            None => None,
        }
    }

    /// Fires counted in the current throttling window.
    pub fn hourly_count(&self) -> (r: usize)
        ensures
            r == self.spec_hourly_count(),
    {
        self.hourly_count
    }

    /// Forgets every label and empties the current window's count.
    pub fn clear(&mut self)
        requires
            old(self).wf(),
        ensures
            final(self).wf(),
            final(self).view() == Map::<Seq<char>, AlertState>::empty(),
            final(self).spec_hourly_count() == 0,
            final(self).spec_config() == old(self).spec_config(),
            final(self).spec_hour_start() == old(self).spec_hour_start(),
    {
        self.states = Vec::new();
        self.hourly_count = 0;
        self.labels = Ghost(Map::empty());
    }
}

impl Default for AlertManager {
    fn default() -> (r: AlertManager)
        ensures
            r.wf(),
            r.view() == Map::<Seq<char>, AlertState>::empty(),
            r.spec_hourly_count() == 0,
            r.spec_hour_start() == 0,
    {
        AlertManager::new(AlertConfig::default(), 0)
    }
}

} // verus!

verus! {

/// Cooldown: once `label` has fired at `t`, no fire of it passes the gates at
/// any time from `t` up to `t + cooldown`, whatever the confidence.
pub proof fn lemma_cooldown_blocks_refire(
    m: AlertManager,
    label: Seq<char>,
    t: u64,
    confidence: u32,
    later: u64,
)
    requires
        m.view().contains_key(label),
        m.view()[label].last_fired_ms == t,
        t <= later,
        later < t + m.spec_config().cooldown_seconds * 1000,
    ensures
        !m.fire_allowed(label, confidence, later),
{
}

/// Hourly cap: a fire that passes the gates finds fewer than
/// `max_alerts_per_hour` fires in the current window, so once it is recorded
/// the window holds at most that many.
pub proof fn lemma_fire_within_hourly_cap(
    m: AlertManager,
    label: Seq<char>,
    confidence: u32,
    now: u64,
)
    requires
        m.fire_allowed(label, confidence, now),
    ensures
        m.count_at(now) + 1 <= m.spec_config().max_alerts_per_hour,
{
}

} // verus!
