use vstd::prelude::*;
use crate::pid::{Pid, PidResponse, applied};
use crate::sensor::SensorFrame;

verus! {

/// A rate of `r` millihertz has a period of `MILLIHERTZ_MS / r` milliseconds.
pub const MILLIHERTZ_MS: u64 = 1_000_000;

/// Sampling and boost settings.
#[derive(Debug, Clone, Copy, PartialEq, Eq)]
pub struct SchedulerConfig {
    /// Rate of the critical parameters (mHz).
    pub base_rate_mhz: u64,
    /// Failures after which a parameter is reported as failing.
    pub max_retries: u8,
    /// Base of the retry backoff (ms).
    pub retry_backoff_ms: u64,
    /// Coolant temperature (°C) from which the coolant rate is boosted.
    pub coolant_boost_threshold: i64,
    /// Factor applied to the coolant rate while boosted.
    pub boost_multiplier: u64,
}

impl SchedulerConfig {
    pub open spec fn wf(&self) -> bool {
        self.base_rate_mhz > 0 && self.boost_multiplier > 0
    }
}

impl Default for SchedulerConfig {
    fn default() -> (r: SchedulerConfig)
        ensures
            r.wf(),
            r.base_rate_mhz == 5_000,
            r.max_retries == 3,
            r.retry_backoff_ms == 100,
            r.coolant_boost_threshold == 95,
            r.boost_multiplier == 2,
    {
        SchedulerConfig {
            base_rate_mhz: 5_000,
            max_retries: 3,
            retry_backoff_ms: 100,
            coolant_boost_threshold: 95,
            boost_multiplier: 2,
        }
    }
}

/// Milliseconds between two queries at `rate_mhz`.
pub open spec fn interval_of(rate_mhz: u64) -> int {
    MILLIHERTZ_MS as int / rate_mhz as int
}

/// `now + d`, saturating at the largest instant.
pub open spec fn later_by(now: u64, d: int) -> u64 {
    if now + d > u64::MAX {
        u64::MAX
    } else {
        (now + d) as u64
    }
}

/// One parameter in the queue.
#[derive(Debug, Clone, Copy)]
pub struct ScheduledPid {
    /// Parameter to query.
    pub pid: Pid,
    /// Current rate (mHz).
    pub rate_mhz: u64,
    /// Instant (ms) the next query is due.
    pub next_query_ms: u64,
    /// Base priority; higher goes first among queries due together.
    pub priority: u8,
    /// Consecutive failed queries.
    pub failures: u8,
}

/// Whether `a` runs before `b`: earlier due first, then higher priority.
pub open spec fn runs_before(a: ScheduledPid, b: ScheduledPid) -> bool {
    a.next_query_ms < b.next_query_ms || (a.next_query_ms == b.next_query_ms && a.priority
        > b.priority)
}

impl PartialEq for ScheduledPid {
    fn eq(&self, other: &ScheduledPid) -> (r: bool)
        ensures
            r == (self.next_query_ms == other.next_query_ms && self.priority == other.priority),
    {
        self.next_query_ms == other.next_query_ms && self.priority == other.priority
    }
}

impl vstd::std_specs::cmp::PartialEqSpecImpl for ScheduledPid {
    open spec fn obeys_eq_spec() -> bool {
        true
    }

    open spec fn eq_spec(&self, other: &ScheduledPid) -> bool {
        self.next_query_ms == other.next_query_ms && self.priority == other.priority
    }
}

/// Queue order: an entry is greater when it runs sooner.
pub open spec fn queue_order(a: ScheduledPid, b: ScheduledPid) -> core::cmp::Ordering {
    if runs_before(a, b) {
        core::cmp::Ordering::Greater
    } else if runs_before(b, a) {
        core::cmp::Ordering::Less
    } else {
        core::cmp::Ordering::Equal
    }
}

impl PartialOrd for ScheduledPid {
    fn partial_cmp(&self, other: &ScheduledPid) -> (r: Option<core::cmp::Ordering>)
        ensures
            r == Some(queue_order(*self, *other)),
    {
        if self.next_query_ms < other.next_query_ms || (self.next_query_ms == other.next_query_ms
            && self.priority > other.priority) {
            Some(core::cmp::Ordering::Greater)
        } else if other.next_query_ms < self.next_query_ms || (other.next_query_ms
            == self.next_query_ms && other.priority > self.priority) {
            Some(core::cmp::Ordering::Less)
        } else {
            Some(core::cmp::Ordering::Equal)
        }
    }
}

impl vstd::std_specs::cmp::PartialOrdSpecImpl for ScheduledPid {
    open spec fn obeys_partial_cmp_spec() -> bool {
        true
    }

    open spec fn partial_cmp_spec(&self, other: &ScheduledPid) -> Option<core::cmp::Ordering> {
        Some(queue_order(*self, *other))
    }
}

impl ScheduledPid {
    /// A parameter at `rate_mhz`, due at `now_ms`, with its base priority.
    pub fn new(pid: Pid, rate_mhz: u64, now_ms: u64) -> (r: ScheduledPid)
        ensures
            r.pid == pid,
            r.rate_mhz == rate_mhz,
            r.next_query_ms == now_ms,
            r.priority == pid.spec_priority(),
            r.failures == 0,
    {
        ScheduledPid {
            pid,
            rate_mhz,
            next_query_ms: now_ms,
            priority: pid.sampling_priority(),
            failures: 0,
        }
    }

    /// Milliseconds between two queries at the current rate.
    pub fn interval(&self) -> (r: u64)
        requires
            self.rate_mhz > 0,
        ensures
            r == interval_of(self.rate_mhz),
    {
        MILLIHERTZ_MS / self.rate_mhz
    }

    /// Makes the next query due one interval after `now_ms`.
    pub fn schedule_next(&mut self, now_ms: u64)
        requires
            old(self).rate_mhz > 0,
        ensures
            *final(self) == (ScheduledPid {
                next_query_ms: later_by(now_ms, interval_of(old(self).rate_mhz)),
                ..*old(self)
            }),
    {
        self.next_query_ms = now_ms.saturating_add(self.interval());
    }
}

/// The coolant rate after a coolant reading of `num / den` °C: boosted from
/// the threshold on, the base rate below it.
pub open spec fn coolant_rate(config: SchedulerConfig, num: int, den: int) -> u64 {
    if num >= config.coolant_boost_threshold * den {
        if config.base_rate_mhz * config.boost_multiplier > u64::MAX {
            u64::MAX
        } else {
            (config.base_rate_mhz * config.boost_multiplier) as u64
        }
    } else {
        config.base_rate_mhz
    }
}

/// Index of the entry of `q` that runs first; the earliest among equals.
pub open spec fn is_first(q: Seq<ScheduledPid>, i: int) -> bool {
    &&& 0 <= i < q.len()
    &&& forall|j: int| 0 <= j < i ==> runs_before(#[trigger] q[i], q[j])
    &&& forall|j: int| i < j < q.len() ==> !runs_before(#[trigger] q[j], q[i])
}

/// Round-robin over the diagnostic parameters, each at its own rate.
pub struct PidScheduler {
    queue: Vec<ScheduledPid>,
    config: SchedulerConfig,
    running: bool,
    last_coolant_temp: i64,
}

impl PidScheduler {
    pub open spec fn wf(&self) -> bool {
        &&& self.spec_config().wf()
        &&& forall|i: int| 0 <= i < self.view().len() ==> (#[trigger] self.view()[i]).rate_mhz > 0
    }

    /// The queued parameters, in insertion order.
    pub closed spec fn view(&self) -> Seq<ScheduledPid> {
        self.queue@
    }

    pub closed spec fn spec_config(&self) -> SchedulerConfig {
        self.config
    }

    pub closed spec fn spec_running(&self) -> bool {
        self.running
    }

    pub closed spec fn spec_last_coolant(&self) -> i64 {
        self.last_coolant_temp
    }

    /// A stopped scheduler with the critical parameters at the base rate, air
    /// flow at 1 Hz and the trims and oxygen sensor at 0.5 Hz, all due at `now_ms`.
    pub fn new(config: SchedulerConfig, now_ms: u64) -> (r: PidScheduler)
        requires
            config.wf(),
        ensures
            r.wf(),
            r.spec_config() == config,
            !r.spec_running(),
            r.view() == seq![
                ScheduledPid::new_spec(Pid::Rpm, config.base_rate_mhz, now_ms),
                ScheduledPid::new_spec(Pid::Speed, config.base_rate_mhz, now_ms),
                ScheduledPid::new_spec(Pid::CoolantTemp, config.base_rate_mhz, now_ms),
                ScheduledPid::new_spec(Pid::EngineLoad, config.base_rate_mhz, now_ms),
                ScheduledPid::new_spec(Pid::Maf, 1_000, now_ms),
                ScheduledPid::new_spec(Pid::ShortFuelTrim, 500, now_ms),
                ScheduledPid::new_spec(Pid::LongFuelTrim, 500, now_ms),
                ScheduledPid::new_spec(Pid::O2Voltage, 500, now_ms),
            ],
    {
        let mut queue: Vec<ScheduledPid> = Vec::new();
        queue.push(ScheduledPid::new(Pid::Rpm, config.base_rate_mhz, now_ms));
        queue.push(ScheduledPid::new(Pid::Speed, config.base_rate_mhz, now_ms));
        queue.push(ScheduledPid::new(Pid::CoolantTemp, config.base_rate_mhz, now_ms));
        queue.push(ScheduledPid::new(Pid::EngineLoad, config.base_rate_mhz, now_ms));
        queue.push(ScheduledPid::new(Pid::Maf, 1_000, now_ms));
        queue.push(ScheduledPid::new(Pid::ShortFuelTrim, 500, now_ms));
        queue.push(ScheduledPid::new(Pid::LongFuelTrim, 500, now_ms));
        queue.push(ScheduledPid::new(Pid::O2Voltage, 500, now_ms));
        let r = PidScheduler { queue, config, running: false, last_coolant_temp: 0 };
        assert(r.view() =~= seq![
            ScheduledPid::new_spec(Pid::Rpm, config.base_rate_mhz, now_ms),
            ScheduledPid::new_spec(Pid::Speed, config.base_rate_mhz, now_ms),
            ScheduledPid::new_spec(Pid::CoolantTemp, config.base_rate_mhz, now_ms),
            ScheduledPid::new_spec(Pid::EngineLoad, config.base_rate_mhz, now_ms),
            ScheduledPid::new_spec(Pid::Maf, 1_000, now_ms),
            ScheduledPid::new_spec(Pid::ShortFuelTrim, 500, now_ms),
            ScheduledPid::new_spec(Pid::LongFuelTrim, 500, now_ms),
            ScheduledPid::new_spec(Pid::O2Voltage, 500, now_ms),
        ]);
        r
    }

    /// Sets the rate of every queued entry of `pid` to `new_rate_mhz`.
    pub fn boost_priority(&mut self, pid: Pid, new_rate_mhz: u64)
        requires
            old(self).wf(),
            new_rate_mhz > 0,
        ensures
            final(self).wf(),
            final(self).spec_config() == old(self).spec_config(),
            final(self).spec_running() == old(self).spec_running(),
            final(self).spec_last_coolant() == old(self).spec_last_coolant(),
            final(self).view().len() == old(self).view().len(),
            forall|i: int|
                0 <= i < old(self).view().len() ==> #[trigger] final(self).view()[i] == if old(self).view()[i].pid == pid {
                    ScheduledPid { rate_mhz: new_rate_mhz, ..old(self).view()[i] }
                } else {
                    old(self).view()[i]
                },
    {
        let mut i: usize = 0;
        while i < self.queue.len()
            invariant
                self.config == old(self).config,
                self.running == old(self).running,
                self.last_coolant_temp == old(self).last_coolant_temp,
                self.queue@.len() == old(self).queue@.len(),
                i <= self.queue@.len(),
                forall|j: int|
                    0 <= j < i ==> #[trigger] self.queue@[j] == if old(self).queue@[j].pid == pid {
                        ScheduledPid { rate_mhz: new_rate_mhz, ..old(self).queue@[j] }
                    } else {
                        old(self).queue@[j]
                    },
                forall|j: int| i <= j < self.queue@.len() ==> #[trigger] self.queue@[j] == old(self).queue@[j],
            decreases self.queue.len() - i,
        {
            if self.queue[i].pid == pid {
                let item = ScheduledPid { rate_mhz: new_rate_mhz, ..self.queue[i] };
                self.queue.set(i, item);
            }
            i = i + 1;
        }
        proof {
            assert forall|j: int| 0 <= j < self.view().len() implies (
            #[trigger] self.view()[j]).rate_mhz > 0 by {
                assert(old(self).view()[j].rate_mhz > 0);
            }
        }
    }

    /// Takes out the entry that runs first: the earliest due, then the highest
    /// priority, then the earliest queued. `None` when the queue is empty.
    pub fn pop_next(&mut self) -> (r: Option<ScheduledPid>)
        requires
            old(self).wf(),
        ensures
            final(self).wf(),
            final(self).spec_config() == old(self).spec_config(),
            final(self).spec_running() == old(self).spec_running(),
            final(self).spec_last_coolant() == old(self).spec_last_coolant(),
            old(self).view().len() == 0 ==> r is None && final(self).view() == old(self).view(),
            old(self).view().len() > 0 ==> exists|i: int|
                is_first(old(self).view(), i) && r == Some(old(self).view()[i]) && final(self).view() == old(self).view().remove(i),
    {
        if self.queue.len() == 0 {
            return None;
        }
        let mut best: usize = 0;
        let mut j: usize = 1;
        while j < self.queue.len()
            invariant
                self.queue@ == old(self).queue@,
                0 < j <= self.queue@.len(),
                best < j,
                forall|k: int| 0 <= k < best ==> runs_before(self.queue@[best as int], #[trigger] self.queue@[k]),
                forall|k: int| best < k < j ==> !runs_before(#[trigger] self.queue@[k], self.queue@[best as int]),
            decreases self.queue.len() - j,
        {
            let a = self.queue[j];
            let b = self.queue[best];
            if a.next_query_ms < b.next_query_ms || (a.next_query_ms == b.next_query_ms
                && a.priority > b.priority) {
                proof {
                    assert forall|k: int| 0 <= k < j implies runs_before(
                        self.queue@[j as int],
                        #[trigger] self.queue@[k],
                    ) by {
                        if k != best {
                            if k < best {
                            } else {
                                assert(!runs_before(self.queue@[k], self.queue@[best as int]));
                            }
                        }
                    }
                }
                best = j;
            }
            j = j + 1;
        }
        let item = self.queue.remove(best);
        proof {
            assert(is_first(old(self).view(), best as int));
            assert forall|k: int| 0 <= k < self.view().len() implies (
            #[trigger] self.view()[k]).rate_mhz > 0 by {
                if k < best {
                    assert(self.view()[k] == old(self).view()[k]);
                } else {
                    assert(self.view()[k] == old(self).view()[k + 1]);
                }
            }
        }
        Some(item)
    }

    /// Handles the outcome of querying `scheduled` (taken out by `pop_next`),
    /// finished at `now_ms`, and queues it again one interval later.
    ///
    /// A reply resets the failure count, is stored in `frame`, which takes its
    /// time stamp, and, for the coolant, sets the coolant rate: boosted from
    /// the threshold on, the base rate below it. A failure adds one to the
    /// failure count. Returns whether `frame` holds a new reading to send on.
    pub fn complete_query(
        &mut self,
        scheduled: ScheduledPid,
        reply: Option<&PidResponse>,
        frame: &mut SensorFrame,
        now_ms: u64,
    ) -> (r: bool)
        requires
            old(self).wf(),
            scheduled.rate_mhz > 0,
            reply matches Some(resp) ==> resp.wf(),
        ensures
            final(self).wf(),
            r == reply is Some,
            final(self).spec_config() == old(self).spec_config(),
            final(self).spec_running() == old(self).spec_running(),
            final(self).view().len() == old(self).view().len() + 1,
            final(self).view().drop_last() == old(self).view(),
            ({
                let rate = match reply {
                    Some(resp) => if scheduled.pid == Pid::CoolantTemp {
                        coolant_rate(
                            old(self).spec_config(),
                            resp.value_num as int,
                            resp.value_den as int,
                        )
                    } else {
                        scheduled.rate_mhz
                    },
                    None => scheduled.rate_mhz,
                };
                final(self).view().last() == ScheduledPid {
                    rate_mhz: rate,
                    next_query_ms: later_by(now_ms, interval_of(rate)),
                    failures: match reply {
                        Some(_) => 0u8,
                        None => if scheduled.failures == u8::MAX {
                            u8::MAX
                        } else {
                            (scheduled.failures + 1) as u8
                        },
                    },
                    ..scheduled
                }
            }),
            match reply {
                Some(resp) => {
                    &&& *final(frame) == (SensorFrame {
                        timestamp_ms: resp.timestamp_ms,
                        ..applied(*old(frame), *resp)
                    })
                    &&& (scheduled.pid == Pid::CoolantTemp ==> final(self).spec_last_coolant()
                        == resp.value_num)
                    &&& (scheduled.pid != Pid::CoolantTemp ==> final(self).spec_last_coolant()
                        == old(self).spec_last_coolant())
                },
                None => *final(frame) == *old(frame) && final(self).spec_last_coolant() == old(self).spec_last_coolant(),
            },
    {
        let mut item = scheduled;
        match reply {
            Some(resp) => {
                item.failures = 0;
                frame.update_from_response(resp);
                frame.timestamp_ms = resp.timestamp_ms;
                if item.pid == Pid::CoolantTemp {
                    proof {
                        crate::pid::lemma_decoded_bounds(resp.pid, resp.raw_bytes@);
                    }
                    self.last_coolant_temp = resp.value_num;
                    let boost = resp.value_num as i128 >= self.config.coolant_boost_threshold as i128
                        * resp.value_den as i128;
                    if boost {
                        let base = self.config.base_rate_mhz;
                        let mult = self.config.boost_multiplier;
                        proof {
                            assert(base * mult <= u64::MAX as int * u64::MAX as int)
                                by (nonlinear_arith)
                                requires
                                    base <= u64::MAX,
                                    mult <= u64::MAX,
                            ;
                        }
                        let product = base as u128 * mult as u128;
                        item.rate_mhz = if product > u64::MAX as u128 {
                            u64::MAX
                        } else {
                            product as u64
                        };
                    } else {
                        item.rate_mhz = self.config.base_rate_mhz;
                    }
                    proof {
                        assert(item.rate_mhz > 0) by (nonlinear_arith)
                            requires
                                boost ==> item.rate_mhz == (if self.config.base_rate_mhz
                                    * self.config.boost_multiplier > u64::MAX {
                                    u64::MAX as int
                                } else {
                                    self.config.base_rate_mhz * self.config.boost_multiplier
                                }),
                                !boost ==> item.rate_mhz == self.config.base_rate_mhz,
                                self.config.base_rate_mhz > 0,
                                self.config.boost_multiplier > 0,
                        ;
                    }
                }
            },
            None => {
                item.failures = item.failures.saturating_add(1);
            },
        }
        item.schedule_next(now_ms);
        self.queue.push(item);
        proof {
            assert(self.view().drop_last() =~= old(self).view());
            assert forall|k: int| 0 <= k < self.view().len() implies (
            #[trigger] self.view()[k]).rate_mhz > 0 by {
                if k < old(self).view().len() {
                    assert(self.view()[k] == old(self).view()[k]);
                }
            }
        }
        reply.is_some()
    }

    /// Marks the scheduler running.
    pub fn start(&mut self)
        requires
            old(self).wf(),
        ensures
            final(self).wf(),
            final(self).spec_running() == true,
            final(self).view() == old(self).view(),
            final(self).spec_config() == old(self).spec_config(),
            final(self).spec_last_coolant() == old(self).spec_last_coolant(),
    {
        self.running = true;
    }

    /// Asks the running loop to stop.
    pub fn stop(&mut self)
        requires
            old(self).wf(),
        ensures
            final(self).wf(),
            final(self).spec_running() == false,
            final(self).view() == old(self).view(),
            final(self).spec_config() == old(self).spec_config(),
            final(self).spec_last_coolant() == old(self).spec_last_coolant(),
    {
        self.running = false;
    }

    /// Whether the loop should keep going.
    pub fn is_running(&self) -> (r: bool)
        ensures
            r == self.spec_running(),
    {
        self.running
    }

    /// Number of queued parameters.
    pub fn pid_count(&self) -> (r: usize)
        ensures
            r == self.view().len(),
    {
        self.queue.len()
    }
}

impl ScheduledPid {
    pub open spec fn new_spec(pid: Pid, rate_mhz: u64, now_ms: u64) -> ScheduledPid {
        ScheduledPid {
            pid,
            rate_mhz,
            next_query_ms: now_ms,
            priority: pid.spec_priority(),
            failures: 0,
        }
    }
}

} // verus!

verus! {

/// Due instant of the `k`-th query of a parameter first due at `t0` when every
/// query completes at the instant it is due.
pub open spec fn nth_due(t0: u64, rate_mhz: u64, k: nat) -> u64
    decreases k,
{
    if k == 0 {
        t0
    } else {
        later_by(nth_due(t0, rate_mhz, (k - 1) as nat), interval_of(rate_mhz))
    }
}

/// When each query completes at its due instant (as `complete_query` then
/// reschedules it), the `k`-th query is due `k` periods after the first.
pub proof fn lemma_due_times(t0: u64, rate_mhz: u64, k: nat)
    requires
        rate_mhz > 0,
        t0 + k * interval_of(rate_mhz) <= u64::MAX,
    ensures
        nth_due(t0, rate_mhz, k) == t0 + k * interval_of(rate_mhz),
    decreases k,
{
    let d = interval_of(rate_mhz);
    assert(d >= 0) by (nonlinear_arith)
        requires
            d == MILLIHERTZ_MS as int / rate_mhz as int,
            rate_mhz > 0,
    ;
    if k > 0 {
        let km = (k - 1) as nat;
        assert(km * d + d == k * d) by (nonlinear_arith)
            requires
                km == k - 1,
        ;
        assert(km * d <= k * d) by (nonlinear_arith)
            requires
                d >= 0,
                km == k - 1,
        ;
        lemma_due_times(t0, rate_mhz, km);
        assert(nth_due(t0, rate_mhz, k) == later_by(nth_due(t0, rate_mhz, km), d));
        assert(nth_due(t0, rate_mhz, km) + d == t0 + k * d);
    } else {
        assert(k * d == 0) by (nonlinear_arith)
            requires
                k == 0,
        ;
    }
}

/// Fairness for a parameter whose period is a whole number of milliseconds,
/// when each query completes at its due instant: of the queries due at
/// `t0 + k * period`, exactly the first `count` fall in a window of
/// `window_ms` from `t0`, and `count` is `floor(r * W)` or one more
/// (`r` in Hz, `W` in s).
pub proof fn lemma_fair_share(rate_mhz: u64, window_ms: nat, count: nat)
    requires
        rate_mhz > 0,
        interval_of(rate_mhz) * rate_mhz == MILLIHERTZ_MS,
        count == (window_ms + interval_of(rate_mhz) - 1) / interval_of(rate_mhz),
    ensures
        forall|k: nat| k < count ==> #[trigger] (k * interval_of(rate_mhz)) < window_ms,
        count * interval_of(rate_mhz) >= window_ms,
        rate_mhz * window_ms / MILLIHERTZ_MS as int <= count,
        count <= rate_mhz * window_ms / MILLIHERTZ_MS as int + 1,
{
    let d = interval_of(rate_mhz);
    let w = window_ms as int;
    assert(d > 0) by (nonlinear_arith)
        requires
            d * rate_mhz == 1_000_000,
            rate_mhz > 0,
    ;
    vstd::arithmetic::div_mod::lemma_fundamental_div_mod(w + d - 1, d);
    let q = (w + d - 1) / d;
    let r = (w + d - 1) % d;
    assert(w + d - 1 == d * q + r);
    assert(0 <= r < d);
    assert(q * d >= w) by (nonlinear_arith)
        requires
            w + d - 1 == d * q + r,
            r < d,
    ;
    assert((q - 1) * d < w) by (nonlinear_arith)
        requires
            w + d - 1 == d * q + r,
            0 <= r,
    ;
    assert forall|k: nat| k < count implies #[trigger] (k * d) < w by {
        assert(k * d <= (q - 1) * d) by (nonlinear_arith)
            requires
                k <= q - 1,
                d > 0,
        ;
    }
    vstd::arithmetic::div_mod::lemma_div_multiples_vanish_quotient(rate_mhz as int, w, d);
    assert(rate_mhz * d == d * rate_mhz) by (nonlinear_arith);
    assert(rate_mhz * w / (MILLIHERTZ_MS as int) == w / d);
    vstd::arithmetic::div_mod::lemma_fundamental_div_mod(w, d);
    let f = w / d;
    let m = w % d;
    assert(w == d * f + m);
    assert(f <= q && q <= f + 1) by (nonlinear_arith)
        requires
            w == d * f + m,
            0 <= m < d,
            w + d - 1 == d * q + r,
            0 <= r < d,
            d > 0,
    ;
}

} // verus!
