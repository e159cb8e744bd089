use vstd::prelude::*;
use std::collections::VecDeque;
use crate::ring_buffer::keep_last;

verus! {

/// One stored sensor reading.
#[derive(Debug, Clone, Copy, PartialEq, Eq)]
pub struct SensorRecord {
    pub timestamp_ms: i64,
    pub rpm: i32,
    pub speed: i32,
    pub coolant_temp: i32,
    pub engine_load: i32,
    /// Mass air flow, hundredths of g/s.
    pub maf: i64,
    /// Short-term fuel trim, hundredths of a percent.
    pub fuel_trim_short: i64,
    /// Long-term fuel trim, hundredths of a percent.
    pub fuel_trim_long: i64,
}

impl Default for SensorRecord {
    fn default() -> (r: SensorRecord)
        ensures
            r == (SensorRecord {
                timestamp_ms: 0,
                rpm: 0,
                speed: 0,
                coolant_temp: 0,
                engine_load: 0,
                maf: 0,
                fuel_trim_short: 0,
                fuel_trim_long: 0,
            }),
    {
        SensorRecord {
            timestamp_ms: 0,
            rpm: 0,
            speed: 0,
            coolant_temp: 0,
            engine_load: 0,
            maf: 0,
            fuel_trim_short: 0,
            fuel_trim_long: 0,
        }
    }
}

/// One stored prediction.
#[derive(Debug)]
pub struct PredictionRecord {
    pub id: i64,
    pub timestamp_ms: i64,
    pub fault_class: String,
    /// Confidence in basis points.
    pub confidence: u32,
    pub severity: String,
}

impl Clone for PredictionRecord {
    fn clone(&self) -> (r: PredictionRecord)
        ensures
            r == *self,
    {
        PredictionRecord {
            id: self.id,
            timestamp_ms: self.timestamp_ms,
            fault_class: self.fault_class.clone(),
            confidence: self.confidence,
            severity: self.severity.clone(),
        }
    }
}

/// Records stamped at or after `since`, oldest first.
pub open spec fn records_since(s: Seq<SensorRecord>, since: i64) -> Seq<SensorRecord>
    decreases s.len(),
{
    if s.len() == 0 {
        Seq::empty()
    } else if s.last().timestamp_ms >= since {
        records_since(s.drop_last(), since).push(s.last())
    } else {
        records_since(s.drop_last(), since)
    }
}

/// Whether a prediction passes the optional severity filter.
pub open spec fn severity_matches(p: PredictionRecord, severity: Option<Seq<char>>) -> bool {
    match severity {
        Some(s) => p.severity@ == s,
        None => true,
    }
}

/// Predictions passing the filter, newest first.
pub open spec fn newest_matching(s: Seq<PredictionRecord>, severity: Option<Seq<char>>) -> Seq<
    PredictionRecord,
>
    decreases s.len(),
{
    if s.len() == 0 {
        Seq::empty()
    } else if severity_matches(s[0], severity) {
        newest_matching(s.drop_first(), severity).push(s[0])
    } else {
        newest_matching(s.drop_first(), severity)
    }
}

/// The first `n` items of `s` (all of them when it is shorter).
pub open spec fn first_n<T>(s: Seq<T>, n: int) -> Seq<T> {
    if n < s.len() {
        s.take(n)
    } else {
        s
    }
}

/// Bounded in-memory store of recent sensor readings and predictions.
pub struct Repository {
    sensor_log: VecDeque<SensorRecord>,
    predictions: Vec<PredictionRecord>,
    max_sensor_records: usize,
    max_prediction_records: usize,
    next_prediction_id: i64,
}

impl Repository {
    pub open spec fn wf(&self) -> bool {
        &&& self.spec_max_sensors() > 0
        &&& self.spec_max_predictions() > 0
        &&& self.sensors().len() <= self.spec_max_sensors()
        &&& self.predictions().len() <= self.spec_max_predictions()
    }

    /// Stored sensor readings, oldest first.
    pub closed spec fn sensors(&self) -> Seq<SensorRecord> {
        self.sensor_log@
    }

    /// Stored predictions, oldest first.
    pub closed spec fn predictions(&self) -> Seq<PredictionRecord> {
        self.predictions@
    }

    pub closed spec fn spec_max_sensors(&self) -> nat {
        self.max_sensor_records as nat
    }

    pub closed spec fn spec_max_predictions(&self) -> nat {
        self.max_prediction_records as nat
    }

    /// Id the next stored prediction gets.
    pub closed spec fn spec_next_id(&self) -> i64 {
        self.next_prediction_id
    }

    /// An empty store keeping 100 000 readings and 10 000 predictions.
    pub fn new() -> (r: Repository)
        ensures
            r.wf(),
            r.sensors().len() == 0,
            r.predictions().len() == 0,
            r.spec_max_sensors() == 100_000,
            r.spec_max_predictions() == 10_000,
            r.spec_next_id() == 1,
    {
        Repository::with_limits(100_000, 10_000)
    }

    /// An empty store keeping at most the given numbers of records.
    pub fn with_limits(max_sensor_records: usize, max_prediction_records: usize) -> (r: Repository)
        requires
            max_sensor_records > 0,
            max_prediction_records > 0,
        ensures
            r.wf(),
            r.sensors().len() == 0,
            r.predictions().len() == 0,
            r.spec_max_sensors() == max_sensor_records,
            r.spec_max_predictions() == max_prediction_records,
            r.spec_next_id() == 1,
    {
        Repository {
            sensor_log: VecDeque::new(),
            predictions: Vec::new(),
            max_sensor_records,
            max_prediction_records,
            next_prediction_id: 1,
        }
    }

    /// Stores `record`, dropping the oldest readings beyond the limit.
    pub fn insert_sensor(&mut self, record: SensorRecord)
        requires
            old(self).wf(),
        ensures
            final(self).wf(),
            final(self).sensors() == keep_last(
                old(self).sensors().push(record),
                old(self).spec_max_sensors(),
            ),
            final(self).predictions() == old(self).predictions(),
            final(self).spec_max_sensors() == old(self).spec_max_sensors(),
            final(self).spec_max_predictions() == old(self).spec_max_predictions(),
            final(self).spec_next_id() == old(self).spec_next_id(),
    {
        let ghost full = old(self).sensor_log@.push(record);
        let ghost max = self.max_sensor_records as nat;
        while self.sensor_log.len() >= self.max_sensor_records
            invariant
                self.max_sensor_records == old(self).max_sensor_records,
                self.max_prediction_records == old(self).max_prediction_records,
                self.predictions@ == old(self).predictions@,
                self.next_prediction_id == old(self).next_prediction_id,
                max == self.max_sensor_records,
                max > 0,
                self.sensor_log@.len() <= max,
                self.sensor_log@.len() + 1 <= full.len(),
                self.sensor_log@.len() + 1 == full.len() || self.sensor_log@.len() + 1 == max,
                self.sensor_log@.push(record) == keep_last(full, (self.sensor_log@.len() + 1) as nat),
            decreases self.sensor_log@.len(),
        {
            let _ = self.sensor_log.pop_front();
            assert(self.sensor_log@.push(record) =~= keep_last(
                full,
                (self.sensor_log@.len() + 1) as nat,
            ));
        }
        self.sensor_log.push_back(record);
        assert(keep_last(full, max) =~= keep_last(full, self.sensor_log@.len()));
        assert(self.sensor_log@ =~= keep_last(full, max));
    }

    /// Stores `record` under the next id and returns that id, dropping the
    /// oldest prediction when the store is full.
    pub fn insert_prediction(&mut self, record: PredictionRecord) -> (r: i64)
        requires
            old(self).wf(),
            old(self).spec_next_id() < i64::MAX,
        ensures
            final(self).wf(),
            r == old(self).spec_next_id(),
            final(self).spec_next_id() == r + 1,
            final(self).predictions() == (if old(self).predictions().len() >= old(self).spec_max_predictions() {
                old(self).predictions().drop_first()
            } else {
                old(self).predictions()
            }).push(PredictionRecord { id: r, ..record }),
            final(self).sensors() == old(self).sensors(),
            final(self).spec_max_sensors() == old(self).spec_max_sensors(),
            final(self).spec_max_predictions() == old(self).spec_max_predictions(),
    {
        let mut record = record;
        let id = self.next_prediction_id;
        record.id = id;
        self.next_prediction_id = id + 1;
        if self.predictions.len() >= self.max_prediction_records {
            let _ = self.predictions.remove(0);
        }
        self.predictions.push(record);
        id
    }

    /// The newest `limit` readings (all when fewer are stored), newest first.
    pub fn get_sensors(&self, limit: usize) -> (r: Vec<SensorRecord>)
        ensures
            r@ == first_n(self.sensors().reverse(), limit as int),
    {
        let n = self.sensor_log.len();
        let k = if limit < n {
            limit
        } else {
            n
        };
        let mut out: Vec<SensorRecord> = Vec::new();
        let mut i: usize = 0;
        while i < k
            invariant
                n == self.sensors().len(),
                k <= n,
                i <= k,
                out@ == self.sensors().reverse().take(i as int),
            decreases k - i,
        {
            out.push(self.sensor_log[n - 1 - i]);
            i = i + 1;
            assert(out@ =~= self.sensors().reverse().take(i as int));
        }
        assert(k == n ==> self.sensors().reverse().take(k as int) =~= self.sensors().reverse());
        out
    }

    /// Readings stamped at or after `since_ms`, oldest first.
    pub fn get_sensors_since(&self, since_ms: i64) -> (r: Vec<SensorRecord>)
        ensures
            r@ == records_since(self.sensors(), since_ms),
    {
        let n = self.sensor_log.len();
        let mut out: Vec<SensorRecord> = Vec::new();
        let mut i: usize = 0;
        assert(self.sensors().take(0) =~= Seq::<SensorRecord>::empty());
        while i < n
            invariant
                n == self.sensors().len(),
                i <= n,
                out@ == records_since(self.sensors().take(i as int), since_ms),
            decreases n - i,
        {
            let rec = self.sensor_log[i];
            assert(self.sensors().take(i + 1).drop_last() =~= self.sensors().take(i as int));
            if rec.timestamp_ms >= since_ms {
                out.push(rec);
            }
            i = i + 1;
        }
        assert(self.sensors().take(n as int) =~= self.sensors());
        out
    }

    /// The newest `limit` predictions whose severity is `severity` (any when
    /// `None`), newest first.
    pub fn get_predictions(&self, severity: Option<&str>, limit: usize) -> (r: Vec<PredictionRecord>)
        ensures
            r@ == first_n(
                newest_matching(
                    self.predictions(),
                    match severity {
                        Some(s) => Some(s@),
                        None => None,
                    },
                ),
                limit as int,
            ),
    {
        let ghost sev = match severity {
            Some(s) => Some(s@),
            None => None::<Seq<char>>,
        };
        let wanted: Option<String> = match severity {
            Some(s) => Some(s.to_owned()),
            None => None,
        };
        let n = self.predictions.len();
        let mut out: Vec<PredictionRecord> = Vec::new();
        let mut j: usize = n;
        assert(self.predictions().subrange(n as int, n as int) =~= Seq::<PredictionRecord>::empty());
        while j > 0
            invariant
                n == self.predictions().len(),
                j <= n,
                sev == match severity {
                    Some(s) => Some(s@),
                    None => None::<Seq<char>>,
                },
                wanted matches Some(w) ==> sev == Some(w@),
                wanted is None ==> sev is None,
                out@ == newest_matching(self.predictions().subrange(j as int, n as int), sev),
            decreases j,
        {
            let p = &self.predictions[j - 1];
            let keep = match &wanted {
                Some(w) => p.severity == *w,
                None => true,
            };
            assert(self.predictions().subrange(j - 1, n as int).drop_first() =~= self.predictions().subrange(
                j as int,
                n as int,
            ));
            if keep {
                out.push(p.clone());
            }
            j = j - 1;
        }
        assert(self.predictions().subrange(0, n as int) =~= self.predictions());
        if limit < out.len() {
            out.truncate(limit);
        }
        out
    }

    /// Number of stored readings.
    pub fn sensor_count(&self) -> (r: usize)
        ensures
            r == self.sensors().len(),
    {
        self.sensor_log.len()
    }

    /// Number of stored predictions.
    pub fn prediction_count(&self) -> (r: usize)
        ensures
            r == self.predictions().len(),
    {
        self.predictions.len()
    }

    /// Drops every stored record; ids keep counting.
    pub fn clear(&mut self)
        requires
            old(self).wf(),
        ensures
            final(self).wf(),
            final(self).sensors().len() == 0,
            final(self).predictions().len() == 0,
            final(self).spec_max_sensors() == old(self).spec_max_sensors(),
            final(self).spec_max_predictions() == old(self).spec_max_predictions(),
            final(self).spec_next_id() == old(self).spec_next_id(),
    {
        self.sensor_log.clear();
        self.predictions.clear();
    }
}

} // verus!
