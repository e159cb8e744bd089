use vstd::prelude::*;
use crate::repository::{Repository, SensorRecord, first_n, records_since};

verus! {

/// Most records one live-sensor request returns.
pub const MAX_LIMIT: usize = 1000;

/// Parameters of a live-sensor request.
#[derive(Debug, Clone, Copy, PartialEq, Eq)]
pub struct SensorQuery {
    /// Most records to return.
    pub limit: usize,
    /// Return the records stamped from this instant (ms) on instead.
    pub since: Option<i64>,
}

/// Limit of a request that names none.
pub fn default_limit() -> (r: usize)
    ensures
        r == 100,
{
    100
}

/// Count and effective limit of a live-sensor answer.
#[derive(Debug, Clone, Copy, PartialEq, Eq)]
pub struct SensorMeta {
    pub count: usize,
    pub limit: usize,
}

/// Answer to a live-sensor request.
#[derive(Debug, Clone)]
pub struct SensorResponse {
    pub data: Vec<SensorRecord>,
    pub meta: SensorMeta,
}

/// Answers `params` from `repo`: the records since the given instant, oldest
/// first, or else the newest `min(limit, 1000)` records, newest first.
pub fn get_live(repo: &Repository, params: &SensorQuery) -> (r: SensorResponse)
    ensures
        r.meta.limit == if params.limit < MAX_LIMIT {
            params.limit
        } else {
            MAX_LIMIT
        },
        r.data@ == match params.since {
            Some(since) => records_since(repo.sensors(), since),
            None => first_n(repo.sensors().reverse(), r.meta.limit as int),
        },
        r.meta.count == r.data@.len(),
{
    let limit = if params.limit < MAX_LIMIT {
        params.limit
    } else {
        MAX_LIMIT
    };
    let data = match params.since {
        Some(since) => repo.get_sensors_since(since),
        None => repo.get_sensors(limit),
    };
    let count = data.len();
    SensorResponse { data, meta: SensorMeta { count, limit } }
}

} // verus!
