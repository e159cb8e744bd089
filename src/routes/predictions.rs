use vstd::prelude::*;
use crate::repository::{PredictionRecord, Repository, first_n, newest_matching};

verus! {

/// Most records one predictions request returns.
pub const MAX_LIMIT: usize = 500;

/// Parameters of a predictions request.
#[derive(Debug, Clone)]
pub struct PredictionQuery {
    /// Only predictions of this severity.
    pub severity: Option<String>,
    /// Most records to return.
    pub limit: usize,
}

/// Limit of a request that names none.
pub fn default_limit() -> (r: usize)
    ensures
        r == 50,
{
    50
}

/// Answer to a predictions request.
#[derive(Debug, Clone)]
pub struct PredictionResponse {
    pub data: Vec<PredictionRecord>,
    pub count: usize,
}

/// Answers `params` from `repo`: the newest `min(limit, 500)` predictions of
/// the requested severity (any when none is given), newest first.
pub fn get_predictions(repo: &Repository, params: &PredictionQuery) -> (r: PredictionResponse)
    ensures
        r.data@ == first_n(
            newest_matching(
                repo.predictions(),
                match params.severity {
                    Some(s) => Some(s@),
                    None => None,
                },
            ),
            if params.limit < MAX_LIMIT {
                params.limit as int
            } else {
                MAX_LIMIT as int
            },
        ),
        r.count == r.data@.len(),
{
    let limit = if params.limit < MAX_LIMIT {
        params.limit
    } else {
        MAX_LIMIT
    };
    let severity: Option<&str> = match &params.severity {
        Some(s) => Some(s.as_str()),
        None => None,
    };
    let data = repo.get_predictions(severity, limit);
    let count = data.len();
    PredictionResponse { data, count }
}

} // verus!
