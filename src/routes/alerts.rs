use vstd::prelude::*;

verus! {

/// Parameters of an alerts request.
#[derive(Debug, Clone)]
pub struct AlertQuery {
    pub severity: Option<String>,
    pub acknowledged: Option<bool>,
    pub limit: usize,
}

/// Limit of a request that names none.
pub fn default_limit() -> (r: usize)
    ensures
        r == 50,
{
    50
}

/// One alert as reported to operators.
#[derive(Debug, Clone)]
pub struct AlertRecord {
    pub id: i64,
    pub timestamp_ms: i64,
    pub fault_type: String,
    pub severity: String,
    pub message: String,
    pub acknowledged: bool,
}

/// Answer to an alerts request.
#[derive(Debug, Clone)]
pub struct AlertResponse {
    pub data: Vec<AlertRecord>,
    pub count: usize,
    pub unacknowledged_count: usize,
}

/// Number of records not acknowledged.
pub open spec fn unacknowledged(s: Seq<AlertRecord>) -> nat
    decreases s.len(),
{
    if s.len() == 0 {
        0
    } else {
        unacknowledged(s.drop_last()) + if s.last().acknowledged {
            0nat
        } else {
            1nat
        }
    }
}

/// Wraps `alerts` with its count and the number not yet acknowledged.
pub fn alert_response(alerts: Vec<AlertRecord>) -> (r: AlertResponse)
    ensures
        r.data@ == alerts@,
        r.count == alerts@.len(),
        r.unacknowledged_count == unacknowledged(alerts@),
{
    let mut unack: usize = 0;
    let mut i: usize = 0;
    assert(alerts@.take(0) =~= Seq::<AlertRecord>::empty());
    while i < alerts.len()
        invariant
            i <= alerts@.len(),
            unack == unacknowledged(alerts@.take(i as int)),
            unack <= i,
        decreases alerts.len() - i,
    {
        assert(alerts@.take(i + 1).drop_last() =~= alerts@.take(i as int));
        if !alerts[i].acknowledged {
            unack = unack + 1;
        }
        i = i + 1;
    }
    assert(alerts@.take(alerts@.len() as int) =~= alerts@);
    let count = alerts.len();
    AlertResponse { data: alerts, count, unacknowledged_count: unack }
}

} // verus!
