use vstd::prelude::*;

verus! {

/// Token-bucket settings for the HTTP surface.
#[derive(Debug, Clone, Copy, PartialEq, Eq)]
pub struct RateLimitConfig {
    /// Seconds between replenished requests.
    pub per_second: u64,
    /// Requests that may be made at once.
    pub burst_size: u32,
}

impl RateLimitConfig {
    /// Settings for sensitive endpoints.
    pub fn strict() -> (r: Self)
        ensures
            r.per_second == 4,
            r.burst_size == 2,
    {
        RateLimitConfig { per_second: 4, burst_size: 2 }
    }

    /// Settings for public endpoints.
    pub fn lenient() -> (r: Self)
        ensures
            r.per_second == 1,
            r.burst_size == 10,
    {
        RateLimitConfig { per_second: 1, burst_size: 10 }
    }
}

impl Default for RateLimitConfig {
    fn default() -> (r: Self)
        ensures
            r.per_second == 2,
            r.burst_size == 5,
    {
        RateLimitConfig { per_second: 2, burst_size: 5 }
    }
}

} // verus!
