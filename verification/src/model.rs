//! What the job service hands out.

use vstd::prelude::*;

verus! {

/// When the device was last seen, what it reported, and when it last watered.
#[derive(Debug, PartialEq, Eq)]
pub struct LastSeenResponse {
    /// Seconds since the epoch.
    pub last_seen_timestamp: i64,
    /// Thousandths of a percent.
    pub last_battery_percentage: i32,
    pub last_watering_date: String,
}

/// One job: water plant `plant_index` with `amount_ml` millilitres.
#[derive(Clone, Copy, Debug, PartialEq, Eq)]
pub struct WateringJob {
    pub plant_index: usize,
    pub amount_ml: u32,
}

/// The plan for one cycle of the device: the jobs in order, and the time to
/// sleep afterwards.
#[derive(Debug, PartialEq, Eq)]
pub struct DequeueJobs {
    pub watering_jobs: Vec<WateringJob>,
    pub sleep_recommendation_seconds: u64,
}

} // verus!
