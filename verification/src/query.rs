//! The watering plan as the device receives it from the job service.

use vstd::prelude::*;

verus! {

/// Most bytes of a response that the device reads.
pub const RESPONSE_BUFFER_LEN: usize = 128;

/// Why no plan was obtained.
#[derive(Clone, Copy, Debug, PartialEq, Eq)]
pub enum QueryError {
    /// The service could not be reached or the response could not be read.
    Connection,
    /// The response was not a plan.
    UnexpectedResponse,
}

/// One job of the plan: water plant `plant_index` with `amount_ml` millilitres.
#[derive(Clone, Copy, Debug, PartialEq, Eq)]
pub struct ServerWateringJob {
    pub plant_index: usize,
    pub amount_ml: usize,
}

/// The plan: the jobs in the order in which they are to be done, and the
/// time that the service recommends to sleep afterwards.
#[derive(Clone, Debug, PartialEq, Eq)]
pub struct DequeueJobs {
    pub watering_jobs: Vec<ServerWateringJob>,
    pub sleep_recommendation_seconds: u64,
}

/// What came of the request to the service.
#[derive(Clone, Debug, PartialEq, Eq)]
pub enum FetchReply {
    /// The response could not be read.
    ReadFailed,
    /// The response was read but is no plan.
    Malformed,
    /// The response holds this plan.
    Plan(DequeueJobs),
}

/// The plan that a reply holds, or the error that it stands for.
pub open spec fn spec_fetch_jobs(reply: FetchReply) -> Result<DequeueJobs, QueryError> {
    match reply {
        FetchReply::ReadFailed => Err(QueryError::Connection),
        FetchReply::Malformed => Err(QueryError::UnexpectedResponse),
        FetchReply::Plan(plan) => Ok(plan),
    }
}

/// Turns the reply of the service into the plan or the error that is handed on:
/// a response that could not be read is a connection error, one that is no
/// plan is an unexpected response.
pub fn fetch_jobs(reply: FetchReply) -> (plan: Result<DequeueJobs, QueryError>)
    ensures
        plan == spec_fetch_jobs(reply),
{
    match reply {
        FetchReply::ReadFailed => Err(QueryError::Connection),
        FetchReply::Malformed => Err(QueryError::UnexpectedResponse),
        FetchReply::Plan(plan) => Ok(plan),
    }
}

/// Number of bytes of a response of `available` bytes that the device reads.
pub fn response_window(available: usize) -> (read: usize)
    ensures
        read <= RESPONSE_BUFFER_LEN,
        read <= available,
        read == available || read == RESPONSE_BUFFER_LEN,
{
    if available < RESPONSE_BUFFER_LEN {
        available
    } else {
        RESPONSE_BUFFER_LEN
    }
}

} // verus!
