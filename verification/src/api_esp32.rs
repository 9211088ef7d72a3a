//! The request of the device for its jobs.

use vstd::prelude::*;
use crate::calendar::Date;
use crate::calendar::DateTime;
use crate::calendar::SECONDS_PER_DAY;
use crate::config::ConfigError;
use crate::config::ConfigFile;
use crate::config::HostAddr;
use crate::config::PlantConfig;
use crate::config::read_error;
use crate::global_state::GlobalState;
use crate::model::DequeueJobs;
use crate::model::WateringJob;
use crate::state::JsonState;
use crate::state::StateError;
use crate::state::StateFile;
use crate::state::default_state;
use crate::state::read_state;

verus! {

/// Hour of the day at which the plants are watered.
pub const WATERING_HOUR: u8 = 9;

/// The seconds from `now` to the next watering after the one planned for
/// `last_date`, which is due at nine o'clock of the day after. The time is
/// negative once the watering is overdue by a full second. Fractions of a
/// second are dropped towards zero.
pub open spec fn spec_next_watering_sleep_time(last_date: Date, now: DateTime) -> int {
    let next = last_date.spec_second_of(WATERING_HOUR, 0, 0) + SECONDS_PER_DAY;
    let whole = next - now.seconds();
    if now.nanos() > 0 && whole > 0 {
        whole - 1
    } else {
        whole
    }
}

/// The seconds from `now` to the next watering after the one planned for
/// `last_date`.
pub fn next_watering_sleep_time(last_date: Date, now: DateTime) -> (seconds: i64)
    ensures
        seconds == spec_next_watering_sleep_time(last_date, now),
{
    let next = last_date.second_of(WATERING_HOUR, 0, 0) + SECONDS_PER_DAY;
    let whole = next - now.timestamp();
    if now.subsec_nanos() > 0 && whole > 0 {
        whole - 1
    } else {
        whole
    }
}

/// What the device sends along.
#[derive(Debug, PartialEq, Eq)]
pub struct DequeueQuery {
    /// The charge of its battery, in thousandths of a percent.
    pub accu_percentage: i32,
    /// What it presents to be let in.
    pub api_secret: String,
}

/// The answer to the device.
#[derive(Debug, PartialEq, Eq)]
pub enum DequeueReply {
    /// The configuration cannot be had.
    ConfigUnreadable(ConfigError),
    /// The device presented the wrong secret.
    Unauthorized,
    /// The remembered state cannot be had.
    StateUnreadable(StateError),
    /// The plan. Where it is a test job, `acked` is the ticket of whoever
    /// waits for the test to be picked up.
    Jobs { plan: DequeueJobs, acked: Option<u64> },
}

impl DequeueReply {
    /// The status that goes with the answer.
    pub open spec fn spec_status_code(&self) -> u16 {
        match self {
            DequeueReply::ConfigUnreadable(_) => 500,
            DequeueReply::Unauthorized => 401,
            DequeueReply::StateUnreadable(_) => 500,
            DequeueReply::Jobs { .. } => 200,
        }
    }

    /// The status that goes with the answer.
    pub fn status_code(&self) -> (code: u16)
        ensures
            code == self.spec_status_code(),
    {
        match self {
            DequeueReply::ConfigUnreadable(_) => 500,
            DequeueReply::Unauthorized => 401,
            DequeueReply::StateUnreadable(_) => 500,
            DequeueReply::Jobs { .. } => 200,
        }
    }
}

/// One job for each plant, in the order of the configuration, with the
/// plant's daily amount.
pub open spec fn jobs_for(plants: Seq<PlantConfig>) -> Seq<WateringJob> {
    Seq::new(
        plants.len(),
        |i: int| WateringJob { plant_index: i as usize, amount_ml: plants[i].amount_ml },
    )
}

/// Watering is due: the time to the next watering is negative.
pub open spec fn watering_due(state: JsonState, now: DateTime) -> bool {
    spec_next_watering_sleep_time(state.last_planned_watering, now) < 0
}

/// What is remembered after the device asked at `now` from `ip` with the
/// charge `accu_percentage`: the watering is planned for today where it
/// was due.
pub open spec fn seen_state(state: JsonState, accu_percentage: i32, ip: HostAddr, now: DateTime)
    -> JsonState {
    JsonState {
        last_planned_watering: if watering_due(state, now) {
            now.spec_date()
        } else {
            state.last_planned_watering
        },
        last_seen: now,
        last_accu_percentage: accu_percentage,
        last_ip: ip,
    }
}

/// The jobs that the device gets: all of them where watering is due, none
/// otherwise.
pub open spec fn planned_jobs(state: JsonState, plants: Seq<PlantConfig>, now: DateTime) -> Seq<
    WateringJob,
> {
    if watering_due(state, now) {
        jobs_for(plants)
    } else {
        Seq::empty()
    }
}

/// The seconds that the device is told to sleep: the time to the next
/// watering, and none where that is overdue.
pub open spec fn sleep_recommendation(state: JsonState, now: DateTime) -> u64 {
    let seconds = spec_next_watering_sleep_time(state.last_planned_watering, now);
    if seconds < 0 {
        0
    } else {
        seconds as u64
    }
}

/// A watering that is due is planned once: right after the device was seen,
/// watering is no longer due, and the device is told to sleep for at least
/// nine and at most thirty-three hours.
pub proof fn lemma_due_watering_is_planned_once(
    state: JsonState,
    accu_percentage: i32,
    ip: HostAddr,
    now: DateTime,
)
    requires
        now.wf(),
        watering_due(state, now),
    ensures
        !watering_due(seen_state(state, accu_percentage, ip, now), now),
        9 * 3600 <= sleep_recommendation(seen_state(state, accu_percentage, ip, now), now) <= 33
            * 3600,
{
    let seconds = now.seconds() as int;
    let day = seconds / 86_400;
    assert(day * 86_400 <= seconds < day * 86_400 + 86_400);
    assert(-0x8000_0000 <= day <= 0x7fff_ffff);
}

/// Before a watering is due, the plan is empty and the device is told to
/// sleep exactly until it is.
pub proof fn lemma_early_request_waits(
    state: JsonState,
    plants: Seq<PlantConfig>,
    accu_percentage: i32,
    ip: HostAddr,
    now: DateTime,
)
    requires
        !watering_due(state, now),
    ensures
        planned_jobs(state, plants, now).len() == 0,
        seen_state(state, accu_percentage, ip, now).last_planned_watering
            == state.last_planned_watering,
        sleep_recommendation(seen_state(state, accu_percentage, ip, now), now)
            == spec_next_watering_sleep_time(state.last_planned_watering, now),
{
}

/// The state from which a plan is made: the remembered one, or that of a
/// device never seen where there is no file.
pub open spec fn state_for_plan(file: StateFile) -> Result<JsonState, StateError> {
    match file {
        StateFile::Missing => Ok(default_state()),
        _ => read_state(file),
    }
}

fn make_jobs(plants: &Vec<PlantConfig>) -> (jobs: Vec<WateringJob>)
    ensures
        jobs@ == jobs_for(plants@),
{
    let mut jobs: Vec<WateringJob> = Vec::new();
    let mut i: usize = 0;
    while i < plants.len()
        invariant
            i <= plants@.len(),
            jobs@.len() == i,
            forall|k: int| 0 <= k < i ==> jobs@[k] == jobs_for(plants@)[k],
        decreases plants@.len() - i,
    {
        jobs.push(WateringJob { plant_index: i, amount_ml: plants[i].amount_ml });
        i += 1;
    }
    assert(jobs@ =~= jobs_for(plants@));
    jobs
}

/// Answers the device's request for its jobs.
///
/// Nothing is handed out without a readable configuration and the right
/// secret. A test job that waits is handed out alone, with no sleep after
/// it, and its ticket is acknowledged; nothing is remembered of such a
/// request. Otherwise the device gets one job per plant if watering is due
/// and none if it is not, is told to sleep until the next watering, and the
/// request is remembered.
pub fn dequeue_jobs(state: &mut GlobalState, query: DequeueQuery, ip: HostAddr, now: DateTime) -> (reply:
    DequeueReply)
    ensures
        final(state).config.file() == old(state).config.file(),
        final(state).config.unsaved() == old(state).config.unsaved(),
        match old(state).config.file() {
            ConfigFile::Valid(config) => if config.api_secret@ != query.api_secret@ {
                &&& reply == DequeueReply::Unauthorized
                &&& final(state).same_files(old(state))
                &&& final(state).same_slot(old(state))
            } else {
                match old(state).pending_warting_test.pending() {
                    Some(task) => {
                        &&& reply matches DequeueReply::Jobs { plan, acked }
                        &&& plan.watering_jobs@ == seq![task.value()]
                        &&& plan.sleep_recommendation_seconds == 0
                        &&& acked == Some(task.ticket())
                        &&& final(state).same_files(old(state))
                        &&& final(state).pending_warting_test.pending() is None
                    },
                    None => {
                        &&& final(state).same_slot(old(state))
                        &&& match state_for_plan(old(state).json_state.file()) {
                            Err(error) => {
                                &&& reply == DequeueReply::StateUnreadable(error)
                                &&& final(state).same_files(old(state))
                            },
                            Ok(before) => {
                                &&& reply matches DequeueReply::Jobs { plan, acked }
                                &&& acked is None
                                &&& plan.watering_jobs@ == planned_jobs(before, config.plants@, now)
                                &&& plan.sleep_recommendation_seconds == sleep_recommendation(
                                    seen_state(before, query.accu_percentage, ip, now),
                                    now,
                                )
                                &&& final(state).json_state.file() == StateFile::Valid(
                                    seen_state(before, query.accu_percentage, ip, now),
                                )
                                &&& final(state).json_state.unsaved()
                            },
                        }
                    },
                }
            },
            _ => {
                &&& reply == DequeueReply::ConfigUnreadable(read_error(old(state).config.file()))
                &&& final(state).same_files(old(state))
                &&& final(state).same_slot(old(state))
            },
        },
{
    let expected_secret = match state.config.get_api_secret() {
        Ok(secret) => secret,
        Err(error) => {
            return DequeueReply::ConfigUnreadable(error);
        },
    };
    if expected_secret != query.api_secret {
        return DequeueReply::Unauthorized;
    }
    // A test job that waits goes first, and alone.
    match state.pending_warting_test.pop_pending_task() {
        Some(task) => {
            let (job, ticket) = task.destruct_and_ack();
            let mut jobs: Vec<WateringJob> = Vec::new();
            jobs.push(job);
            assert(jobs@ =~= seq![job]);
            return DequeueReply::Jobs {
                plan: DequeueJobs { watering_jobs: jobs, sleep_recommendation_seconds: 0 },
                acked: Some(ticket),
            };
        },
        None => {},
    }
    let mut json_state = match state.json_state.ensure_state() {
        Ok(json_state) => json_state,
        Err(error) => {
            return DequeueReply::StateUnreadable(error);
        },
    };
    let plant_config = match state.config.get_plant_config() {
        Ok(plants) => plants,
        Err(error) => {
            return DequeueReply::ConfigUnreadable(error);
        },
    };
    let watering_sleep_time_sec = next_watering_sleep_time(json_state.last_planned_watering, now);
    let jobs: Vec<WateringJob> = if watering_sleep_time_sec < 0 {
        json_state.last_planned_watering = now.date();
        make_jobs(&plant_config)
    } else {
        Vec::new()
    };
    json_state.last_seen = now;
    json_state.last_ip = ip;
    json_state.last_accu_percentage = query.accu_percentage;
    state.json_state.set(json_state);
    let sleep_recommendation = next_watering_sleep_time(json_state.last_planned_watering, now);
    let sleep_recommendation_seconds: u64 = if sleep_recommendation < 0 {
        0
    } else {
        sleep_recommendation as u64
    };
    DequeueReply::Jobs {
        plan: DequeueJobs { watering_jobs: jobs, sleep_recommendation_seconds },
        acked: None,
    }
}

} // verus!
