//! The requests of the people who look after the plants.

use vstd::prelude::*;
use crate::calendar::date_text;
use crate::config::ConfigError;
use crate::config::ConfigFile;
use crate::config::HostAddr;
use crate::config::PlantConfig;
use crate::config::find_plant;
use crate::config::position_of;
use crate::config::read_error;
use crate::config::same_host;
use crate::config::with_amount;
use crate::global_state::GlobalState;
use crate::model::LastSeenResponse;
use crate::model::WateringJob;
use crate::state::StateError;
use crate::state::StateFile;
use crate::state::read_state;
use crate::api_esp32::state_for_plan;
use crate::watering_test::Pending;

verus! {

/// Most water that a plant can be set to get per day, in millilitres.
pub const MAX_AMOUNT_ML: usize = 500;

/// When the device was last seen. There is no answer without a remembered
/// state, nor where the calendar does not have the day of the last watering.
pub fn last_seen(state: &GlobalState) -> (response: Option<LastSeenResponse>)
    ensures
        match read_state(state.json_state.file()) {
            Ok(seen) => match date_text(seen.last_planned_watering.epoch_days) {
                Some(text) => {
                    &&& response matches Some(r)
                    &&& r.last_seen_timestamp == seen.last_seen.seconds()
                    &&& r.last_battery_percentage == seen.last_accu_percentage
                    &&& r.last_watering_date@ == text
                },
                None => response is None,
            },
            Err(_) => response is None,
        },
{
    let seen = match state.json_state.get() {
        Ok(seen) => seen,
        Err(_) => {
            return None;
        },
    };
    match seen.last_planned_watering.to_text() {
        Some(text) => Some(
            LastSeenResponse {
                last_seen_timestamp: seen.last_seen.timestamp(),
                last_battery_percentage: seen.last_accu_percentage,
                last_watering_date: text,
            },
        ),
        None => None,
    }
}

/// The plants, in the order of the configuration.
pub fn get_plant(state: &GlobalState) -> (plants: Vec<PlantConfig>)
    requires
        state.config.file() is Valid,
    ensures
        state.config.config() matches Some(config) && plants@ == config.plants@,
{
    match state.config.get_plant_config() {
        Ok(plants) => plants,
        Err(_) => Vec::new(),
    }
}

/// The new amount of water for a plant.
#[derive(Clone, Copy, Debug, PartialEq, Eq)]
pub struct SetAmountMlQuery {
    pub amount_ml: usize,
}

/// The answer to a request to change a plant's amount.
#[derive(Clone, Copy, Debug, PartialEq, Eq)]
pub enum SetAmountReply {
    /// More than the most that is allowed.
    TooMuch,
    /// The configuration cannot be had.
    ConfigUnreadable(ConfigError),
    /// No plant has that name.
    NotFound,
    /// The amount of plant `index` is changed.
    Updated { index: usize },
}

impl SetAmountReply {
    /// The status that goes with the answer.
    pub open spec fn spec_status_code(&self) -> u16 {
        match self {
            SetAmountReply::TooMuch => 400,
            SetAmountReply::ConfigUnreadable(_) => 500,
            SetAmountReply::NotFound => 404,
            SetAmountReply::Updated { .. } => 200,
        }
    }

    /// The status that goes with the answer.
    pub fn status_code(&self) -> (code: u16)
        ensures
            code == self.spec_status_code(),
    {
        match self {
            SetAmountReply::TooMuch => 400,
            SetAmountReply::ConfigUnreadable(_) => 500,
            SetAmountReply::NotFound => 404,
            SetAmountReply::Updated { .. } => 200,
        }
    }
}

/// Sets the daily amount of the first plant called `name`.
///
/// More than 500 ml is turned down before anything is looked at. Nothing
/// changes unless the answer is `Updated`.
pub fn set_plant_amount_ml(state: &mut GlobalState, name: String, query: SetAmountMlQuery) -> (reply:
    SetAmountReply)
    ensures
        final(state).json_state.file() == old(state).json_state.file(),
        final(state).json_state.unsaved() == old(state).json_state.unsaved(),
        final(state).same_slot(old(state)),
        !(reply is Updated) ==> final(state).same_files(old(state)),
        if query.amount_ml > MAX_AMOUNT_ML {
            reply == SetAmountReply::TooMuch
        } else {
            match old(state).config.file() {
                ConfigFile::Valid(config) => {
                    let index = position_of(config.plants@, name@);
                    if index < config.plants@.len() {
                        &&& reply == (SetAmountReply::Updated { index: index as usize })
                        &&& final(state).config.unsaved()
                        &&& final(state).config.config() matches Some(changed)
                        &&& changed.host == config.host
                        &&& changed.port == config.port
                        &&& changed.api_secret == config.api_secret
                        &&& changed.plants@ == with_amount(
                            config.plants@,
                            index,
                            query.amount_ml as u32,
                        )
                    } else {
                        reply == SetAmountReply::NotFound
                    }
                },
                _ => reply == SetAmountReply::ConfigUnreadable(
                    read_error(old(state).config.file()),
                ),
            }
        },
{
    if query.amount_ml > MAX_AMOUNT_ML {
        return SetAmountReply::TooMuch;
    }
    let plants = match state.config.get_plant_config() {
        Ok(plants) => plants,
        Err(error) => {
            return SetAmountReply::ConfigUnreadable(error);
        },
    };
    match find_plant(&plants, &name) {
        Some(index) => match state.config.put_plant_amount_ml(index, query.amount_ml as u32) {
            Ok(_) => SetAmountReply::Updated { index },
            Err(error) => SetAmountReply::ConfigUnreadable(error),
        },
        None => SetAmountReply::NotFound,
    }
}

/// The answer to a request for a test of a plant's pump.
#[derive(Clone, Copy, Debug, PartialEq, Eq)]
pub enum TestWateringReply {
    /// The remembered state cannot be had.
    StateUnreadable(StateError),
    /// The request does not come from the address of the device.
    Forbidden { device: HostAddr },
    /// No plant has that name.
    PlantNotFound,
    /// The test waits for the device.
    Waiting(Pending),
    /// Another test took the slot before the device came.
    Gone,
    /// The device picked the test up.
    Watered,
}

impl TestWateringReply {
    /// The status that goes with the answer. A test that still waits has none.
    pub open spec fn spec_status_code(&self) -> Option<u16> {
        match self {
            TestWateringReply::StateUnreadable(_) => Some(500u16),
            TestWateringReply::Forbidden { .. } => Some(403u16),
            TestWateringReply::PlantNotFound => Some(400u16),
            TestWateringReply::Waiting(_) => None,
            TestWateringReply::Gone => Some(410u16),
            TestWateringReply::Watered => Some(200u16),
        }
    }

    /// The status that goes with the answer.
    pub fn status_code(&self) -> (code: Option<u16>)
        ensures
            code == self.spec_status_code(),
    {
        match self {
            TestWateringReply::StateUnreadable(_) => Some(500),
            TestWateringReply::Forbidden { .. } => Some(403),
            TestWateringReply::PlantNotFound => Some(400),
            TestWateringReply::Waiting(_) => None,
            TestWateringReply::Gone => Some(410),
            TestWateringReply::Watered => Some(200),
        }
    }
}

/// Asks for a test of the pump of the first plant called `plantname`.
///
/// Only the address from which the device last asked for its jobs may ask
/// for a test. The test takes the slot with the plant's daily amount, and a
/// test that waited there is superseded. The remembered state is set up
/// where there was no file.
pub fn test_watering(state: &mut GlobalState, plantname: String, ip: HostAddr) -> (reply:
    TestWateringReply)
    requires
        old(state).config.file() is Valid,
    ensures
        final(state).config.file() == old(state).config.file(),
        final(state).config.unsaved() == old(state).config.unsaved(),
        !(reply is Waiting) ==> final(state).same_slot(old(state)),
        match state_for_plan(old(state).json_state.file()) {
            Err(error) => {
                &&& reply == TestWateringReply::StateUnreadable(error)
                &&& final(state).same_files(old(state))
            },
            Ok(seen) => {
                &&& final(state).json_state.file() == StateFile::Valid(seen)
                &&& if ip != seen.last_ip {
                    reply == (TestWateringReply::Forbidden { device: seen.last_ip })
                } else {
                    let plants = old(state).config.config().unwrap().plants@;
                    let index = position_of(plants, plantname@);
                    if index < plants.len() {
                        &&& reply matches TestWateringReply::Waiting(pending)
                        &&& pending.ticket == old(state).pending_warting_test.next_ticket()
                        &&& pending.superseded == match old(
                            state,
                        ).pending_warting_test.pending() {
                            Some(task) => Some(task.ticket()),
                            None => None,
                        }
                        &&& final(state).pending_warting_test.pending() matches Some(task)
                        &&& task.ticket() == pending.ticket
                        &&& task.value() == (WateringJob {
                            plant_index: index as usize,
                            amount_ml: plants[index].amount_ml,
                        })
                    } else {
                        reply == TestWateringReply::PlantNotFound
                    }
                }
            },
        },
{
    let esp32_ip = match state.json_state.ensure_state() {
        Ok(seen) => seen.last_ip,
        Err(error) => {
            return TestWateringReply::StateUnreadable(error);
        },
    };
    if !same_host(ip, esp32_ip) {
        return TestWateringReply::Forbidden { device: esp32_ip };
    }
    let plants = get_plant(state);
    match find_plant(&plants, &plantname) {
        None => TestWateringReply::PlantNotFound,
        Some(index) => {
            let watering_job = WateringJob {
                plant_index: index,
                amount_ml: plants[index].amount_ml,
            };
            TestWateringReply::Waiting(state.pending_warting_test.set_pending_job(watering_job))
        },
    }
}

/// The answer once the wait for the device is over: the test was picked up,
/// or another test took the slot.
pub fn test_watering_outcome(acknowledged: bool) -> (reply: TestWateringReply)
    ensures
        reply == if acknowledged {
            TestWateringReply::Watered
        } else {
            TestWateringReply::Gone
        },
{
    if acknowledged {
        TestWateringReply::Watered
    } else {
        TestWateringReply::Gone
    }
}

} // verus!
