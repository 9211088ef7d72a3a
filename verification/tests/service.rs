use evergreen::api_esp32::dequeue_jobs;
use evergreen::api_esp32::next_watering_sleep_time;
use evergreen::api_esp32::DequeueQuery;
use evergreen::api_esp32::DequeueReply;
use evergreen::api_frontend::get_plant;
use evergreen::api_frontend::last_seen;
use evergreen::api_frontend::set_plant_amount_ml;
use evergreen::api_frontend::test_watering;
use evergreen::api_frontend::test_watering_outcome;
use evergreen::api_frontend::SetAmountMlQuery;
use evergreen::api_frontend::SetAmountReply;
use evergreen::api_frontend::TestWateringReply;
use evergreen::calendar::Date;
use evergreen::calendar::DateTime;
use evergreen::config::find_plant;
use evergreen::config::same_host;
use evergreen::config::Config;
use evergreen::config::ConfigError;
use evergreen::config::ConfigFile;
use evergreen::config::ConfigManager;
use evergreen::config::HostAddr;
use evergreen::config::PlantConfig;
use evergreen::global_state::GlobalState;
use evergreen::model::DequeueJobs;
use evergreen::model::LastSeenResponse;
use evergreen::model::WateringJob;
use evergreen::state::IoFailure;
use evergreen::state::JsonState;
use evergreen::state::JsonStateManager;
use evergreen::state::StateError;
use evergreen::state::StateFile;
use evergreen::stateholder::HeldFile;
use evergreen::stateholder::State;
use evergreen::stateholder::Stateholder;
use evergreen::watering_test::Pending;
use evergreen::watering_test::PendingWateringTest;
use evergreen::watering_test::Task;

const LOCALHOST: HostAddr = HostAddr::V4(0x7f00_0001);
const DEVICE: HostAddr = HostAddr::V4(0xc0a8_0007);
// 2023-06-15 is day 19523 since the epoch.
const DAY: i32 = 19_523;
const MIDNIGHT: i64 = 19_523 * 86_400;

fn plant(name: &str, amount_ml: u32) -> PlantConfig {
    PlantConfig { amount_ml, name: name.to_string() }
}

fn config() -> Config {
    Config {
        host: None,
        port: None,
        api_secret: "let-me-in".to_string(),
        plants: vec![plant("basil", 120), plant("mint", 0), plant("basil", 30)],
    }
}

fn service() -> GlobalState {
    let mut state = GlobalState::new();
    state.config.load(ConfigFile::Valid(config()));
    state
}

fn at(seconds: i64, nanos: u32) -> DateTime {
    DateTime::new(seconds, nanos).unwrap()
}

fn query(secret: &str) -> DequeueQuery {
    DequeueQuery { accu_percentage: 87_500, api_secret: secret.to_string() }
}

fn seen(day: i32) -> JsonState {
    JsonState {
        last_planned_watering: Date { epoch_days: day },
        last_seen: at(1000, 0),
        last_accu_percentage: 1,
        last_ip: DEVICE,
    }
}

#[test]
fn config_manager_without_a_file_reports_io() {
    let manager = ConfigManager::new();
    assert_eq!(manager.get_port(), Err(ConfigError::Io));
    assert_eq!(manager.get_host(), Err(ConfigError::Io));
    assert_eq!(manager.get_api_secret(), Err(ConfigError::Io));
    assert_eq!(manager.get_plant_config(), Err(ConfigError::Io));
    assert!(!manager.is_unsaved());
}

#[test]
fn config_defaults_apply_where_nothing_is_configured() {
    let mut manager = ConfigManager::new();
    manager.load(ConfigFile::Valid(config()));
    assert_eq!(manager.get_port(), Ok(8080));
    assert_eq!(manager.get_host(), Ok(LOCALHOST));
    let mut configured = config();
    configured.port = Some(9000);
    configured.host = Some(HostAddr::V6(1));
    manager.load(ConfigFile::Valid(configured));
    assert_eq!(manager.get_port(), Ok(9000));
    assert_eq!(manager.get_host(), Ok(HostAddr::V6(1)));
    assert_eq!(manager.get_api_secret(), Ok("let-me-in".to_string()));
}

#[test]
fn config_errors_name_what_went_wrong() {
    let mut manager = ConfigManager::new();
    manager.load(ConfigFile::ReadFailed { not_found: true });
    assert_eq!(manager.get_port(), Err(ConfigError::NotFound));
    assert_eq!(manager.put_plant_amount_ml(0, 5), Err(ConfigError::NotFound));
    manager.load(ConfigFile::ReadFailed { not_found: false });
    assert_eq!(manager.get_port(), Err(ConfigError::Io));
    assert_eq!(manager.put_plant_name(0, "x".to_string()), Err(ConfigError::Io));
    manager.load(ConfigFile::Malformed);
    assert_eq!(manager.get_plant_config(), Err(ConfigError::ParseError));
    assert_eq!(manager.put_plant_amount_ml(0, 5), Err(ConfigError::ParseError2));
    assert_eq!(manager.put_plant_name(0, "x".to_string()), Err(ConfigError::ParseError2));
    manager.load(ConfigFile::OpenFailed);
    assert_eq!(manager.put_plant_amount_ml(0, 5), Err(ConfigError::Io));
    assert!(!manager.is_unsaved());
}

#[test]
fn config_changes_one_plant_and_is_unsaved() {
    let mut manager = ConfigManager::new();
    manager.load(ConfigFile::Valid(config()));
    assert_eq!(manager.put_plant_amount_ml(2, 77), Ok(()));
    assert!(manager.is_unsaved());
    assert_eq!(
        manager.get_plant_config(),
        Ok(vec![plant("basil", 120), plant("mint", 0), plant("basil", 77)])
    );
    manager.mark_saved();
    assert!(!manager.is_unsaved());
    assert_eq!(manager.put_plant_name(0, "thyme".to_string()), Ok(()));
    assert!(manager.is_unsaved());
    assert_eq!(
        manager.get_plant_config(),
        Ok(vec![plant("thyme", 120), plant("mint", 0), plant("basil", 77)])
    );
    assert_eq!(manager.get_port(), Ok(8080));
}

#[test]
fn the_first_plant_of_a_name_is_found() {
    let plants = config().plants;
    assert_eq!(find_plant(&plants, &"basil".to_string()), Some(0));
    assert_eq!(find_plant(&plants, &"mint".to_string()), Some(1));
    assert_eq!(find_plant(&plants, &"Mint".to_string()), None);
    assert_eq!(find_plant(&plants, &"".to_string()), None);
    assert_eq!(find_plant(&Vec::new(), &"basil".to_string()), None);
}

#[test]
fn addresses_compare_by_kind_and_number() {
    assert!(same_host(HostAddr::V4(1), HostAddr::V4(1)));
    assert!(!same_host(HostAddr::V4(1), HostAddr::V4(2)));
    assert!(!same_host(HostAddr::V4(1), HostAddr::V6(1)));
    assert!(same_host(HostAddr::V6(u128::MAX), HostAddr::V6(u128::MAX)));
}

#[test]
fn state_manager_without_a_file_reports_not_found() {
    let manager = JsonStateManager::new();
    assert_eq!(manager.get(), Err(StateError::Io(IoFailure::NotFound)));
    assert!(!manager.is_unsaved());
}

#[test]
fn ensure_state_sets_up_a_missing_file_only() {
    let fresh = JsonState {
        last_planned_watering: Date { epoch_days: 0 },
        last_seen: DateTime::epoch(),
        last_accu_percentage: 0,
        last_ip: LOCALHOST,
    };
    let mut manager = JsonStateManager::new();
    assert_eq!(manager.ensure_state(), Ok(fresh));
    assert!(manager.is_unsaved());
    assert_eq!(manager.get(), Ok(fresh));

    manager.load(StateFile::Unreadable);
    assert_eq!(manager.ensure_state(), Err(StateError::Io(IoFailure::Other)));
    assert_eq!(manager.get(), Err(StateError::Io(IoFailure::Other)));
    manager.load(StateFile::Malformed);
    assert_eq!(manager.ensure_state(), Err(StateError::Parse));
    assert!(!manager.is_unsaved());
    manager.load(StateFile::Valid(seen(5)));
    assert_eq!(manager.ensure_state(), Ok(seen(5)));
    assert!(!manager.is_unsaved());
}

#[test]
fn set_replaces_whatever_the_file_held() {
    let mut manager = JsonStateManager::new();
    manager.load(StateFile::Malformed);
    manager.set(seen(9));
    assert_eq!(manager.get(), Ok(seen(9)));
    assert!(manager.is_unsaved());
    manager.mark_saved();
    assert!(!manager.is_unsaved());
    assert_eq!(manager.get(), Ok(seen(9)));
}

#[test]
fn stateholder_gives_back_what_was_set() {
    let mut holder = Stateholder::new();
    assert_eq!(holder.get(), Err(evergreen::stateholder::StateError::Io(IoFailure::NotFound)));
    holder.load(HeldFile::Malformed);
    assert_eq!(holder.get(), Err(evergreen::stateholder::StateError::Parse));
    holder.load(HeldFile::Unreadable(IoFailure::Other));
    assert_eq!(holder.get(), Err(evergreen::stateholder::StateError::Io(IoFailure::Other)));
    let days = vec![Date { epoch_days: 3 }, Date { epoch_days: -4 }];
    holder.set(State { last_planned_watering: days.clone(), last_seen: at(7, 8), last_accu_percentage: 9 });
    assert_eq!(
        holder.get(),
        Ok(State { last_planned_watering: days, last_seen: at(7, 8), last_accu_percentage: 9 })
    );
}

#[test]
fn datetime_holds_what_is_in_range() {
    assert!(DateTime::new(0, 999_999_999).is_some());
    assert!(DateTime::new(0, 1_000_000_000).is_none());
    let limit = 185_542_587_187_200;
    assert!(DateTime::new(limit - 1, 0).is_some());
    assert!(DateTime::new(limit, 0).is_none());
    assert!(DateTime::new(-limit, 0).is_some());
    assert!(DateTime::new(-limit - 1, 0).is_none());
    let t = at(12, 34);
    assert_eq!(t.timestamp(), 12);
    assert_eq!(t.subsec_nanos(), 34);
}

#[test]
fn the_day_of_a_point_in_time_is_rounded_down() {
    assert_eq!(at(0, 0).date(), Date { epoch_days: 0 });
    assert_eq!(at(86_399, 999_999_999).date(), Date { epoch_days: 0 });
    assert_eq!(at(86_400, 0).date(), Date { epoch_days: 1 });
    assert_eq!(at(-1, 0).date(), Date { epoch_days: -1 });
    assert_eq!(at(-86_400, 0).date(), Date { epoch_days: -1 });
    assert_eq!(at(-86_401, 0).date(), Date { epoch_days: -2 });
    assert_eq!(at(MIDNIGHT + 36_000, 0).date(), Date { epoch_days: DAY });
    assert_eq!(at(185_542_587_187_199, 0).date(), Date { epoch_days: i32::MAX });
    assert_eq!(at(-185_542_587_187_200, 0).date(), Date { epoch_days: i32::MIN });
}

#[test]
fn a_time_of_day_is_counted_from_the_epoch() {
    assert_eq!(Date { epoch_days: 0 }.second_of(0, 0, 0), 0);
    assert_eq!(Date { epoch_days: 1 }.second_of(9, 0, 0), 86_400 + 32_400);
    assert_eq!(Date { epoch_days: -1 }.second_of(23, 59, 59), -1);
    assert_eq!(Date { epoch_days: DAY }.second_of(10, 30, 15), MIDNIGHT + 37_815);
}

#[test]
fn dates_are_written_as_the_calendar_has_them() {
    assert_eq!(Date { epoch_days: 0 }.to_text(), Some("1970-01-01".to_string()));
    assert_eq!(Date { epoch_days: DAY }.to_text(), Some("2023-06-15".to_string()));
    assert_eq!(Date { epoch_days: -1 }.to_text(), Some("1969-12-31".to_string()));
    assert_eq!(Date { epoch_days: 11_016 }.to_text(), Some("2000-02-29".to_string()));
    assert_eq!(Date { epoch_days: i32::MAX }.to_text(), None);
    assert_eq!(Date { epoch_days: i32::MIN }.to_text(), None);
}

#[test]
fn next_watering_is_at_nine_the_day_after() {
    let last = Date { epoch_days: DAY };
    let due = MIDNIGHT + 86_400 + 32_400;
    assert_eq!(next_watering_sleep_time(last, at(MIDNIGHT + 72_000, 0)), 46_800);
    assert_eq!(next_watering_sleep_time(last, at(due, 0)), 0);
    assert_eq!(next_watering_sleep_time(last, at(due + 1, 0)), -1);
    assert_eq!(next_watering_sleep_time(last, at(due + 3_600, 0)), -3_600);
}

#[test]
fn fractions_of_a_second_are_dropped_towards_zero() {
    let last = Date { epoch_days: DAY };
    let due = MIDNIGHT + 86_400 + 32_400;
    // 9.5 s to go.
    assert_eq!(next_watering_sleep_time(last, at(due - 10, 500_000_000)), 9);
    // 0.5 s to go.
    assert_eq!(next_watering_sleep_time(last, at(due - 1, 500_000_000)), 0);
    // 0.5 s overdue.
    assert_eq!(next_watering_sleep_time(last, at(due, 500_000_000)), 0);
    // 1.5 s overdue.
    assert_eq!(next_watering_sleep_time(last, at(due + 1, 500_000_000)), -1);
}

#[test]
fn dequeue_needs_a_readable_configuration() {
    let mut state = GlobalState::new();
    let reply = dequeue_jobs(&mut state, query("let-me-in"), DEVICE, at(MIDNIGHT, 0));
    assert_eq!(reply, DequeueReply::ConfigUnreadable(ConfigError::Io));
    assert_eq!(reply.status_code(), 500);
    state.config.load(ConfigFile::Malformed);
    let reply = dequeue_jobs(&mut state, query("let-me-in"), DEVICE, at(MIDNIGHT, 0));
    assert_eq!(reply, DequeueReply::ConfigUnreadable(ConfigError::ParseError));
    assert_eq!(state.json_state.get(), Err(StateError::Io(IoFailure::NotFound)));
}

#[test]
fn dequeue_turns_the_wrong_secret_down() {
    let mut state = service();
    state.pending_warting_test.set_pending_job(WateringJob { plant_index: 0, amount_ml: 1 });
    let reply = dequeue_jobs(&mut state, query("guess"), DEVICE, at(MIDNIGHT, 0));
    assert_eq!(reply, DequeueReply::Unauthorized);
    assert_eq!(reply.status_code(), 401);
    // Nothing was remembered and the test still waits.
    assert_eq!(state.json_state.get(), Err(StateError::Io(IoFailure::NotFound)));
    assert!(state.pending_warting_test.pop_pending_task().is_some());
}

#[test]
fn dequeue_plans_all_plants_when_watering_is_due() {
    let mut state = service();
    let now = at(MIDNIGHT + 36_000, 0);
    let reply = dequeue_jobs(&mut state, query("let-me-in"), DEVICE, now);
    let jobs = vec![
        WateringJob { plant_index: 0, amount_ml: 120 },
        WateringJob { plant_index: 1, amount_ml: 0 },
        WateringJob { plant_index: 2, amount_ml: 30 },
    ];
    assert_eq!(
        reply,
        DequeueReply::Jobs {
            plan: DequeueJobs { watering_jobs: jobs, sleep_recommendation_seconds: 82_800 },
            acked: None
        }
    );
    assert_eq!(reply.status_code(), 200);
    assert_eq!(
        state.json_state.get(),
        Ok(JsonState {
            last_planned_watering: Date { epoch_days: DAY },
            last_seen: now,
            last_accu_percentage: 87_500,
            last_ip: DEVICE,
        })
    );
    assert!(state.json_state.is_unsaved());
}

#[test]
fn dequeue_plans_nothing_before_watering_is_due() {
    let mut state = service();
    state.json_state.load(StateFile::Valid(seen(DAY)));
    let now = at(MIDNIGHT + 72_000, 250);
    let reply = dequeue_jobs(&mut state, query("let-me-in"), LOCALHOST, now);
    assert_eq!(
        reply,
        DequeueReply::Jobs {
            plan: DequeueJobs { watering_jobs: vec![], sleep_recommendation_seconds: 46_799 },
            acked: None
        }
    );
    assert_eq!(
        state.json_state.get(),
        Ok(JsonState {
            last_planned_watering: Date { epoch_days: DAY },
            last_seen: now,
            last_accu_percentage: 87_500,
            last_ip: LOCALHOST,
        })
    );
}

#[test]
fn dequeue_is_due_one_full_second_after_nine() {
    let due = MIDNIGHT + 86_400 + 32_400;
    for (seconds, nanos, planned) in [(due, 0, false), (due, 999_999_999, false), (due + 1, 0, true)] {
        let mut state = service();
        state.json_state.load(StateFile::Valid(seen(DAY)));
        let reply = dequeue_jobs(&mut state, query("let-me-in"), DEVICE, at(seconds, nanos));
        match reply {
            DequeueReply::Jobs { plan, acked: None } => {
                assert_eq!(plan.watering_jobs.len() == 3, planned);
                let sleep = if planned { 86_399 } else { 0 };
                assert_eq!(plan.sleep_recommendation_seconds, sleep);
            }
            other => panic!("no plan: {:?}", other),
        }
    }
}

#[test]
fn dequeue_reports_a_state_it_cannot_read() {
    let mut state = service();
    state.json_state.load(StateFile::Malformed);
    let reply = dequeue_jobs(&mut state, query("let-me-in"), DEVICE, at(MIDNIGHT, 0));
    assert_eq!(reply, DequeueReply::StateUnreadable(StateError::Parse));
    assert_eq!(reply.status_code(), 500);
    assert!(!state.json_state.is_unsaved());
}

#[test]
fn a_waiting_test_is_handed_out_alone() {
    let mut state = service();
    state.json_state.load(StateFile::Valid(seen(0)));
    let pending =
        state.pending_warting_test.set_pending_job(WateringJob { plant_index: 2, amount_ml: 30 });
    let reply = dequeue_jobs(&mut state, query("let-me-in"), DEVICE, at(MIDNIGHT, 0));
    assert_eq!(
        reply,
        DequeueReply::Jobs {
            plan: DequeueJobs {
                watering_jobs: vec![WateringJob { plant_index: 2, amount_ml: 30 }],
                sleep_recommendation_seconds: 0
            },
            acked: Some(pending.ticket)
        }
    );
    // Nothing is remembered of such a request, and the slot is empty.
    assert_eq!(state.json_state.get(), Ok(seen(0)));
    assert!(!state.json_state.is_unsaved());
    assert!(state.pending_warting_test.pop_pending_task().is_none());
}

#[test]
fn a_new_test_supersedes_the_one_that_waits() {
    let mut slot = PendingWateringTest::new();
    assert!(slot.pop_pending_task().is_none());
    let first = slot.set_pending_job(WateringJob { plant_index: 0, amount_ml: 1 });
    assert_eq!(first, Pending { ticket: 0, superseded: None });
    let second = slot.set_pending_job(WateringJob { plant_index: 1, amount_ml: 2 });
    assert_eq!(second, Pending { ticket: 1, superseded: Some(0) });
    let task = slot.pop_pending_task().unwrap();
    assert_eq!(task.destruct_and_ack(), (WateringJob { plant_index: 1, amount_ml: 2 }, 1));
    assert!(slot.pop_pending_task().is_none());
    let third = slot.set_pending_job(WateringJob { plant_index: 0, amount_ml: 3 });
    assert_eq!(third, Pending { ticket: 2, superseded: None });
}

#[test]
fn a_task_keeps_its_value_and_ticket() {
    let (task, ticket) = Task::new("water", 17);
    assert_eq!(ticket, 17);
    assert_eq!(task.destruct_and_ack(), ("water", 17));
}

#[test]
fn last_seen_reports_what_is_remembered() {
    let mut state = service();
    assert_eq!(last_seen(&state), None);
    state.json_state.load(StateFile::Valid(JsonState {
        last_planned_watering: Date { epoch_days: DAY },
        last_seen: at(MIDNIGHT + 5, 999),
        last_accu_percentage: 50_000,
        last_ip: DEVICE,
    }));
    assert_eq!(
        last_seen(&state),
        Some(LastSeenResponse {
            last_seen_timestamp: MIDNIGHT + 5,
            last_battery_percentage: 50_000,
            last_watering_date: "2023-06-15".to_string(),
        })
    );
    state.json_state.load(StateFile::Valid(seen(i32::MAX)));
    assert_eq!(last_seen(&state), None);
    state.json_state.load(StateFile::Unreadable);
    assert_eq!(last_seen(&state), None);
}

#[test]
fn get_plant_lists_the_plants() {
    let state = service();
    assert_eq!(get_plant(&state), config().plants);
}

#[test]
fn more_than_half_a_litre_is_turned_down() {
    let mut state = GlobalState::new();
    let reply = set_plant_amount_ml(&mut state, "basil".to_string(), SetAmountMlQuery { amount_ml: 501 });
    assert_eq!(reply, SetAmountReply::TooMuch);
    assert_eq!(reply.status_code(), 400);
    let reply = set_plant_amount_ml(&mut state, "basil".to_string(), SetAmountMlQuery { amount_ml: 500 });
    assert_eq!(reply, SetAmountReply::ConfigUnreadable(ConfigError::Io));
    assert_eq!(reply.status_code(), 500);
    let mut state = service();
    let reply =
        set_plant_amount_ml(&mut state, "basil".to_string(), SetAmountMlQuery { amount_ml: usize::MAX });
    assert_eq!(reply, SetAmountReply::TooMuch);
    assert!(!state.config.is_unsaved());
}

#[test]
fn the_amount_of_the_first_plant_of_that_name_is_set() {
    let mut state = service();
    let reply = set_plant_amount_ml(&mut state, "basil".to_string(), SetAmountMlQuery { amount_ml: 500 });
    assert_eq!(reply, SetAmountReply::Updated { index: 0 });
    assert_eq!(reply.status_code(), 200);
    assert!(state.config.is_unsaved());
    assert_eq!(get_plant(&state), vec![plant("basil", 500), plant("mint", 0), plant("basil", 30)]);
    let reply = set_plant_amount_ml(&mut state, "fern".to_string(), SetAmountMlQuery { amount_ml: 5 });
    assert_eq!(reply, SetAmountReply::NotFound);
    assert_eq!(reply.status_code(), 404);
    assert_eq!(get_plant(&state), vec![plant("basil", 500), plant("mint", 0), plant("basil", 30)]);
}

#[test]
fn a_test_is_only_taken_from_the_device_s_address() {
    let mut state = service();
    state.json_state.load(StateFile::Valid(seen(DAY)));
    let reply = test_watering(&mut state, "mint".to_string(), LOCALHOST);
    assert_eq!(reply, TestWateringReply::Forbidden { device: DEVICE });
    assert_eq!(reply.status_code(), Some(403));
    assert!(state.pending_warting_test.pop_pending_task().is_none());
    let reply = test_watering(&mut state, "fern".to_string(), DEVICE);
    assert_eq!(reply, TestWateringReply::PlantNotFound);
    assert_eq!(reply.status_code(), Some(400));
    let reply = test_watering(&mut state, "basil".to_string(), DEVICE);
    assert_eq!(reply, TestWateringReply::Waiting(Pending { ticket: 0, superseded: None }));
    assert_eq!(reply.status_code(), None);
    let reply = test_watering(&mut state, "mint".to_string(), DEVICE);
    assert_eq!(reply, TestWateringReply::Waiting(Pending { ticket: 1, superseded: Some(0) }));
    let task = state.pending_warting_test.pop_pending_task().unwrap();
    assert_eq!(task.destruct_and_ack(), (WateringJob { plant_index: 1, amount_ml: 0 }, 1));
}

#[test]
fn a_test_sets_up_a_missing_state_and_reports_a_broken_one() {
    let mut state = service();
    // A device that was never seen is taken to be at the local address.
    let reply = test_watering(&mut state, "basil".to_string(), LOCALHOST);
    assert_eq!(reply, TestWateringReply::Waiting(Pending { ticket: 0, superseded: None }));
    assert!(state.json_state.is_unsaved());
    assert!(state.json_state.get().is_ok());
    state.json_state.load(StateFile::Unreadable);
    let reply = test_watering(&mut state, "basil".to_string(), LOCALHOST);
    assert_eq!(reply, TestWateringReply::StateUnreadable(StateError::Io(IoFailure::Other)));
    assert_eq!(reply.status_code(), Some(500));
}

#[test]
fn the_wait_for_the_device_ends_one_of_two_ways() {
    assert_eq!(test_watering_outcome(true), TestWateringReply::Watered);
    assert_eq!(test_watering_outcome(false), TestWateringReply::Gone);
    assert_eq!(TestWateringReply::Watered.status_code(), Some(200));
    assert_eq!(TestWateringReply::Gone.status_code(), Some(410));
}
