//! One cycle of the device: measure the battery, connect, fetch the plan,
//! water, and choose how long to sleep.
//!
//! The cycle is a state machine. The caller does what each action asks for
//! and reports the result as an event. Whatever fails, the cycle ends with a
//! sleep time and an indicator state, and with every pump output
//! de-energized.

use vstd::prelude::*;
use crate::accu::Accu;
use crate::accu::pack_to_single_cell;
use crate::accu::single_nimh_cell_volt_to_percent;
use crate::accu::spec_pack_to_single_cell;
use crate::accu::spec_single_nimh_cell_volt_to_percent;
use crate::pumps::PumpCommand;
use crate::pumps::PumpEvent;
use crate::pumps::PumpPhase;
use crate::pumps::PumpRun;
use crate::pumps::Pumps;
use crate::pumps::PumpStep;
use crate::pumps::idle_run;
use crate::pumps::lemma_ramp_bounds;
use crate::pumps::lemma_step_keeps_consistent;
use crate::pumps::pending_command;
use crate::pumps::run_wf;
use crate::pumps::spec_step;
use crate::pumps::started_run;
use crate::query::DequeueJobs;
use crate::query::QueryError;
use crate::query::ServerWateringJob;
use crate::status_signaler::StatusSignaler;
use crate::status_signaler::digits;
use crate::wifi_connect::WifiErr;

verus! {

/// Number shown while the link comes up.
pub const SIGNAL_WHILE_WIFI: u8 = 1;

/// Number shown while the plan is fetched.
pub const SIGNAL_WHILE_FETCH: u8 = 2;

/// Number shown while the pumps run.
pub const SIGNAL_WHILE_WATERING: u8 = 4;

/// Sleep after a failure of the link or of the service, in seconds.
pub const ERROR_SLEEP_SECONDS: u64 = 7200;

/// Time for which the error state is shown before the device sleeps, in seconds.
pub const ERROR_SHOW_RED_LED_SECONDS: u64 = 15;

/// Time for which the all-clear is shown before the device sleeps, in seconds.
pub const SUCCESS_SHOW_SECONDS: u64 = 7;

/// Time allowed for the link to come up, in seconds.
pub const WIFI_TIMEOUT_SECONDS: u64 = 10;

/// Number of cells in series in the battery pack.
pub const ACCU_NIMH_CELLS_IN_ROW: u32 = 8;

/// Where the cycle stands.
#[derive(Clone, Copy, Debug, PartialEq, Eq)]
pub enum CyclePhase {
    Boot,
    MeasureBattery,
    ConnectNetwork,
    FetchJobs,
    Water,
    PersistAndSleep,
}

/// The state in which the indicator is left.
#[derive(Clone, Copy, Debug, PartialEq, Eq)]
pub enum Indicator {
    /// The red light is on.
    Error,
    /// Every green light is on.
    AllClear,
}

/// How the cycle ends: the indicator is shown for `show_seconds`, then the
/// device sleeps for `sleep_seconds`.
#[derive(Clone, Copy, Debug, PartialEq, Eq)]
pub struct CycleOutcome {
    pub sleep_seconds: u64,
    pub indicator: Indicator,
    pub show_seconds: u64,
}

/// What the caller reports.
#[derive(Debug, PartialEq, Eq)]
pub enum CycleEvent {
    /// The hardware is set up.
    Booted,
    /// The battery was sampled.
    Battery { samples: [u16; 30] },
    /// The link came up, or did not.
    Wifi(Result<(), WifiErr>),
    /// The plan arrived, or did not.
    Jobs(Result<DequeueJobs, QueryError>),
    /// A command of the pump was carried out.
    Pump(PumpEvent),
}

/// What the caller does next.
#[derive(Clone, Copy, Debug, PartialEq, Eq)]
pub enum CycleAction {
    /// Set up the hardware.
    Boot,
    /// Sample the battery.
    MeasureBattery,
    /// Bring the link up within the timeout.
    ConnectNetwork { timeout_seconds: u64 },
    /// Fetch the plan, reporting the charge in thousandths of a percent.
    FetchJobs { percent: i32 },
    /// De-energize every pump output, then carry out the first command of a
    /// run on `channel`.
    StartPump { channel: usize, command: PumpCommand },
    /// Carry out the next command of the run in progress.
    Drive { command: PumpCommand },
    /// De-energize every pump output, show the indicator, then sleep.
    Sleep(CycleOutcome),
}

/// The state of a cycle as contracts see it.
pub struct RoutineView {
    pub phase: CyclePhase,
    pub channels: usize,
    pub accu: Accu,
    pub run: PumpRun,
    pub red: bool,
    pub green: Seq<bool>,
    pub max_duty: u32,
    pub percent: i32,
    pub jobs: Seq<ServerWateringJob>,
    pub next_job: int,
    pub sleep_recommendation_seconds: u64,
    pub outcome: CycleOutcome,
}

/// The volume that a job asks for, in millilitres, as the pump takes it.
pub open spec fn job_amount(job: ServerWateringJob) -> u32 {
    (job.amount_ml as int % 0x1_0000_0000) as u32
}

/// A job that the pumps can do: it asks for water, from a configured channel.
pub open spec fn runnable(job: ServerWateringJob, channels: usize) -> bool {
    job.amount_ml != 0 && job.plant_index < channels
}

/// The first job at or after `from` that the pumps can do, or the number of
/// jobs where there is none.
pub open spec fn next_runnable(jobs: Seq<ServerWateringJob>, channels: usize, from: int) -> int
    decreases jobs.len() - from,
{
    if from < 0 || from >= jobs.len() {
        jobs.len() as int
    } else if runnable(jobs[from], channels) {
        from
    } else {
        next_runnable(jobs, channels, from + 1)
    }
}

/// The cycle ends: the pumps rest, the indicator shows the outcome.
pub open spec fn finish(v: RoutineView, outcome: CycleOutcome) -> (RoutineView, CycleAction) {
    (
        RoutineView {
            phase: CyclePhase::PersistAndSleep,
            run: idle_run(),
            red: v.red || outcome.indicator == Indicator::Error,
            green: if outcome.indicator == Indicator::AllClear {
                Seq::new(v.green.len(), |i: int| true)
            } else {
                v.green
            },
            outcome,
            ..v
        },
        CycleAction::Sleep(outcome),
    )
}

/// The cycle ends after a failure of the link or of the service.
pub open spec fn connectivity_failure() -> CycleOutcome {
    CycleOutcome {
        sleep_seconds: ERROR_SLEEP_SECONDS,
        indicator: Indicator::Error,
        show_seconds: ERROR_SHOW_RED_LED_SECONDS,
    }
}

/// The cycle ends because the battery is critical.
pub open spec fn critical_battery(v: RoutineView) -> CycleOutcome {
    CycleOutcome {
        sleep_seconds: v.sleep_recommendation_seconds,
        indicator: Indicator::Error,
        show_seconds: ERROR_SHOW_RED_LED_SECONDS,
    }
}

/// The cycle ends with every job done or skipped.
pub open spec fn all_done(v: RoutineView) -> CycleOutcome {
    CycleOutcome {
        sleep_seconds: v.sleep_recommendation_seconds,
        indicator: Indicator::AllClear,
        show_seconds: SUCCESS_SHOW_SECONDS,
    }
}

/// Watering goes on with the first job at or after `from` that the pumps can
/// do; jobs before it are skipped. Without such a job the cycle ends.
pub open spec fn begin_watering(v: RoutineView, from: int) -> (RoutineView, CycleAction) {
    let j = next_runnable(v.jobs, v.channels, from);
    if j >= v.jobs.len() {
        finish(RoutineView { next_job: v.jobs.len() as int, ..v }, all_done(v))
    } else {
        let run = started_run(v.jobs[j].plant_index, job_amount(v.jobs[j]), v.max_duty);
        (
            RoutineView { phase: CyclePhase::Water, run, next_job: j + 1, ..v },
            CycleAction::StartPump { channel: run.channel, command: pending_command(run) },
        )
    }
}

/// The action that the cycle is waiting on.
pub open spec fn pending_action(v: RoutineView) -> CycleAction {
    match v.phase {
        CyclePhase::Boot => CycleAction::Boot,
        CyclePhase::MeasureBattery => CycleAction::MeasureBattery,
        CyclePhase::ConnectNetwork => CycleAction::ConnectNetwork {
            timeout_seconds: WIFI_TIMEOUT_SECONDS,
        },
        CyclePhase::FetchJobs => CycleAction::FetchJobs { percent: v.percent },
        CyclePhase::Water => CycleAction::Drive { command: pending_command(v.run) },
        CyclePhase::PersistAndSleep => CycleAction::Sleep(v.outcome),
    }
}

/// The charge that a set of samples of the pack's voltage stands for, in
/// thousandths of a percent.
pub open spec fn charge_of(accu: Accu, samples: Seq<u16>) -> int {
    spec_single_nimh_cell_volt_to_percent(
        spec_pack_to_single_cell(accu.spec_measure(samples), ACCU_NIMH_CELLS_IN_ROW as int),
    )
}

/// The step that the cycle takes while it waters.
pub open spec fn water_step(v: RoutineView, event: PumpEvent) -> (RoutineView, CycleAction) {
    if v.run.phase == PumpPhase::Idle {
        begin_watering(v, v.next_job)
    } else {
        let (run, step) = spec_step(v.run, v.accu, event);
        match step {
            PumpStep::Continue(command) => (
                RoutineView { run, ..v },
                CycleAction::Drive { command },
            ),
            PumpStep::Stop(Err(_)) => finish(v, critical_battery(v)),
            PumpStep::Stop(Ok(_)) => begin_watering(RoutineView { run: idle_run(), ..v }, v.next_job),
        }
    }
}

/// The step that the cycle takes on an event. An event that the phase does
/// not wait for changes nothing and has the pending action repeated.
pub open spec fn cycle_step(v: RoutineView, event: CycleEvent) -> (RoutineView, CycleAction) {
    match (v.phase, event) {
        (CyclePhase::Boot, CycleEvent::Booted) => (
            RoutineView {
                phase: CyclePhase::MeasureBattery,
                green: digits(SIGNAL_WHILE_WIFI, v.green.len()),
                ..v
            },
            CycleAction::MeasureBattery,
        ),
        (CyclePhase::MeasureBattery, CycleEvent::Battery { samples }) => (
            RoutineView {
                phase: CyclePhase::ConnectNetwork,
                percent: charge_of(v.accu, samples@) as i32,
                ..v
            },
            CycleAction::ConnectNetwork { timeout_seconds: WIFI_TIMEOUT_SECONDS },
        ),
        (CyclePhase::ConnectNetwork, CycleEvent::Wifi(Ok(_))) => (
            RoutineView {
                phase: CyclePhase::FetchJobs,
                green: digits(SIGNAL_WHILE_FETCH, v.green.len()),
                ..v
            },
            CycleAction::FetchJobs { percent: v.percent },
        ),
        (CyclePhase::ConnectNetwork, CycleEvent::Wifi(Err(_))) => finish(v, connectivity_failure()),
        (CyclePhase::FetchJobs, CycleEvent::Jobs(Ok(plan))) => begin_watering(
            RoutineView {
                green: digits(SIGNAL_WHILE_WATERING, v.green.len()),
                jobs: plan.watering_jobs@,
                sleep_recommendation_seconds: plan.sleep_recommendation_seconds,
                ..v
            },
            0,
        ),
        (CyclePhase::FetchJobs, CycleEvent::Jobs(Err(_))) => finish(v, connectivity_failure()),
        (CyclePhase::Water, CycleEvent::Pump(event)) => water_step(v, event),
        _ => (v, pending_action(v)),
    }
}

/// The state of a cycle is consistent: the pump's state is, the jobs done are
/// among the jobs, and outside the watering phase no run is in progress, so
/// that every pump output is de-energized.
pub open spec fn view_wf(v: RoutineView) -> bool {
    &&& run_wf(v.run)
    &&& 0 <= v.next_job <= v.jobs.len()
    &&& v.phase != CyclePhase::Water ==> v.run == idle_run()
}

/// The job that watering goes on with is the first that the pumps can do:
/// every job that is passed over asks for no water or for a channel that is
/// not configured.
pub proof fn lemma_next_runnable(jobs: Seq<ServerWateringJob>, channels: usize, from: int)
    requires
        0 <= from <= jobs.len(),
    ensures
        from <= next_runnable(jobs, channels, from) <= jobs.len(),
        next_runnable(jobs, channels, from) < jobs.len() ==> runnable(
            jobs[next_runnable(jobs, channels, from)],
            channels,
        ),
        forall|k: int|
            from <= k < next_runnable(jobs, channels, from) ==> !runnable(
                #[trigger] jobs[k],
                channels,
            ),
    decreases jobs.len() - from,
{
    if from < jobs.len() && !runnable(jobs[from], channels) {
        lemma_next_runnable(jobs, channels, from + 1);
    }
}

/// A consistent cycle stays consistent with every step, whatever the event.
pub proof fn lemma_cycle_stays_consistent(v: RoutineView, event: CycleEvent)
    requires
        view_wf(v),
        v.accu.wf(),
    ensures
        view_wf(cycle_step(v, event).0),
        cycle_step(v, event).0.accu == v.accu,
        cycle_step(v, event).0.channels == v.channels,
        cycle_step(v, event).0.max_duty == v.max_duty,
{
    lemma_ramp_bounds(v.max_duty as int, 0);
    match (v.phase, event) {
        (CyclePhase::FetchJobs, CycleEvent::Jobs(Ok(plan))) => {
            lemma_next_runnable(plan.watering_jobs@, v.channels, 0);
        },
        (CyclePhase::Water, CycleEvent::Pump(event)) => {
            lemma_next_runnable(v.jobs, v.channels, v.next_job);
            if v.run.phase != PumpPhase::Idle {
                lemma_step_keeps_consistent(v.run, v.accu, event);
            }
        },
        _ => {},
    }
}

/// After every step, a cycle that is not watering has no run in progress:
/// the commanded duty is zero whenever the cycle ends, however it ends.
pub proof fn lemma_pumps_rest_outside_watering(v: RoutineView, event: CycleEvent)
    requires
        view_wf(v),
    ensures
        cycle_step(v, event).0.phase != CyclePhase::Water ==> {
            &&& cycle_step(v, event).0.run == idle_run()
            &&& cycle_step(v, event).0.run.duty == 0
        },
        cycle_step(v, event).1 is Sleep ==> cycle_step(v, event).0.phase
            == CyclePhase::PersistAndSleep,
{
}

/// Once the cycle has ended, no event changes its state or its outcome, and
/// no pump is started again.
pub proof fn lemma_sleep_is_final(v: RoutineView, event: CycleEvent)
    requires
        v.phase == CyclePhase::PersistAndSleep,
    ensures
        cycle_step(v, event) == (v, CycleAction::Sleep(v.outcome)),
{
}

/// A failure of the link or of the service ends the cycle with the error
/// shown and the fallback sleep, whatever a plan would have recommended.
pub proof fn lemma_connectivity_failure_sleeps_long(v: RoutineView, event: CycleEvent)
    requires
        (v.phase == CyclePhase::ConnectNetwork && event matches CycleEvent::Wifi(Err(_))) || (
        v.phase == CyclePhase::FetchJobs && event matches CycleEvent::Jobs(Err(_))),
    ensures
        cycle_step(v, event).1 == CycleAction::Sleep(
            CycleOutcome {
                sleep_seconds: ERROR_SLEEP_SECONDS,
                indicator: Indicator::Error,
                show_seconds: ERROR_SHOW_RED_LED_SECONDS,
            },
        ),
        cycle_step(v, event).0.red,
        cycle_step(v, event).0.phase == CyclePhase::PersistAndSleep,
{
}

/// A run that stops on a critical battery voltage ends the cycle: the error
/// is shown, the sleep is the one that the plan recommends, and no further
/// job is begun.
pub proof fn lemma_critical_voltage_ends_cycle(v: RoutineView, event: PumpEvent)
    requires
        v.phase == CyclePhase::Water,
        v.run.phase != PumpPhase::Idle,
        spec_step(v.run, v.accu, event).1 matches PumpStep::Stop(Err(_)),
    ensures
        cycle_step(v, CycleEvent::Pump(event)).1 == CycleAction::Sleep(
            CycleOutcome {
                sleep_seconds: v.sleep_recommendation_seconds,
                indicator: Indicator::Error,
                show_seconds: ERROR_SHOW_RED_LED_SECONDS,
            },
        ),
        cycle_step(v, CycleEvent::Pump(event)).0.phase == CyclePhase::PersistAndSleep,
        cycle_step(v, CycleEvent::Pump(event)).0.run == idle_run(),
        cycle_step(v, CycleEvent::Pump(event)).0.next_job == v.next_job,
{
}

/// One cycle of the device.
pub struct Routine {
    phase: CyclePhase,
    pumps: Pumps,
    leds: StatusSignaler,
    max_duty: u32,
    percent: i32,
    jobs: Vec<ServerWateringJob>,
    next_job: usize,
    sleep_recommendation_seconds: u64,
    outcome: CycleOutcome,
}

impl Routine {
    /// The state of the cycle.
    pub closed spec fn view(&self) -> RoutineView {
        RoutineView {
            phase: self.phase,
            channels: self.pumps.channels(),
            accu: self.pumps.accu(),
            run: self.pumps.run(),
            red: self.leds.red(),
            green: self.leds.green(),
            max_duty: self.max_duty,
            percent: self.percent,
            jobs: self.jobs@,
            next_job: self.next_job as int,
            sleep_recommendation_seconds: self.sleep_recommendation_seconds,
            outcome: self.outcome,
        }
    }

    /// The state is consistent. This holds of a new cycle and after every step.
    pub closed spec fn wf(&self) -> bool {
        view_wf(self@)
    }

    /// A cycle at boot: `channels` pump channels whose full drive is
    /// `max_duty`, `green_count` green lights, no light on, no pump running.
    pub fn new(accu: Accu, channels: usize, green_count: usize, max_duty: u32) -> (routine: Routine)
        ensures
            routine.wf(),
            routine@.phase == CyclePhase::Boot,
            routine@.channels == channels,
            routine@.accu == accu,
            routine@.run == idle_run(),
            !routine@.red,
            routine@.green == Seq::new(green_count as nat, |i: int| false),
            routine@.max_duty == max_duty,
            routine@.jobs == Seq::<ServerWateringJob>::empty(),
            routine@.next_job == 0,
    {
        Routine {
            phase: CyclePhase::Boot,
            pumps: Pumps::new(channels, accu),
            leds: StatusSignaler::new(green_count),
            max_duty,
            percent: 0,
            jobs: Vec::new(),
            next_job: 0,
            sleep_recommendation_seconds: 0,
            outcome: CycleOutcome {
                sleep_seconds: ERROR_SLEEP_SECONDS,
                indicator: Indicator::Error,
                show_seconds: ERROR_SHOW_RED_LED_SECONDS,
            },
        }
    }

    /// Where the cycle stands.
    pub fn phase(&self) -> (phase: CyclePhase)
        ensures
            phase == self@.phase,
    {
        self.phase
    }

    /// Whether the red light is to be on.
    pub fn red(&self) -> (on: bool)
        ensures
            on == self@.red,
    {
        self.leds.is_red()
    }

    /// The green lights as they are to be shown.
    pub fn green(&self) -> (lights: Vec<bool>)
        ensures
            lights@ == self@.green,
    {
        self.leds.greens()
    }

    /// The duty that the pump output is to have. It is zero outside the
    /// watering phase.
    pub fn duty(&self) -> (duty: u32)
        requires
            self.wf(),
        ensures
            duty == self@.run.duty,
            self@.phase != CyclePhase::Water ==> duty == 0,
    {
        self.pumps.duty()
    }

    fn finish_cycle(&mut self, outcome: CycleOutcome) -> (action: CycleAction)
        requires
            old(self).wf(),
        ensures
            (final(self)@, action) == finish(old(self)@, outcome),
            final(self).wf(),
    {
        self.pumps.release();
        self.phase = CyclePhase::PersistAndSleep;
        match outcome.indicator {
            Indicator::Error => self.leds.error_led_on(),
            Indicator::AllClear => self.leds.set_full_green(),
        }
        self.outcome = outcome;
        CycleAction::Sleep(outcome)
    }

    fn start_next(&mut self, from: usize) -> (action: CycleAction)
        requires
            old(self).wf(),
            old(self)@.run == idle_run(),
            from <= old(self)@.jobs.len(),
        ensures
            (final(self)@, action) == begin_watering(old(self)@, from as int),
            final(self).wf(),
    {
        self.phase = CyclePhase::Water;
        let mut j: usize = from;
        while j < self.jobs.len()
            invariant
                from <= j <= self.jobs@.len(),
                self@ == (RoutineView { phase: CyclePhase::Water, ..old(self)@ }),
                self@.run == idle_run(),
                0 <= old(self)@.next_job <= self.jobs@.len(),
                next_runnable(self@.jobs, self@.channels, from as int) == next_runnable(
                    self@.jobs,
                    self@.channels,
                    j as int,
                ),
            decreases self.jobs@.len() - j,
        {
            let job = self.jobs[j];
            if job.amount_ml != 0 {
                let amount: u32 = (job.amount_ml as u64 % 0x1_0000_0000) as u32;
                match self.pumps.pump(job.plant_index, amount, self.max_duty) {
                    Some(command) => {
                        self.next_job = j + 1;
                        return CycleAction::StartPump { channel: job.plant_index, command };
                    },
                    None => {},
                }
            }
            j += 1;
        }
        self.next_job = j;
        let outcome = CycleOutcome {
            sleep_seconds: self.sleep_recommendation_seconds,
            indicator: Indicator::AllClear,
            show_seconds: SUCCESS_SHOW_SECONDS,
        };
        self.finish_cycle(outcome)
    }

    fn repeat(&self) -> (action: CycleAction)
        ensures
            action == pending_action(self@),
    {
        match self.phase {
            CyclePhase::Boot => CycleAction::Boot,
            CyclePhase::MeasureBattery => CycleAction::MeasureBattery,
            CyclePhase::ConnectNetwork => CycleAction::ConnectNetwork {
                timeout_seconds: WIFI_TIMEOUT_SECONDS,
            },
            CyclePhase::FetchJobs => CycleAction::FetchJobs { percent: self.percent },
            CyclePhase::Water => CycleAction::Drive { command: self.pumps.pending() },
            CyclePhase::PersistAndSleep => CycleAction::Sleep(self.outcome),
        }
    }

    fn water(&mut self, event: PumpEvent) -> (action: CycleAction)
        requires
            old(self).wf(),
            old(self)@.phase == CyclePhase::Water,
        ensures
            (final(self)@, action) == water_step(old(self)@, event),
            final(self).wf(),
    {
        match self.pumps.advance(event) {
            None => self.start_next(self.next_job),
            Some(PumpStep::Continue(command)) => CycleAction::Drive { command },
            Some(PumpStep::Stop(Err(_))) => {
                let outcome = CycleOutcome {
                    sleep_seconds: self.sleep_recommendation_seconds,
                    indicator: Indicator::Error,
                    show_seconds: ERROR_SHOW_RED_LED_SECONDS,
                };
                self.finish_cycle(outcome)
            },
            Some(PumpStep::Stop(Ok(_))) => self.start_next(self.next_job),
        }
    }

    /// Takes the cycle one step further on what the caller reports.
    ///
    /// A failure of the link or of the service ends the cycle with the error
    /// shown and the long fallback sleep. A critical battery voltage ends it
    /// with the error shown and the sleep that the plan recommends; no job
    /// after it is begun. Jobs that ask for no water or for a channel that
    /// is not configured are skipped. Once the cycle has ended, every event
    /// is answered with the same outcome.
    pub fn advance(&mut self, event: CycleEvent) -> (action: CycleAction)
        requires
            old(self).wf(),
        ensures
            final(self).wf(),
            (final(self)@, action) == cycle_step(old(self)@, event),
    {
        match self.phase {
            CyclePhase::Boot => match event {
                CycleEvent::Booted => {
                    self.leds.set_green_numer(SIGNAL_WHILE_WIFI);
                    self.phase = CyclePhase::MeasureBattery;
                    CycleAction::MeasureBattery
                },
                _ => self.repeat(),
            },
            CyclePhase::MeasureBattery => match event {
                CycleEvent::Battery { samples } => {
                    let pack = self.pumps.get_accu().measure_volt(&samples);
                    let cell = pack_to_single_cell(pack, ACCU_NIMH_CELLS_IN_ROW);
                    self.percent = single_nimh_cell_volt_to_percent(cell as i64);
                    self.phase = CyclePhase::ConnectNetwork;
                    CycleAction::ConnectNetwork { timeout_seconds: WIFI_TIMEOUT_SECONDS }
                },
                _ => self.repeat(),
            },
            CyclePhase::ConnectNetwork => match event {
                CycleEvent::Wifi(Ok(_)) => {
                    self.leds.set_green_numer(SIGNAL_WHILE_FETCH);
                    self.phase = CyclePhase::FetchJobs;
                    CycleAction::FetchJobs { percent: self.percent }
                },
                CycleEvent::Wifi(Err(_)) => {
                    let outcome = CycleOutcome {
                        sleep_seconds: ERROR_SLEEP_SECONDS,
                        indicator: Indicator::Error,
                        show_seconds: ERROR_SHOW_RED_LED_SECONDS,
                    };
                    self.finish_cycle(outcome)
                },
                _ => self.repeat(),
            },
            CyclePhase::FetchJobs => match event {
                CycleEvent::Jobs(Ok(plan)) => {
                    self.leds.set_green_numer(SIGNAL_WHILE_WATERING);
                    self.jobs = plan.watering_jobs;
                    self.next_job = 0;
                    self.sleep_recommendation_seconds = plan.sleep_recommendation_seconds;
                    self.start_next(0)
                },
                CycleEvent::Jobs(Err(_)) => {
                    let outcome = CycleOutcome {
                        sleep_seconds: ERROR_SLEEP_SECONDS,
                        indicator: Indicator::Error,
                        show_seconds: ERROR_SHOW_RED_LED_SECONDS,
                    };
                    self.finish_cycle(outcome)
                },
                _ => self.repeat(),
            },
            CyclePhase::Water => match event {
                CycleEvent::Pump(event) => self.water(event),
                _ => self.repeat(),
            },
            CyclePhase::PersistAndSleep => self.repeat(),
        }
    }
}

} // verus!
