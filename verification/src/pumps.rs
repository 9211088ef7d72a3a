//! The dosing controller: one pump channel is driven through a soft start, a
//! full-drive period and a soft stop, while the delivered volume is estimated
//! from the battery voltage.
//!
//! The controller is a state machine. The caller carries out each command
//! (set the duty, wait, sample the battery) and reports back; the machine
//! decides what happens next.

use vstd::prelude::*;
use crate::accu::Accu;

verus! {

/// Flow of the pump in millilitres per volt and second, as the fraction
/// `PUMP_FLOW_NUM / PUMP_FLOW_DEN` (1300 ml in 10 s at 5.8 V).
pub const PUMP_FLOW_NUM: u64 = 650;

/// Denominator of the flow constant.
pub const PUMP_FLOW_DEN: u64 = 29;

/// Length of the soft start, in milliseconds.
pub const PUMP_WARMUP_MS: u32 = 25;

/// Length of the soft stop, in milliseconds.
pub const PUMP_COOLDOWN_MS: u32 = 25;

/// Pause after each step of a ramp, in milliseconds.
pub const PUMP_RAMP_STEP_MS: u32 = 1;

/// Pause before each voltage poll at full drive, in milliseconds.
pub const PUMP_POLL_MS: u32 = 5;

/// Full drive never lasts longer than this, in microseconds.
pub const PUMP_MAX_PUMP_DURATION_MICROS: u32 = 15_000_000;

/// Time at full drive that the two ramps together are worth, in microseconds:
/// half of their length, since the mean duty of a linear ramp is half its peak.
pub const PUMP_RAMP_EQUIVALENT_MICROS: u32 = 25_000;

/// No run accumulates more than this many nanovolt-seconds.
pub const VOLT_TIME_LIMIT: u128 = 0x2_0000_0000_0000_0000;

/// Why a dosing run was cut short.
#[derive(Clone, Copy, Debug, PartialEq, Eq)]
pub enum PumpError {
    /// The battery voltage under load fell below the critical voltage.
    AccuCriticalVoltage,
}

/// What a completed run delivered.
#[derive(Clone, Copy, Debug, PartialEq, Eq)]
pub struct Dose {
    /// Estimated volume, in nanolitres.
    pub delivered_nl: u64,
    /// Time spent at full drive as of the last poll, in microseconds.
    pub elapsed_us: u32,
}

/// Where a dosing run stands.
#[derive(Clone, Copy, Debug, PartialEq, Eq)]
pub enum PumpPhase {
    /// No run is in progress; the output is de-energized.
    Idle,
    /// The duty is ramping up.
    WarmUp,
    /// The ramp is done and the first voltage sample is awaited.
    Seed,
    /// The duty is at its maximum and the voltage is polled.
    FullDrive,
    /// The duty is ramping down.
    CoolDown,
}

/// What the caller does next: set the duty, wait, and then either sample the
/// battery and report the voltage, or just report that the wait is over.
#[derive(Clone, Copy, Debug, PartialEq, Eq)]
pub struct PumpCommand {
    pub duty: u32,
    pub wait_ms: u32,
    pub measure: bool,
}

/// What the caller reports after carrying out a command.
#[derive(Clone, Copy, Debug, PartialEq, Eq)]
pub enum PumpEvent {
    /// The duty was set and the wait is over.
    Waited,
    /// The battery was sampled. The times are those since the previous poll
    /// and since full drive began, in microseconds.
    Voltage { samples: [u16; 30], since_poll_us: u32, since_start_us: u32 },
}

/// The outcome of one step of a run.
#[derive(Clone, Copy, Debug, PartialEq, Eq)]
pub enum PumpStep {
    /// The run goes on with this command.
    Continue(PumpCommand),
    /// The run is over and the output is to be de-energized at once.
    Stop(Result<Dose, PumpError>),
}

/// The state of a dosing run.
#[derive(Clone, Copy, Debug, PartialEq, Eq)]
pub struct PumpRun {
    pub phase: PumpPhase,
    /// The channel that is driven.
    pub channel: usize,
    /// The step of the ramp in progress.
    pub step: u32,
    /// The duty that stands for full drive.
    pub max_duty: u32,
    /// The duty that was last commanded.
    pub duty: u32,
    /// The volume asked for, in millilitres.
    pub target_ml: u32,
    /// The time integral of the battery voltage, in nanovolt-seconds.
    pub volt_time: u128,
    /// Time at full drive as of the last poll, in microseconds.
    pub elapsed_us: u32,
}

/// Duty at step `step` of the soft start.
pub open spec fn ramp_up(max_duty: int, step: int) -> int {
    max_duty * step / (PUMP_WARMUP_MS as int)
}

/// Duty at step `step` of the soft stop.
pub open spec fn ramp_down(max_duty: int, step: int) -> int {
    max_duty * (PUMP_COOLDOWN_MS - step) / (PUMP_COOLDOWN_MS as int)
}

/// The estimated volume meets the target: the flow constant times the
/// voltage-time integral is at least `target_ml` millilitres.
pub open spec fn target_reached(volt_time: int, target_ml: int) -> bool {
    PUMP_FLOW_NUM * volt_time >= PUMP_FLOW_DEN * 1_000_000_000 * target_ml
}

/// The estimated volume in nanolitres, rounded down.
pub open spec fn delivered_nl(volt_time: int) -> int {
    PUMP_FLOW_NUM * volt_time / (PUMP_FLOW_DEN * 1000)
}

/// The state with no run in progress.
pub open spec fn idle_run() -> PumpRun {
    PumpRun {
        phase: PumpPhase::Idle,
        channel: 0,
        step: 0,
        max_duty: 0,
        duty: 0,
        target_ml: 0,
        volt_time: 0,
        elapsed_us: 0,
    }
}

/// The state at the start of a run.
pub open spec fn started_run(channel: usize, target_ml: u32, max_duty: u32) -> PumpRun {
    PumpRun {
        phase: PumpPhase::WarmUp,
        channel,
        step: 0,
        max_duty,
        duty: 0,
        target_ml,
        volt_time: 0,
        elapsed_us: 0,
    }
}

/// The command that a run in progress is waiting on.
pub open spec fn pending_command(run: PumpRun) -> PumpCommand {
    match run.phase {
        PumpPhase::Seed => PumpCommand { duty: run.duty, wait_ms: 0, measure: true },
        PumpPhase::FullDrive => PumpCommand {
            duty: run.duty,
            wait_ms: PUMP_POLL_MS,
            measure: true,
        },
        _ => PumpCommand { duty: run.duty, wait_ms: PUMP_RAMP_STEP_MS, measure: false },
    }
}

/// The state of a run is consistent: the commanded duty is the one its phase
/// prescribes, and without a run in progress the state is the idle one, whose
/// duty is zero.
pub open spec fn run_wf(run: PumpRun) -> bool {
    &&& run.volt_time <= VOLT_TIME_LIMIT
    &&& match run.phase {
        PumpPhase::Idle => run == idle_run(),
        PumpPhase::WarmUp => run.step < PUMP_WARMUP_MS && run.duty == ramp_up(
            run.max_duty as int,
            run.step as int,
        ),
        PumpPhase::Seed => run.duty == ramp_up(run.max_duty as int, PUMP_WARMUP_MS - 1),
        PumpPhase::FullDrive => run.duty == run.max_duty && !target_reached(
            run.volt_time as int,
            run.target_ml as int,
        ),
        PumpPhase::CoolDown => run.step < PUMP_COOLDOWN_MS && run.duty == ramp_down(
            run.max_duty as int,
            run.step as int,
        ),
    }
}

/// Full drive begins, or is skipped where the estimate meets the target
/// already or the time is up.
pub open spec fn drive_or_cool(run: PumpRun, volt_time: int, since_start_us: u32) -> (
    PumpRun,
    PumpStep,
) {
    if since_start_us < PUMP_MAX_PUMP_DURATION_MICROS && !target_reached(
        volt_time,
        run.target_ml as int,
    ) {
        let next = PumpRun {
            phase: PumpPhase::FullDrive,
            duty: run.max_duty,
            volt_time: volt_time as u128,
            elapsed_us: since_start_us,
            ..run
        };
        (next, PumpStep::Continue(pending_command(next)))
    } else {
        let next = PumpRun {
            phase: PumpPhase::CoolDown,
            step: 0,
            duty: run.max_duty,
            volt_time: volt_time as u128,
            elapsed_us: since_start_us,
            ..run
        };
        (next, PumpStep::Continue(pending_command(next)))
    }
}

/// The step that a run takes once a wait is over.
pub open spec fn on_waited(run: PumpRun) -> (PumpRun, PumpStep) {
    match run.phase {
        PumpPhase::WarmUp => if run.step + 1 < PUMP_WARMUP_MS {
            let next = PumpRun {
                step: (run.step + 1) as u32,
                duty: ramp_up(run.max_duty as int, run.step + 1) as u32,
                ..run
            };
            (next, PumpStep::Continue(pending_command(next)))
        } else {
            let next = PumpRun { phase: PumpPhase::Seed, ..run };
            (next, PumpStep::Continue(pending_command(next)))
        },
        PumpPhase::CoolDown => if run.step + 1 < PUMP_COOLDOWN_MS {
            let next = PumpRun {
                step: (run.step + 1) as u32,
                duty: ramp_down(run.max_duty as int, run.step + 1) as u32,
                ..run
            };
            (next, PumpStep::Continue(pending_command(next)))
        } else {
            (
                idle_run(),
                PumpStep::Stop(
                    Ok(
                        Dose {
                            delivered_nl: delivered_nl(run.volt_time as int) as u64,
                            elapsed_us: run.elapsed_us,
                        },
                    ),
                ),
            )
        },
        _ => (run, PumpStep::Continue(pending_command(run))),
    }
}

/// The step that a run takes on a voltage of `millivolt`.
pub open spec fn on_voltage(
    run: PumpRun,
    millivolt: int,
    since_poll_us: u32,
    since_start_us: u32,
    critical_millivolt: int,
) -> (PumpRun, PumpStep) {
    match run.phase {
        PumpPhase::Seed => drive_or_cool(run, millivolt * PUMP_RAMP_EQUIVALENT_MICROS, 0),
        PumpPhase::FullDrive => if millivolt < critical_millivolt {
            (idle_run(), PumpStep::Stop(Err(PumpError::AccuCriticalVoltage)))
        } else {
            drive_or_cool(run, run.volt_time + millivolt * since_poll_us, since_start_us)
        },
        _ => (run, PumpStep::Continue(pending_command(run))),
    }
}

/// The ramps start and end where they should: the soft start begins at zero,
/// the soft stop begins at full drive, and no step exceeds full drive.
pub proof fn lemma_ramp_bounds(max_duty: int, step: int)
    requires
        0 <= max_duty,
        0 <= step <= PUMP_WARMUP_MS,
    ensures
        ramp_up(max_duty, 0) == 0,
        ramp_down(max_duty, 0) == max_duty,
        0 <= ramp_up(max_duty, step) <= max_duty,
        0 <= ramp_down(max_duty, step) <= max_duty,
{
    assert(max_duty * 0 / 25 == 0);
    assert(max_duty * 25 / 25 == max_duty);
    assert(0 <= max_duty * step / 25 <= max_duty) by (nonlinear_arith)
        requires
            0 <= max_duty,
            0 <= step <= 25,
    ;
    let rest = 25 - step;
    assert(0 <= max_duty * rest / 25 <= max_duty) by (nonlinear_arith)
        requires
            0 <= max_duty,
            0 <= rest <= 25,
    ;
}

/// The ramps are steady: the duty never falls from one step of the soft
/// start to the next, and never rises from one step of the soft stop to the
/// next.
pub proof fn lemma_ramp_monotone(max_duty: int, step: int)
    requires
        0 <= max_duty,
        0 <= step < PUMP_WARMUP_MS,
    ensures
        ramp_up(max_duty, step) <= ramp_up(max_duty, step + 1),
        ramp_down(max_duty, step) >= ramp_down(max_duty, step + 1),
{
    let next = step + 1;
    assert(max_duty * step / 25 <= max_duty * next / 25) by (nonlinear_arith)
        requires
            0 <= max_duty,
            0 <= step,
            next == step + 1,
    ;
    let rest = 25 - step;
    let less = 25 - next;
    assert(max_duty * rest / 25 >= max_duty * less / 25) by (nonlinear_arith)
        requires
            0 <= max_duty,
            0 <= less,
            rest == less + 1,
    ;
}

/// The step that a run in progress takes on an event, with `accu` turning
/// samples into a voltage.
pub open spec fn spec_step(run: PumpRun, accu: Accu, event: PumpEvent) -> (PumpRun, PumpStep) {
    match event {
        PumpEvent::Waited => on_waited(run),
        PumpEvent::Voltage { samples, since_poll_us, since_start_us } => on_voltage(
            run,
            accu.spec_measure(samples@),
            since_poll_us,
            since_start_us,
            accu.critical_millivolt(),
        ),
    }
}

/// Whenever a run in progress stops, it leaves the controller idle with a
/// commanded duty of zero, whatever the event and whatever the outcome.
pub proof fn lemma_stop_de_energizes(run: PumpRun, accu: Accu, event: PumpEvent)
    requires
        run_wf(run),
        run.phase != PumpPhase::Idle,
    ensures
        spec_step(run, accu, event).1 is Stop ==> {
            &&& spec_step(run, accu, event).0.phase == PumpPhase::Idle
            &&& spec_step(run, accu, event).0.duty == 0
        },
        spec_step(run, accu, event).1 is Continue ==> spec_step(run, accu, event).0.phase
            != PumpPhase::Idle,
{
}

/// A consistent run stays consistent with every step, whatever the event:
/// over any sequence of events the commanded duty is the one that the phase
/// prescribes, and zero whenever no run is in progress.
pub proof fn lemma_step_keeps_consistent(run: PumpRun, accu: Accu, event: PumpEvent)
    requires
        run_wf(run),
        accu.wf(),
    ensures
        run_wf(spec_step(run, accu, event).0),
{
    match event {
        PumpEvent::Waited => {
            lemma_ramp_bounds(run.max_duty as int, 0);
            if run.step < PUMP_WARMUP_MS {
                lemma_ramp_bounds(run.max_duty as int, run.step + 1);
            }
            assert(spec_step(run, accu, event) == on_waited(run));
        },
        PumpEvent::Voltage { samples, since_poll_us, since_start_us } => {
            let millivolt = accu.spec_measure(samples@);
            accu.lemma_measure_bounds(samples@);
            assert(spec_step(run, accu, event) == on_voltage(
                run,
                millivolt,
                since_poll_us,
                since_start_us,
                accu.critical_millivolt(),
            ));
            lemma_ramp_bounds(run.max_duty as int, 0);
            assert(0 <= millivolt * since_poll_us <= 0xffff_ffff * 0xffff_ffff)
                by (nonlinear_arith)
                requires
                    0 <= millivolt <= 0xffff_ffff,
                    0 <= since_poll_us <= 0xffff_ffff,
            ;
            assert(0 <= millivolt * PUMP_RAMP_EQUIVALENT_MICROS <= 0xffff_ffff * 25_000)
                by (nonlinear_arith)
                requires
                    0 <= millivolt <= 0xffff_ffff,
                    PUMP_RAMP_EQUIVALENT_MICROS == 25_000,
            ;
            if run.phase == PumpPhase::FullDrive {
                let volt_time = run.volt_time as int;
                let target = run.target_ml as int;
                assert(volt_time < 0x400_0000_0000_0000) by (nonlinear_arith)
                    requires
                        650 * volt_time < 29 * 1_000_000_000 * target,
                        0 <= target <= 0xffff_ffff,
                ;
            }
        },
    }
}

/// The estimated volume never falls as the voltage-time integral rises.
pub proof fn lemma_delivered_monotone(low: int, high: int)
    requires
        0 <= low <= high,
    ensures
        0 <= delivered_nl(low) <= delivered_nl(high),
{
    let x = PUMP_FLOW_NUM * low;
    let y = PUMP_FLOW_NUM * high;
    assert(0 <= x / 29000 <= y / 29000) by (nonlinear_arith)
        requires
            0 <= x <= y,
    ;
}

/// At full drive and a constant voltage, the estimate after a poll never falls
/// as the time since the previous poll rises, and it never lies below the
/// estimate before the poll. While the voltage is positive the integral behind
/// it rises with every microsecond.
pub proof fn lemma_estimate_monotone(
    run: PumpRun,
    millivolt: u32,
    critical_millivolt: u32,
    shorter_us: u32,
    longer_us: u32,
    since_start_us: u32,
)
    requires
        run_wf(run),
        run.phase == PumpPhase::FullDrive,
        critical_millivolt <= millivolt,
        shorter_us <= longer_us,
    ensures
        ({
            let before = run.volt_time;
            let short = on_voltage(
                run,
                millivolt as int,
                shorter_us,
                since_start_us,
                critical_millivolt as int,
            ).0.volt_time;
            let long = on_voltage(
                run,
                millivolt as int,
                longer_us,
                since_start_us,
                critical_millivolt as int,
            ).0.volt_time;
            &&& short == before + millivolt * shorter_us
            &&& long == before + millivolt * longer_us
            &&& before <= short <= long
            &&& millivolt > 0 && shorter_us < longer_us ==> short < long
            &&& delivered_nl(before as int) <= delivered_nl(short as int) <= delivered_nl(
                long as int,
            )
        }),
{
    let before = run.volt_time as int;
    let gain_short = millivolt * shorter_us;
    let gain_long = millivolt * longer_us;
    assert(0 <= gain_short <= gain_long <= 0xffff_ffff * 0xffff_ffff) by (nonlinear_arith)
        requires
            gain_short == millivolt * shorter_us,
            gain_long == millivolt * longer_us,
            0 <= millivolt <= 0xffff_ffff,
            0 <= shorter_us <= longer_us <= 0xffff_ffff,
    ;
    if millivolt > 0 && shorter_us < longer_us {
        assert(gain_short < gain_long) by (nonlinear_arith)
            requires
                gain_short == millivolt * shorter_us,
                gain_long == millivolt * longer_us,
                0 < millivolt,
                0 <= shorter_us < longer_us,
        ;
    }
    lemma_delivered_monotone(before, before + gain_short);
    lemma_delivered_monotone(before + gain_short, before + gain_long);
}

fn command_for(run: PumpRun) -> (command: PumpCommand)
    ensures
        command == pending_command(run),
{
    match run.phase {
        PumpPhase::Seed => PumpCommand { duty: run.duty, wait_ms: 0, measure: true },
        PumpPhase::FullDrive => PumpCommand {
            duty: run.duty,
            wait_ms: PUMP_POLL_MS,
            measure: true,
        },
        _ => PumpCommand { duty: run.duty, wait_ms: PUMP_RAMP_STEP_MS, measure: false },
    }
}

fn enter_drive_or_cool(run: PumpRun, volt_time: u128, since_start_us: u32) -> (next: (
    PumpRun,
    PumpStep,
))
    requires
        volt_time <= VOLT_TIME_LIMIT,
    ensures
        next == drive_or_cool(run, volt_time as int, since_start_us),
        run_wf(next.0),
        next.1 is Continue,
{
    let wanted: u128 = 29_000_000_000 * (run.target_ml as u128);
    let reached = 650 * volt_time >= wanted;
    proof {
        lemma_ramp_bounds(run.max_duty as int, 0);
    }
    let next = if since_start_us < PUMP_MAX_PUMP_DURATION_MICROS && !reached {
        PumpRun {
            phase: PumpPhase::FullDrive,
            duty: run.max_duty,
            volt_time,
            elapsed_us: since_start_us,
            ..run
        }
    } else {
        PumpRun {
            phase: PumpPhase::CoolDown,
            step: 0,
            duty: run.max_duty,
            volt_time,
            elapsed_us: since_start_us,
            ..run
        }
    };
    (next, PumpStep::Continue(command_for(next)))
}

fn after_wait(run: PumpRun) -> (next: (PumpRun, PumpStep))
    requires
        run_wf(run),
    ensures
        next == on_waited(run),
        run_wf(next.0),
        next.1 is Stop ==> next.0 == idle_run(),
{
    match run.phase {
        PumpPhase::WarmUp => {
            let next = if run.step + 1 < PUMP_WARMUP_MS {
                proof {
                    lemma_ramp_bounds(run.max_duty as int, run.step + 1);
                }
                let duty: u32 = ((run.max_duty as u64) * ((run.step + 1) as u64) / 25) as u32;
                PumpRun { step: run.step + 1, duty, ..run }
            } else {
                PumpRun { phase: PumpPhase::Seed, ..run }
            };
            (next, PumpStep::Continue(command_for(next)))
        },
        PumpPhase::CoolDown => {
            if run.step + 1 < PUMP_COOLDOWN_MS {
                proof {
                    lemma_ramp_bounds(run.max_duty as int, run.step + 1);
                }
                let duty: u32 = ((run.max_duty as u64) * ((25 - (run.step + 1)) as u64)
                    / 25) as u32;
                let next = PumpRun { step: run.step + 1, duty, ..run };
                (next, PumpStep::Continue(command_for(next)))
            } else {
                let delivered: u64 = (650 * run.volt_time / 29_000) as u64;
                (
                    resting(),
                    PumpStep::Stop(
                        Ok(Dose { delivered_nl: delivered, elapsed_us: run.elapsed_us }),
                    ),
                )
            }
        },
        _ => (run, PumpStep::Continue(command_for(run))),
    }
}

fn after_voltage(
    run: PumpRun,
    millivolt: u32,
    since_poll_us: u32,
    since_start_us: u32,
    critical_millivolt: u32,
) -> (next: (PumpRun, PumpStep))
    requires
        run_wf(run),
    ensures
        next == on_voltage(
            run,
            millivolt as int,
            since_poll_us,
            since_start_us,
            critical_millivolt as int,
        ),
        run_wf(next.0),
        next.1 is Stop ==> next.0 == idle_run(),
{
    match run.phase {
        PumpPhase::Seed => {
            let seed: u128 = (millivolt as u128) * 25_000;
            enter_drive_or_cool(run, seed, 0)
        },
        PumpPhase::FullDrive => {
            if millivolt < critical_millivolt {
                (resting(), PumpStep::Stop(Err(PumpError::AccuCriticalVoltage)))
            } else {
                assert(millivolt * since_poll_us <= 0xffff_ffff * 0xffff_ffff)
                    by (nonlinear_arith)
                    requires
                        0 <= millivolt <= 0xffff_ffff,
                        0 <= since_poll_us <= 0xffff_ffff,
                ;
                let gained: u128 = (millivolt as u128) * (since_poll_us as u128);
                enter_drive_or_cool(run, run.volt_time + gained, since_start_us)
            }
        },
        _ => (run, PumpStep::Continue(command_for(run))),
    }
}

fn resting() -> (run: PumpRun)
    ensures
        run == idle_run(),
{
    PumpRun {
        phase: PumpPhase::Idle,
        channel: 0,
        step: 0,
        max_duty: 0,
        duty: 0,
        target_ml: 0,
        volt_time: 0,
        elapsed_us: 0,
    }
}

/// The pump controller: a fixed number of channels, one of which at most is
/// driven at a time, and the battery monitor that its voltage polls go through.
#[derive(Clone, Copy, Debug)]
pub struct Pumps {
    channels: usize,
    accu: Accu,
    run: PumpRun,
}

impl Pumps {
    /// Number of configured channels.
    pub closed spec fn channels(self) -> usize {
        self.channels
    }

    /// The battery monitor.
    pub closed spec fn accu(self) -> Accu {
        self.accu
    }

    /// The state of the run in progress.
    pub closed spec fn run(self) -> PumpRun {
        self.run
    }

    /// The run's state is consistent.
    #[verifier::type_invariant]
    pub open spec fn wf(self) -> bool {
        run_wf(self.run())
    }

    /// No run is in progress.
    pub open spec fn spec_is_idle(&self) -> bool {
        self.run().phase == PumpPhase::Idle
    }

    /// A controller of `channels` channels, all de-energized.
    pub fn new(channels: usize, accu: Accu) -> (pumps: Pumps)
        ensures
            pumps.wf(),
            pumps.channels() == channels,
            pumps.accu() == accu,
            pumps.run() == idle_run(),
    {
        Pumps { channels, accu, run: resting() }
    }

    /// Whether no run is in progress.
    #[verifier::when_used_as_spec(spec_is_idle)]
    pub fn is_idle(&self) -> (idle: bool)
        ensures
            idle == self.spec_is_idle(),
    {
        matches!(self.run.phase, PumpPhase::Idle)
    }

    /// The duty that was last commanded.
    pub fn duty(&self) -> (duty: u32)
        ensures
            duty == self.run().duty,
            self.spec_is_idle() ==> duty == 0,
    {
        proof {
            use_type_invariant(self);
        }
        self.run.duty
    }

    /// The command that the run in progress is waiting on.
    pub fn pending(&self) -> (command: PumpCommand)
        ensures
            command == pending_command(self.run()),
    {
        command_for(self.run)
    }

    /// The battery monitor.
    pub fn get_accu(&self) -> (accu: Accu)
        ensures
            accu == self.accu(),
    {
        self.accu
    }

    /// Gives up whatever run is in progress: the output is de-energized.
    pub fn release(&mut self)
        ensures
            final(self).run() == idle_run(),
            final(self).channels() == old(self).channels(),
            final(self).accu() == old(self).accu(),
            final(self).wf(),
    {
        self.run = resting();
    }

    /// Begins a run that is to deliver `amount_ml` millilitres through channel
    /// `index`, where `max_duty` is the duty that stands for full drive.
    ///
    /// There is no such run for a channel that is not configured: nothing is
    /// touched then. Otherwise the result is the first command of the soft
    /// start, and a run that was in progress is given up.
    pub fn pump(&mut self, index: usize, amount_ml: u32, max_duty: u32) -> (first: Option<
        PumpCommand,
    >)
        ensures
            final(self).channels() == old(self).channels(),
            final(self).accu() == old(self).accu(),
            final(self).wf(),
            index >= old(self).channels() ==> {
                &&& first.is_none()
                &&& final(self).run() == old(self).run()
            },
            index < old(self).channels() ==> {
                &&& final(self).run() == started_run(index, amount_ml, max_duty)
                &&& first == Some(pending_command(started_run(index, amount_ml, max_duty)))
            },
    {
        proof {
            use_type_invariant(&*self);
        }
        if index >= self.channels {
            return None;
        }
        proof {
            lemma_ramp_bounds(max_duty as int, 0);
        }
        self.run = PumpRun {
            phase: PumpPhase::WarmUp,
            channel: index,
            step: 0,
            max_duty,
            duty: 0,
            target_ml: amount_ml,
            volt_time: 0,
            elapsed_us: 0,
        };
        Some(command_for(self.run))
    }

    /// Takes the run one step further on what the caller reports.
    ///
    /// Without a run in progress there is no step. An event that the run does
    /// not wait for changes nothing and has the pending command repeated.
    /// Whenever the run stops, for whatever reason, the commanded duty is zero
    /// and the controller is idle.
    pub fn advance(&mut self, event: PumpEvent) -> (step: Option<PumpStep>)
        ensures
            final(self).channels() == old(self).channels(),
            final(self).accu() == old(self).accu(),
            final(self).wf(),
            old(self).spec_is_idle() ==> step.is_none() && final(self).run() == old(self).run(),
            !old(self).spec_is_idle() ==> {
                &&& final(self).run() == spec_step(old(self).run(), old(self).accu(), event).0
                &&& step == Some(spec_step(old(self).run(), old(self).accu(), event).1)
            },
            step matches Some(PumpStep::Stop(_)) ==> {
                &&& final(self).spec_is_idle()
                &&& final(self).run().duty == 0
            },
    {
        proof {
            use_type_invariant(&*self);
        }
        if matches!(self.run.phase, PumpPhase::Idle) {
            return None;
        }
        let (next, step) = match event {
            PumpEvent::Waited => after_wait(self.run),
            PumpEvent::Voltage { samples, since_poll_us, since_start_us } => {
                let millivolt = self.accu.measure_volt(&samples);
                after_voltage(
                    self.run,
                    millivolt,
                    since_poll_us,
                    since_start_us,
                    self.accu.get_critical_volt(),
                )
            },
        };
        self.run = next;
        Some(step)
    }
}

} // verus!
