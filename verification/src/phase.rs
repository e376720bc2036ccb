//! The phases of a drive, and the sequencing of the arm that goes with them.

use vstd::prelude::*;
use crate::actuator::ActuatorCommand;
use crate::units::{milli, reading};

verus! {

/// Ticks from the arm's start at full power to its throttling down: the time
/// the arm needs to spin up.
pub const WARM_UP_TICKS: u64 = 10;

/// Where a drive stands.
#[derive(Clone, Copy, Debug, PartialEq, Eq, Structural)]
pub enum DrivePhase {
    /// Following the line towards the wall.
    Entry,
    /// Circling the wall at a held distance.
    Follow,
    /// Following the line away from the wall.
    Exit,
    /// Following the line only, for tuning. Never left by a reading.
    SimpleOnly,
}

/// The distances, in thousandths of a centimetre, at which the phase changes.
#[derive(Clone, Copy, Debug)]
pub struct Thresholds {
    /// `Entry` ends below this distance.
    pub distance_center: i32,
    /// `Follow` ends above this distance.
    pub distance_trigger: i32,
    /// The drive ends below this distance, once in `Exit`.
    pub stop_distance: i32,
}

/// The distances at which the phase changes, as real numbers of centimetres.
pub struct Levels {
    pub distance_center: real,
    pub distance_trigger: real,
    pub stop_distance: real,
}

impl View for Thresholds {
    type V = Levels;

    open spec fn view(&self) -> Levels {
        Levels {
            distance_center: milli(self.distance_center as int),
            distance_trigger: milli(self.distance_trigger as int),
            stop_distance: milli(self.stop_distance as int),
        }
    }
}

/// What one distance reading does to the phase.
#[derive(Clone, Copy, Debug, PartialEq, Eq, Structural)]
pub enum PhaseStep {
    /// The phase stays as it is.
    Remain,
    /// The drive moves on to the phase given.
    Advance(DrivePhase),
    /// The drive is over.
    Terminate,
}

/// The step that `distance` causes in `phase`. Without a reading nothing
/// changes; a threshold counts only in the one phase it ends, and a reading on
/// a threshold does not pass it.
pub open spec fn phase_step(phase: DrivePhase, distance: Option<real>, levels: Levels)
    -> PhaseStep {
    match (phase, distance) {
        (DrivePhase::Entry, Some(d)) if d < levels.distance_center => PhaseStep::Advance(
            DrivePhase::Follow,
        ),
        (DrivePhase::Follow, Some(d)) if d > levels.distance_trigger => PhaseStep::Advance(
            DrivePhase::Exit,
        ),
        (DrivePhase::Exit, Some(d)) if d < levels.stop_distance => PhaseStep::Terminate,
        _ => PhaseStep::Remain,
    }
}

/// The phase that `step` leaves a drive in that was in `phase`.
pub open spec fn phase_after(phase: DrivePhase, step: PhaseStep) -> DrivePhase {
    match step {
        PhaseStep::Advance(next) => next,
        _ => phase,
    }
}

/// The phase machine as a mathematical object: the phase, and the tick at
/// which the arm is due to be throttled down, if one is set.
pub struct MachineState {
    pub phase: DrivePhase,
    pub throttle_at: Option<int>,
}

/// What the arm is asked to do.
#[derive(Clone, Copy, Debug)]
pub struct ArmSettings {
    /// Whether the arm turns at all during `Follow`.
    pub rotate: bool,
    /// The arm's duty cycle once it has spun up, in whole percent.
    pub steady_duty: i32,
}

/// What evaluating one tick yields.
pub struct Evaluation {
    pub next: MachineState,
    pub terminate: bool,
    pub commands: Seq<ActuatorCommand>,
}

impl MachineState {
    /// The commands that `step` itself calls for.
    pub open spec fn step_commands(step: PhaseStep, arm: ArmSettings) -> Seq<ActuatorCommand> {
        match step {
            PhaseStep::Advance(DrivePhase::Follow) => if arm.rotate {
                seq![ActuatorCommand::StartArmFullPower]
            } else {
                seq![]
            },
            PhaseStep::Advance(DrivePhase::Exit) => seq![ActuatorCommand::StopArm],
            PhaseStep::Terminate => seq![
                ActuatorCommand::SignalCompletion,
                ActuatorCommand::StopLeft,
                ActuatorCommand::StopRight,
            ],
            _ => seq![],
        }
    }

    /// The throttle tick once `step` is taken at `tick`: starting the arm sets
    /// it, nothing else touches it.
    pub open spec fn throttle_after_step(self, step: PhaseStep, tick: int, arm: ArmSettings)
        -> Option<int> {
        if step == PhaseStep::Advance(DrivePhase::Follow) && arm.rotate {
            Some(tick + WARM_UP_TICKS)
        } else {
            self.throttle_at
        }
    }

    /// Whether a throttle tick `at` has been reached at `tick`.
    pub open spec fn throttle_due(at: Option<int>, tick: int) -> bool {
        at matches Some(scheduled) && tick >= scheduled
    }

    /// One tick of the machine: first the step that the reading causes, with
    /// its commands, then the throttling of the arm if its tick has come.
    pub open spec fn evaluate(
        self,
        tick: int,
        distance: Option<real>,
        levels: Levels,
        arm: ArmSettings,
    ) -> Evaluation {
        let step = phase_step(self.phase, distance, levels);
        let scheduled = self.throttle_after_step(step, tick, arm);
        let due = Self::throttle_due(scheduled, tick);
        Evaluation {
            next: MachineState {
                phase: phase_after(self.phase, step),
                throttle_at: if due {
                    None
                } else {
                    scheduled
                },
            },
            terminate: step == PhaseStep::Terminate,
            commands: Self::step_commands(step, arm) + if due {
                seq![ActuatorCommand::SetArmSpeed(arm.steady_duty)]
            } else {
                seq![]
            },
        }
    }
}

impl DrivePhase {
    /// The step that `distance` causes in this phase.
    pub fn step(self, distance: Option<i32>, thresholds: &Thresholds) -> (step: PhaseStep)
        ensures
            step == phase_step(self, reading(distance), thresholds@),
    {
        match (self, distance) {
            (DrivePhase::Entry, Some(d)) => if d < thresholds.distance_center {
                PhaseStep::Advance(DrivePhase::Follow)
            } else {
                PhaseStep::Remain
            },
            (DrivePhase::Follow, Some(d)) => if d > thresholds.distance_trigger {
                PhaseStep::Advance(DrivePhase::Exit)
            } else {
                PhaseStep::Remain
            },
            (DrivePhase::Exit, Some(d)) => if d < thresholds.stop_distance {
                PhaseStep::Terminate
            } else {
                PhaseStep::Remain
            },
            _ => PhaseStep::Remain,
        }
    }
}

/// The phase machine: the phase, and the tick at which the arm was started
/// where its throttling down is still to come.
#[derive(Clone, Copy, Debug)]
pub struct DrivePhaseMachine {
    pub phase: DrivePhase,
    pub arm_started: Option<u64>,
}

impl View for DrivePhaseMachine {
    type V = MachineState;

    open spec fn view(&self) -> MachineState {
        MachineState {
            phase: self.phase,
            throttle_at: match self.arm_started {
                Some(started) => Some(started + WARM_UP_TICKS),
                None => None,
            },
        }
    }
}

/// What one tick of the machine asks of its caller.
#[derive(Debug)]
pub struct PhaseOutcome {
    /// Whether the drive is over.
    pub terminate: bool,
    pub commands: Vec<ActuatorCommand>,
}

impl DrivePhaseMachine {
    /// A machine in `phase`, with nothing scheduled.
    pub fn new(phase: DrivePhase) -> (machine: DrivePhaseMachine)
        ensures
            machine == (DrivePhaseMachine { phase, arm_started: None }),
    {
        DrivePhaseMachine { phase, arm_started: None }
    }

    /// Runs the machine for the tick `tick_index` on the reading `distance`.
    pub fn evaluate(
        &mut self,
        tick_index: u64,
        distance: Option<i32>,
        thresholds: &Thresholds,
        arm: &ArmSettings,
    ) -> (outcome: PhaseOutcome)
        ensures
            final(self)@ == old(self)@.evaluate(
                tick_index as int,
                reading(distance),
                thresholds@,
                *arm,
            ).next,
            outcome.terminate == old(self)@.evaluate(
                tick_index as int,
                reading(distance),
                thresholds@,
                *arm,
            ).terminate,
            outcome.commands@ == old(self)@.evaluate(
                tick_index as int,
                reading(distance),
                thresholds@,
                *arm,
            ).commands,
    {
        let step: PhaseStep = self.phase.step(distance, thresholds);
        let mut commands: Vec<ActuatorCommand> = Vec::new();
        let mut terminate: bool = false;
        match step {
            PhaseStep::Advance(DrivePhase::Follow) => {
                self.phase = DrivePhase::Follow;
                if arm.rotate {
                    commands.push(ActuatorCommand::StartArmFullPower);
                    self.arm_started = Some(tick_index);
                }
            },
            PhaseStep::Advance(DrivePhase::Exit) => {
                self.phase = DrivePhase::Exit;
                commands.push(ActuatorCommand::StopArm);
            },
            PhaseStep::Advance(next) => {
                self.phase = next;
            },
            PhaseStep::Terminate => {
                terminate = true;
                commands.push(ActuatorCommand::SignalCompletion);
                commands.push(ActuatorCommand::StopLeft);
                commands.push(ActuatorCommand::StopRight);
            },
            PhaseStep::Remain => {},
        }
        assert(commands@ =~= MachineState::step_commands(step, *arm));
        let due: bool = match self.arm_started {
            Some(started) => tick_index >= started && tick_index - started >= WARM_UP_TICKS,
            None => false,
        };
        if due {
            self.arm_started = None;
            commands.push(ActuatorCommand::SetArmSpeed(arm.steady_duty));
        }
        assert(commands@ =~= old(self)@.evaluate(
            tick_index as int,
            reading(distance),
            thresholds@,
            *arm,
        ).commands);
        PhaseOutcome { terminate, commands }
    }
}

/// A drive in `SimpleOnly` stays there, whatever is measured.
pub proof fn lemma_simple_only_is_absorbing(distance: Option<real>, levels: Levels)
    ensures
        phase_step(DrivePhase::SimpleOnly, distance, levels) == PhaseStep::Remain,
{
}

/// No reading leads into `SimpleOnly`, and none leads back to `Entry`.
pub proof fn lemma_phases_only_advance(phase: DrivePhase, distance: Option<real>, levels: Levels)
    ensures
        phase != DrivePhase::SimpleOnly ==> phase_after(
            phase,
            phase_step(phase, distance, levels),
        ) != DrivePhase::SimpleOnly,
        phase != DrivePhase::Entry ==> phase_after(phase, phase_step(phase, distance, levels))
            != DrivePhase::Entry,
{
}

/// Without a distance reading the phase stays as it is.
pub proof fn lemma_no_reading_no_step(phase: DrivePhase, levels: Levels)
    ensures
        phase_step(phase, None, levels) == PhaseStep::Remain,
{
}

} // verus!
