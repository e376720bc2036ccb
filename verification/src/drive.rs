//! One drive: its configuration, its two controllers, its phase, and the work
//! of a tick.

use vstd::prelude::*;
use crate::actuator::{ActuatorCommand, ControlAction, ControlError};
use crate::mixer::{left_speed, line_correction, right_speed, speed_correction, wheel_duties};
use crate::phase::{
    phase_after, phase_step, ArmSettings, DrivePhase, DrivePhaseMachine, Levels, MachineState,
    PhaseOutcome, PhaseStep, Thresholds,
};
use crate::pid::{PidController, PidState};
use crate::units::{duty_cycle, duty_for, milli, nano, reading};

verus! {

/// What stays fixed during a drive. Speeds are thousandths of a percent,
/// lengths and distances thousandths of a centimetre.
#[derive(Clone, Copy, Debug)]
pub struct DriveConfig {
    /// The speed of both wheels when nothing is corrected.
    pub base_speed: i32,
    /// How far the two wheels are apart.
    pub wheel_track_width: i32,
    /// The diameter of the circle driven round the wall. Never zero.
    pub turn_diameter: i32,
    /// Whether the arm turns during `Follow`.
    pub rotate_arm: bool,
    /// The arm's speed once it has spun up.
    pub arm_speed: i32,
    /// `Follow` ends above this distance, and only below it is the distance
    /// held.
    pub distance_trigger: i32,
    /// The drive ends below this distance, once in `Exit`.
    pub stop_distance: i32,
}

impl Default for DriveConfig {
    /// A base speed of 50 %, wheels 14 cm apart on a circle of 1 m, an arm
    /// that turns at full speed, the distance held up to 40 cm, and the drive
    /// over at 20 cm.
    fn default() -> (config: DriveConfig)
        ensures
            config == (DriveConfig {
                base_speed: 50_000,
                wheel_track_width: 14_000,
                turn_diameter: 100_000,
                rotate_arm: true,
                arm_speed: 100_000,
                distance_trigger: 40_000,
                stop_distance: 20_000,
            }),
    {
        DriveConfig {
            base_speed: 50_000,
            wheel_track_width: 14_000,
            turn_diameter: 100_000,
            rotate_arm: true,
            arm_speed: 100_000,
            distance_trigger: 40_000,
            stop_distance: 20_000,
        }
    }
}

/// What stays fixed during a drive, over the real numbers: speeds in percent,
/// lengths and distances in centimetres.
pub struct DriveSettings {
    pub base_speed: real,
    pub wheel_track_width: real,
    pub turn_diameter: real,
    pub rotate_arm: bool,
    pub arm_speed: real,
    pub distance_trigger: real,
    pub stop_distance: real,
}

impl DriveSettings {
    /// The pull of the turn: by how much the circle makes the outer wheel
    /// run faster and the inner one slower.
    pub open spec fn spin(self) -> real
        recommends
            self.turn_diameter != 0real,
    {
        self.wheel_track_width / self.turn_diameter
    }
}

impl View for DriveConfig {
    type V = DriveSettings;

    open spec fn view(&self) -> DriveSettings {
        DriveSettings {
            base_speed: milli(self.base_speed as int),
            wheel_track_width: milli(self.wheel_track_width as int),
            turn_diameter: milli(self.turn_diameter as int),
            rotate_arm: self.rotate_arm,
            arm_speed: milli(self.arm_speed as int),
            distance_trigger: milli(self.distance_trigger as int),
            stop_distance: milli(self.stop_distance as int),
        }
    }
}

/// A drive as a mathematical object.
pub struct DriveState {
    pub settings: DriveSettings,
    pub line: PidState,
    pub distance: PidState,
    pub machine: MachineState,
}

/// What a tick that was not refused yields.
pub struct TickResult {
    pub state: DriveState,
    pub action: ControlAction,
    pub commands: Seq<ActuatorCommand>,
}

impl DriveState {
    /// The distances at which the phase changes. `Entry` ends where the
    /// distance falls below the one that is held in `Follow`.
    pub open spec fn levels(self) -> Levels {
        Levels {
            distance_center: self.distance.center,
            distance_trigger: self.settings.distance_trigger,
            stop_distance: self.settings.stop_distance,
        }
    }

    /// What the arm is asked to do.
    pub open spec fn arm(self) -> ArmSettings {
        ArmSettings {
            rotate: self.settings.rotate_arm,
            steady_duty: duty_for(self.settings.arm_speed) as i32,
        }
    }

    /// The phase in which a tick that reads `distance` does its control work:
    /// the phase after the step that the reading causes.
    pub open spec fn phase_on(self, distance: Option<real>) -> DrivePhase {
        phase_after(self.machine.phase, phase_step(self.machine.phase, distance, self.levels()))
    }

    /// Whether a tick that reads `distance` holds the distance: only in
    /// `Follow`, and only on a reading below the trigger distance.
    pub open spec fn regulates(self, distance: Option<real>) -> bool {
        &&& self.phase_on(distance) == DrivePhase::Follow
        &&& distance matches Some(d) && d < self.settings.distance_trigger
    }

    /// Whether a tick can take in the two readings: whether each controller
    /// that is to take one in can.
    pub open spec fn accepts(self, line_reading: real, distance: Option<real>) -> bool {
        &&& self.line.accepts(line_reading)
        &&& self.regulates(distance) ==> self.distance.accepts(distance.unwrap())
    }

    /// The speed correction of a tick that reads `distance`: that of the
    /// distance controller's output where the distance is held, none
    /// elsewhere.
    pub open spec fn speed_correction_on(self, distance: Option<real>) -> real {
        if self.regulates(distance) {
            speed_correction(self.distance.output(distance.unwrap()))
        } else {
            0real
        }
    }

    /// The pull of the turn in a tick that reads `distance`: that of the
    /// circle in `Follow`, none elsewhere.
    pub open spec fn spin_on(self, distance: Option<real>) -> real {
        if self.phase_on(distance) == DrivePhase::Follow {
            self.settings.spin()
        } else {
            0real
        }
    }

    /// The drive after a tick: the machine has taken its step, the line
    /// controller has taken in its reading, and the distance controller has
    /// where the distance is held.
    pub open spec fn after_tick(self, tick: int, line_reading: real, distance: Option<real>)
        -> DriveState {
        DriveState {
            settings: self.settings,
            line: self.line.after_update(line_reading),
            distance: if self.regulates(distance) {
                self.distance.after_update(distance.unwrap())
            } else {
                self.distance
            },
            machine: self.machine.evaluate(tick, distance, self.levels(), self.arm()).next,
        }
    }

    /// The speed of the left wheel in a tick, before it is rounded and
    /// limited.
    pub open spec fn left_speed_on(self, line_reading: real, distance: Option<real>) -> real {
        left_speed(
            self.settings.base_speed,
            self.speed_correction_on(distance),
            line_correction(self.line.output(line_reading)),
            self.spin_on(distance),
        )
    }

    /// The speed of the right wheel in a tick, before it is rounded and
    /// limited.
    pub open spec fn right_speed_on(self, line_reading: real, distance: Option<real>) -> real {
        right_speed(
            self.settings.base_speed,
            self.speed_correction_on(distance),
            line_correction(self.line.output(line_reading)),
            self.spin_on(distance),
        )
    }

    /// The two wheel commands of a tick, left before right.
    pub open spec fn wheel_commands(self, line_reading: real, distance: Option<real>) -> Seq<
        ActuatorCommand,
    > {
        seq![
            ActuatorCommand::SetLeftSpeed(
                duty_for(self.left_speed_on(line_reading, distance)) as i32,
            ),
            ActuatorCommand::SetRightSpeed(
                duty_for(self.right_speed_on(line_reading, distance)) as i32,
            ),
        ]
    }

    /// One tick: the machine's commands, then the two wheel commands; the run
    /// is over where the machine says so.
    pub open spec fn tick(self, tick: int, line_reading: real, distance: Option<real>)
        -> TickResult {
        let evaluation = self.machine.evaluate(tick, distance, self.levels(), self.arm());
        TickResult {
            state: self.after_tick(tick, line_reading, distance),
            action: if evaluation.terminate {
                ControlAction::RequestPhaseExit
            } else {
                ControlAction::Continue
            },
            commands: evaluation.commands + self.wheel_commands(line_reading, distance),
        }
    }

    /// The drive as it is entered in `phase`: both controllers cleared, the
    /// line controller seeded with a reading, the distance controller with an
    /// error, and nothing scheduled.
    pub open spec fn entered(self, phase: DrivePhase, distance_seed: real, line_seed: real)
        -> DriveState {
        DriveState {
            settings: self.settings,
            line: self.line.cleared().seeded(line_seed),
            distance: self.distance.cleared().seeded_error(distance_seed),
            machine: MachineState { phase, throttle_at: None },
        }
    }

    /// The commands that start a drive: each wheel is switched on and set to
    /// the base speed.
    pub open spec fn enter_commands(self) -> Seq<ActuatorCommand> {
        let duty = duty_for(self.settings.base_speed) as i32;
        seq![
            ActuatorCommand::StartLeft,
            ActuatorCommand::SetLeftSpeed(duty),
            ActuatorCommand::StartRight,
            ActuatorCommand::SetRightSpeed(duty),
        ]
    }

    /// The drive as it is left: nothing scheduled any more.
    pub open spec fn left(self) -> DriveState {
        DriveState { machine: MachineState { throttle_at: None, ..self.machine }, ..self }
    }
}

/// Whatever a drive holds and whatever is read, no command of a tick, of
/// entering or of leaving asks a motor for more than it can give.
pub proof fn lemma_commands_within_limit(
    state: DriveState,
    tick: int,
    line_reading: real,
    distance: Option<real>,
)
    ensures
        forall|i: int|
            0 <= i < state.tick(tick, line_reading, distance).commands.len() ==> (
            #[trigger] state.tick(tick, line_reading, distance).commands[i]).within_limit(),
        forall|i: int|
            0 <= i < state.enter_commands().len() ==> (
            #[trigger] state.enter_commands()[i]).within_limit(),
        forall|i: int| 0 <= i < leave_commands().len() ==> (#[trigger] leave_commands()[i]).within_limit(),
{
    let evaluation = state.machine.evaluate(tick, distance, state.levels(), state.arm());
    let wheels = state.wheel_commands(line_reading, distance);
    let commands = state.tick(tick, line_reading, distance).commands;
    assert forall|i: int| 0 <= i < commands.len() implies (#[trigger] commands[i]).within_limit() by {
        if i < evaluation.commands.len() {
            assert(commands[i] == evaluation.commands[i]);
        } else {
            assert(commands[i] == wheels[i - evaluation.commands.len()]);
        }
    }
}

/// The drive as it is set up where nothing else is asked for: a base speed of
/// 50 %, wheels 14 cm apart on a circle of 1 m, an arm that turns at full
/// speed, the distance held up to 40 cm and the drive over at 20 cm; a line
/// controller that holds the reading 50 with gains -0.4, 0 and 0.5, and a
/// distance controller that holds 20 cm with gains 1, 0 and 0; in `Entry`.
pub open spec fn standard_drive() -> DriveState {
    DriveState {
        settings: (DriveConfig {
            base_speed: 50_000,
            wheel_track_width: 14_000,
            turn_diameter: 100_000,
            rotate_arm: true,
            arm_speed: 100_000,
            distance_trigger: 40_000,
            stop_distance: 20_000,
        })@,
        line: (PidController {
            center: 50_000,
            k_p: -400_000i32,
            k_i: 0,
            k_d: 500_000,
            last_error: 0,
            integral: 0,
        })@,
        distance: (PidController {
            center: 20_000,
            k_p: 1_000_000,
            k_i: 0,
            k_d: 0,
            last_error: 0,
            integral: 0,
        })@,
        machine: MachineState { phase: DrivePhase::Entry, throttle_at: None },
    }
}

/// The commands that end a drive: both wheels and the arm are stopped.
pub open spec fn leave_commands() -> Seq<ActuatorCommand> {
    seq![ActuatorCommand::StopLeft, ActuatorCommand::StopRight, ActuatorCommand::StopArm]
}

proof fn lemma_spin_as_fraction(width: int, diameter: int)
    by (nonlinear_arith)
    requires
        diameter != 0,
    ensures
        width as real / diameter as real == milli(width) / milli(diameter),
        (-width) as real / (-diameter) as real == milli(width) / milli(diameter),
        0 as real / 1 as real == 0real,
{
}

/// What a tick asks of its caller.
#[derive(Debug)]
pub struct TickOutput {
    pub action: ControlAction,
    /// The commands to carry out, in this order.
    pub commands: Vec<ActuatorCommand>,
}

/// One drive. Its turn diameter is never zero.
#[derive(Debug)]
pub struct DriveContext {
    config: DriveConfig,
    line_pid: PidController,
    distance_pid: PidController,
    machine: DrivePhaseMachine,
}

impl View for DriveContext {
    type V = DriveState;

    closed spec fn view(&self) -> DriveState {
        DriveState {
            settings: self.config@,
            line: self.line_pid@,
            distance: self.distance_pid@,
            machine: self.machine@,
        }
    }
}

impl DriveContext {
    #[verifier::type_invariant]
    spec fn turn_is_a_circle(self) -> bool {
        self.config.turn_diameter != 0
    }

    /// A drive in `phase`, with the two controllers as they are given and
    /// nothing scheduled. There is none for a turn diameter of zero.
    pub fn new(
        config: DriveConfig,
        line_pid: PidController,
        distance_pid: PidController,
        phase: DrivePhase,
    ) -> (context: Option<DriveContext>)
        ensures
            context is Some <==> config.turn_diameter != 0,
            context matches Some(drive) ==> drive@ == (DriveState {
                settings: config@,
                line: line_pid@,
                distance: distance_pid@,
                machine: MachineState { phase, throttle_at: None },
            }),
    {
        if config.turn_diameter == 0 {
            None
        } else {
            Some(
                DriveContext { config, line_pid, distance_pid, machine: DrivePhaseMachine::new(phase) },
            )
        }
    }

    /// The drive as it is set up where nothing else is asked for.
    pub fn standard() -> (drive: DriveContext)
        ensures
            drive@ == standard_drive(),
    {
        DriveContext {
            config: DriveConfig::default(),
            line_pid: PidController::new(-400_000, 0, 500_000, 50_000),
            distance_pid: PidController::new(1_000_000, 0, 0, 20_000),
            machine: DrivePhaseMachine::new(DrivePhase::Entry),
        }
    }

    /// What stays fixed during the drive.
    pub fn config(&self) -> (config: &DriveConfig)
        ensures
            config@ == self@.settings,
    {
        &self.config
    }

    /// The line controller.
    pub fn line_pid(&self) -> (controller: &PidController)
        ensures
            controller@ == self@.line,
    {
        &self.line_pid
    }

    /// The distance controller.
    pub fn distance_pid(&self) -> (controller: &PidController)
        ensures
            controller@ == self@.distance,
    {
        &self.distance_pid
    }

    /// The phase the drive is in.
    pub fn phase(&self) -> (phase: DrivePhase)
        ensures
            phase == self@.machine.phase,
    {
        self.machine.phase
    }

    /// The phase machine.
    pub fn machine(&self) -> (machine: &DrivePhaseMachine)
        ensures
            machine@ == self@.machine,
    {
        &self.machine
    }

    /// Whether [`on_tick`](Self::on_tick) can take in the two readings.
    pub fn accepts(&self, line_reading: i32, distance: Option<i32>) -> (ok: bool)
        ensures
            ok == self@.accepts(milli(line_reading as int), reading(distance)),
    {
        if !self.line_pid.accepts(line_reading) {
            return false;
        }
        match self.held_distance(distance) {
            Some(d) => self.distance_pid.accepts(d),
            None => true,
        }
    }

    /// The reading that the distance controller is to take in, if it is to
    /// take one in.
    fn held_distance(&self, distance: Option<i32>) -> (held: Option<i32>)
        ensures
            held == (if self@.regulates(reading(distance)) {
                distance
            } else {
                None
            }),
    {
        let thresholds: Thresholds = self.thresholds();
        let step: PhaseStep = self.machine.phase.step(distance, &thresholds);
        let follows: bool = match step {
            PhaseStep::Advance(next) => next == DrivePhase::Follow,
            _ => self.machine.phase == DrivePhase::Follow,
        };
        match distance {
            Some(d) => if follows && d < self.config.distance_trigger {
                Some(d)
            } else {
                None
            },
            None => None,
        }
    }

    /// The distances at which the phase changes.
    pub fn thresholds(&self) -> (thresholds: Thresholds)
        ensures
            thresholds@ == self@.levels(),
    {
        Thresholds {
            distance_center: self.distance_pid.center,
            distance_trigger: self.config.distance_trigger,
            stop_distance: self.config.stop_distance,
        }
    }

    /// What the arm is asked to do.
    pub fn arm(&self) -> (arm: ArmSettings)
        ensures
            arm == self@.arm(),
    {
        ArmSettings { rotate: self.config.rotate_arm, steady_duty: duty_cycle(self.config.arm_speed) }
    }

    /// Does the work of the tick `tick_index` on the two readings, the
    /// distance being absent where nothing is in range: steps the phase
    /// machine, lets the controllers take in what is theirs, and mixes the
    /// wheel speeds. A tick that cannot take in a reading is refused and leaves
    /// the drive as it was.
    pub fn on_tick(&mut self, tick_index: u64, line_reading: i32, distance: Option<i32>) -> (result:
        Result<TickOutput, ControlError>)
        ensures
            result is Ok <==> old(self)@.accepts(milli(line_reading as int), reading(distance)),
            result matches Ok(output) ==> {
                let expected = old(self)@.tick(
                    tick_index as int,
                    milli(line_reading as int),
                    reading(distance),
                );
                &&& final(self)@ == expected.state
                &&& output.action == expected.action
                &&& output.commands@ == expected.commands
            },
            result matches Err(error) ==> {
                &&& error == ControlError::InvalidSensorValue
                &&& final(self)@ == old(self)@
            },
    {
        proof {
            use_type_invariant(&*self);
        }
        if !self.accepts(line_reading, distance) {
            return Err(ControlError::InvalidSensorValue);
        }
        let held: Option<i32> = self.held_distance(distance);
        let thresholds: Thresholds = self.thresholds();
        let arm: ArmSettings = self.arm();
        let mut machine: DrivePhaseMachine = self.machine;
        let mut line_pid: PidController = self.line_pid;
        let mut distance_pid: PidController = self.distance_pid;
        let outcome: PhaseOutcome = machine.evaluate(tick_index, distance, &thresholds, &arm);
        let speed_output: i128 = match held {
            Some(d) => distance_pid.update(d),
            None => 0,
        };
        let line_output: i128 = line_pid.update(line_reading);
        self.machine = machine;
        self.line_pid = line_pid;
        self.distance_pid = distance_pid;
        let (spin_num, spin_den): (i64, i64) = self.spin();
        let (left, right): (i32, i32) = wheel_duties(
            self.config.base_speed,
            speed_output,
            line_output,
            spin_num,
            spin_den,
        );
        let PhaseOutcome { terminate, mut commands } = outcome;
        commands.push(ActuatorCommand::SetLeftSpeed(left));
        commands.push(ActuatorCommand::SetRightSpeed(right));
        let action: ControlAction = if terminate {
            ControlAction::RequestPhaseExit
        } else {
            ControlAction::Continue
        };
        proof {
            let expected = old(self)@.tick(
                tick_index as int,
                milli(line_reading as int),
                reading(distance),
            );
            assert(speed_correction(nano(speed_output as int)) == old(self)@.speed_correction_on(
                reading(distance),
            ));
            assert(commands@ =~= expected.commands);
        }
        Ok(TickOutput { action, commands })
    }

    /// The pull of the turn in the phase the drive is in, as a fraction with a
    /// positive denominator.
    fn spin(&self) -> (spin: (i64, i64))
        ensures
            -0x8000_0000 <= spin.0 <= 0x8000_0000,
            0 < spin.1 <= 0x8000_0000,
            spin.0 as real / spin.1 as real == (if self@.machine.phase == DrivePhase::Follow {
                self@.settings.spin()
            } else {
                0real
            }),
    {
        proof {
            use_type_invariant(self);
            lemma_spin_as_fraction(
                self.config.wheel_track_width as int,
                self.config.turn_diameter as int,
            );
        }
        if self.machine.phase == DrivePhase::Follow {
            if self.config.turn_diameter > 0 {
                (self.config.wheel_track_width as i64, self.config.turn_diameter as i64)
            } else {
                (-(self.config.wheel_track_width as i64), -(self.config.turn_diameter as i64))
            }
        } else {
            (0, 1)
        }
    }

    /// Enters the drive in `phase`: both controllers forget what they held,
    /// the line controller is seeded with the reading `initial_line_seed`, the
    /// distance controller with the error `initial_distance_seed`, and the
    /// wheels are started at the base speed.
    pub fn enter_phase(
        &mut self,
        phase: DrivePhase,
        initial_distance_seed: i64,
        initial_line_seed: i32,
    ) -> (commands: Vec<ActuatorCommand>)
        ensures
            final(self)@ == old(self)@.entered(
                phase,
                milli(initial_distance_seed as int),
                milli(initial_line_seed as int),
            ),
            commands@ == old(self)@.enter_commands(),
    {
        proof {
            use_type_invariant(&*self);
        }
        let mut line_pid: PidController = self.line_pid;
        line_pid.clear();
        line_pid.seed(initial_line_seed);
        let mut distance_pid: PidController = self.distance_pid;
        distance_pid.clear();
        distance_pid.seed_error(initial_distance_seed);
        self.line_pid = line_pid;
        self.distance_pid = distance_pid;
        self.machine = DrivePhaseMachine::new(phase);
        let duty: i32 = duty_cycle(self.config.base_speed);
        let mut commands: Vec<ActuatorCommand> = Vec::new();
        commands.push(ActuatorCommand::StartLeft);
        commands.push(ActuatorCommand::SetLeftSpeed(duty));
        commands.push(ActuatorCommand::StartRight);
        commands.push(ActuatorCommand::SetRightSpeed(duty));
        assert(commands@ =~= old(self)@.enter_commands());
        commands
    }

    /// Leaves the drive: both wheels and the arm are stopped, and what was
    /// scheduled for the arm is dropped.
    pub fn leave_phase(&mut self) -> (commands: Vec<ActuatorCommand>)
        ensures
            final(self)@ == old(self)@.left(),
            commands@ == leave_commands(),
    {
        proof {
            use_type_invariant(&*self);
        }
        self.machine = DrivePhaseMachine { phase: self.machine.phase, arm_started: None };
        let mut commands: Vec<ActuatorCommand> = Vec::new();
        commands.push(ActuatorCommand::StopLeft);
        commands.push(ActuatorCommand::StopRight);
        commands.push(ActuatorCommand::StopArm);
        assert(commands@ =~= leave_commands());
        commands
    }
}

} // verus!
