//! The states of the whole robot, and the moves between them.

use vstd::prelude::*;
use crate::actuator::{ActuatorCommand, ControlAction, ControlError};
use crate::drive::{leave_commands, standard_drive, DriveContext, DriveState, TickOutput};
use crate::phase::DrivePhase;
use crate::units::{milli, reading};

verus! {

/// What the robot is doing.
#[derive(Clone, Copy, Debug, PartialEq, Eq, Structural)]
pub enum RobotState {
    /// Done: the program ends.
    Exit,
    /// Waiting for a choice in the menu.
    InMenu,
    /// Running the arm test.
    Test,
    /// Showing what the sensors read.
    Measure,
    /// Driving on the line only, for tuning.
    DriveSimpleOnly,
    DriveEntry,
    DriveFollow,
    DriveExit,
}

impl Default for RobotState {
    fn default() -> (state: RobotState)
        ensures
            state == RobotState::InMenu,
    {
        RobotState::InMenu
    }
}

/// The phase of the drive that `state` is part of, if it is part of one.
pub open spec fn drive_phase_of(state: RobotState) -> Option<DrivePhase> {
    match state {
        RobotState::DriveSimpleOnly => Some(DrivePhase::SimpleOnly),
        RobotState::DriveEntry => Some(DrivePhase::Entry),
        RobotState::DriveFollow => Some(DrivePhase::Follow),
        RobotState::DriveExit => Some(DrivePhase::Exit),
        _ => None,
    }
}

/// The state of a robot that drives in `phase`.
pub open spec fn driving_in(phase: DrivePhase) -> RobotState {
    match phase {
        DrivePhase::SimpleOnly => RobotState::DriveSimpleOnly,
        DrivePhase::Entry => RobotState::DriveEntry,
        DrivePhase::Follow => RobotState::DriveFollow,
        DrivePhase::Exit => RobotState::DriveExit,
    }
}

impl RobotState {
    /// The phase of the drive that this state is part of, if it is part of
    /// one.
    pub fn drive_phase(self) -> (phase: Option<DrivePhase>)
        ensures
            phase == drive_phase_of(self),
    {
        match self {
            RobotState::DriveSimpleOnly => Some(DrivePhase::SimpleOnly),
            RobotState::DriveEntry => Some(DrivePhase::Entry),
            RobotState::DriveFollow => Some(DrivePhase::Follow),
            RobotState::DriveExit => Some(DrivePhase::Exit),
            _ => None,
        }
    }

    /// The state of a robot that drives in `phase`.
    pub fn driving(phase: DrivePhase) -> (state: RobotState)
        ensures
            state == driving_in(phase),
    {
        match phase {
            DrivePhase::SimpleOnly => RobotState::DriveSimpleOnly,
            DrivePhase::Entry => RobotState::DriveEntry,
            DrivePhase::Follow => RobotState::DriveFollow,
            DrivePhase::Exit => RobotState::DriveExit,
        }
    }
}

/// A drive state and its phase stand for each other.
pub proof fn lemma_drive_states_match_phases(state: RobotState, phase: DrivePhase)
    ensures
        drive_phase_of(driving_in(phase)) == Some(phase),
        drive_phase_of(state) matches Some(p) ==> driving_in(p) == state,
{
}

/// What the robot does apart from driving.
#[derive(Clone, Copy, Debug, PartialEq, Eq, Structural)]
pub enum Mode {
    Exit,
    InMenu,
    Test,
    Measure,
    /// Driving, in the phase that the drive holds.
    Driving,
}

/// The mode that `state` belongs to.
pub open spec fn mode_of(state: RobotState) -> Mode {
    match state {
        RobotState::Exit => Mode::Exit,
        RobotState::InMenu => Mode::InMenu,
        RobotState::Test => Mode::Test,
        RobotState::Measure => Mode::Measure,
        _ => Mode::Driving,
    }
}

/// What a tick of the whole robot has to run.
#[derive(Clone, Copy, Debug, PartialEq, Eq, Structural)]
pub enum Activity {
    /// Nothing more: end the loop.
    Quit,
    /// Let the operator choose the next state.
    SelectFromMenu,
    /// Run the arm test, then [`Program::finish_test`].
    RunTest,
    /// Show the readings, then [`Program::finish_measure`].
    RunMeasure,
    /// Read the sensors and run [`Program::drive`].
    Drive,
}

/// The whole robot as a mathematical object.
pub struct ProgramState {
    pub mode: Mode,
    pub drive: DriveState,
}

impl ProgramState {
    /// The state the robot is in.
    pub open spec fn state(self) -> RobotState {
        match self.mode {
            Mode::Exit => RobotState::Exit,
            Mode::InMenu => RobotState::InMenu,
            Mode::Test => RobotState::Test,
            Mode::Measure => RobotState::Measure,
            Mode::Driving => driving_in(self.drive.machine.phase),
        }
    }

    /// The robot after a move to `new_state`: a drive that was on is left, and
    /// a drive that `new_state` is part of is entered, the line controller
    /// seeded with `line_seed` and the distance controller with no error.
    pub open spec fn moved_to(self, new_state: RobotState, line_seed: real) -> ProgramState {
        let drive = if self.mode == Mode::Driving {
            self.drive.left()
        } else {
            self.drive
        };
        ProgramState {
            mode: mode_of(new_state),
            drive: match drive_phase_of(new_state) {
                Some(phase) => drive.entered(phase, 0real, line_seed),
                None => drive,
            },
        }
    }

    /// The commands of a move to `new_state`: those that leave a drive that
    /// was on, then those that enter the one that `new_state` is part of.
    pub open spec fn move_commands(self, new_state: RobotState) -> Seq<ActuatorCommand> {
        (if self.mode == Mode::Driving {
            leave_commands()
        } else {
            seq![]
        }) + (if drive_phase_of(new_state) is Some {
            self.drive.enter_commands()
        } else {
            seq![]
        })
    }
}

/// In a move, the drive that was on is stopped before the next one is started:
/// once a command of the move does anything but stop a motor, none after it
/// stops one.
pub proof fn lemma_stops_come_first(state: ProgramState, new_state: RobotState)
    ensures
        forall|i: int, j: int|
            0 <= i < j < state.move_commands(new_state).len() && !(
            #[trigger] state.move_commands(new_state)[i]).stops() ==> !(
            #[trigger] state.move_commands(new_state)[j]).stops(),
{
}

/// The whole robot: what it is doing, and its drive.
#[derive(Debug)]
pub struct Program {
    mode: Mode,
    drive: DriveContext,
}

impl View for Program {
    type V = ProgramState;

    closed spec fn view(&self) -> ProgramState {
        ProgramState { mode: self.mode, drive: self.drive@ }
    }
}

impl Default for Program {
    /// A robot in the menu, with the standard drive.
    fn default() -> (program: Program)
        ensures
            program@.mode == Mode::InMenu,
            program@.drive == standard_drive(),
    {
        Program::new(DriveContext::standard())
    }
}

impl Program {
    /// A robot in the menu, with `drive` as its drive.
    pub fn new(drive: DriveContext) -> (program: Program)
        ensures
            program@ == (ProgramState { mode: Mode::InMenu, drive: drive@ }),
    {
        Program { mode: Mode::InMenu, drive }
    }

    /// The state the robot is in.
    pub fn state(&self) -> (state: RobotState)
        ensures
            state == self@.state(),
    {
        match self.mode {
            Mode::Exit => RobotState::Exit,
            Mode::InMenu => RobotState::InMenu,
            Mode::Test => RobotState::Test,
            Mode::Measure => RobotState::Measure,
            Mode::Driving => RobotState::driving(self.drive.phase()),
        }
    }

    /// The drive.
    pub fn drive_context(&self) -> (drive: &DriveContext)
        ensures
            drive@ == self@.drive,
    {
        &self.drive
    }

    /// What this tick has to run.
    pub fn activity(&self) -> (activity: Activity)
        ensures
            activity == (match self@.mode {
                Mode::Exit => Activity::Quit,
                Mode::InMenu => Activity::SelectFromMenu,
                Mode::Test => Activity::RunTest,
                Mode::Measure => Activity::RunMeasure,
                Mode::Driving => Activity::Drive,
            }),
    {
        match self.mode {
            Mode::Exit => Activity::Quit,
            Mode::InMenu => Activity::SelectFromMenu,
            Mode::Test => Activity::RunTest,
            Mode::Measure => Activity::RunMeasure,
            Mode::Driving => Activity::Drive,
        }
    }

    /// Moves to `new_state`. `line_seed` is the line reading of this moment;
    /// it counts only where `new_state` is part of a drive.
    pub fn next_state(&mut self, new_state: RobotState, line_seed: i32) -> (commands: Vec<
        ActuatorCommand,
    >)
        ensures
            final(self)@ == old(self)@.moved_to(new_state, milli(line_seed as int)),
            commands@ == old(self)@.move_commands(new_state),
    {
        let mut commands: Vec<ActuatorCommand> = Vec::new();
        if self.mode == Mode::Driving {
            let mut leaving: Vec<ActuatorCommand> = self.drive.leave_phase();
            commands.append(&mut leaving);
        }
        match new_state.drive_phase() {
            Some(phase) => {
                let mut entering: Vec<ActuatorCommand> = self.drive.enter_phase(phase, 0, line_seed);
                commands.append(&mut entering);
                self.mode = Mode::Driving;
            },
            None => {
                self.mode = match new_state {
                    RobotState::Exit => Mode::Exit,
                    RobotState::Test => Mode::Test,
                    RobotState::Measure => Mode::Measure,
                    _ => Mode::InMenu,
                };
            },
        }
        assert(commands@ =~= old(self)@.move_commands(new_state));
        commands
    }

    /// The arm test is over: the program ends.
    pub fn finish_test(&mut self)
        ensures
            final(self)@ == (ProgramState { mode: Mode::Exit, ..old(self)@ }),
    {
        self.mode = Mode::Exit;
    }

    /// The measuring is over: back to the menu.
    pub fn finish_measure(&mut self)
        ensures
            final(self)@ == (ProgramState { mode: Mode::InMenu, ..old(self)@ }),
    {
        self.mode = Mode::InMenu;
    }

    /// One tick of the drive. Where the drive asks to be left, the program
    /// ends; the wheels are still to be stopped by the caller.
    pub fn drive(&mut self, tick_index: u64, line_reading: i32, distance: Option<i32>) -> (result:
        Result<TickOutput, ControlError>)
        ensures
            result is Ok <==> old(self)@.drive.accepts(
                milli(line_reading as int),
                reading(distance),
            ),
            result matches Ok(output) ==> {
                let expected = old(self)@.drive.tick(
                    tick_index as int,
                    milli(line_reading as int),
                    reading(distance),
                );
                &&& final(self)@.drive == expected.state
                &&& final(self)@.mode == (if expected.action == ControlAction::RequestPhaseExit {
                    Mode::Exit
                } else {
                    old(self)@.mode
                })
                &&& output.action == expected.action
                &&& output.commands@ == expected.commands
            },
            result matches Err(error) ==> {
                &&& error == ControlError::InvalidSensorValue
                &&& final(self)@ == old(self)@
            },
    {
        let result: Result<TickOutput, ControlError> = self.drive.on_tick(
            tick_index,
            line_reading,
            distance,
        );
        match &result {
            Ok(output) => {
                if output.action == ControlAction::RequestPhaseExit {
                    self.mode = Mode::Exit;
                }
            },
            Err(_) => {},
        }
        result
    }
}

} // verus!
