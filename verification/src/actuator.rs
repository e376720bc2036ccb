//! The commands the engine hands to whoever drives the hardware.

use vstd::prelude::*;
use crate::units::DUTY_LIMIT;

verus! {

/// One command for a motor or the signal. Speeds are duty cycles in whole
/// percent, from -100 to 100. The commands of a tick are carried out in the
/// order in which they are listed.
#[derive(Clone, Copy, Debug, PartialEq, Eq, Structural)]
pub enum ActuatorCommand {
    /// Switch the left drive motor on, ready to take speeds.
    StartLeft,
    /// Switch the right drive motor on, ready to take speeds.
    StartRight,
    SetLeftSpeed(i32),
    SetRightSpeed(i32),
    StopLeft,
    StopRight,
    /// Start the arm at full power, to get it turning.
    StartArmFullPower,
    SetArmSpeed(i32),
    StopArm,
    /// Tell the operator that the run is complete.
    SignalCompletion,
}

impl ActuatorCommand {
    /// Whether the command stops a motor.
    pub open spec fn stops(self) -> bool {
        self == ActuatorCommand::StopLeft || self == ActuatorCommand::StopRight || self
            == ActuatorCommand::StopArm
    }

    /// Whether the command asks a motor for no more than it can give: a speed
    /// it carries is a duty cycle from -100 to 100.
    pub open spec fn within_limit(self) -> bool {
        match self {
            ActuatorCommand::SetLeftSpeed(duty) => -DUTY_LIMIT <= duty <= DUTY_LIMIT,
            ActuatorCommand::SetRightSpeed(duty) => -DUTY_LIMIT <= duty <= DUTY_LIMIT,
            ActuatorCommand::SetArmSpeed(duty) => -DUTY_LIMIT <= duty <= DUTY_LIMIT,
            _ => true,
        }
    }
}

/// What the caller of a tick does next.
#[derive(Clone, Copy, Debug, PartialEq, Eq, Structural)]
pub enum ControlAction {
    /// Keep ticking.
    Continue,
    /// The run is over: leave the drive.
    RequestPhaseExit,
}

/// Why a tick was refused.
#[derive(Clone, Copy, Debug, PartialEq, Eq, Structural)]
pub enum ControlError {
    /// A reading that a controller cannot take in: its sum of errors would
    /// leave the range it can hold.
    InvalidSensorValue,
}

} // verus!
