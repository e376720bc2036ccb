//! Drive control engine of a two-wheeled line follower.
//!
//! Two controllers, one on the line and one on the distance to a wall, a
//! phase machine that takes the robot to the wall, round it and away from it,
//! and a fixed-period scheduler; beside them the menu, the command line, and
//! the screen with its fonts.
//!
//! The engine touches no hardware. Its caller reads the sensors and the
//! clock, hands the readings in, and carries out the commands that come back.
//!
//! Real quantities are held as whole numbers of a fixed fraction of their unit
//! (see [`units`]), and everything computed on them is exact: the contracts
//! speak of the real numbers that they stand for, and the only rounding is
//! that of a wheel speed to a duty cycle in whole percent.

pub mod actuator;
pub mod cli;
pub mod drive;
pub mod font;
pub mod lcd;
pub mod menu;
pub mod mixer;
pub mod phase;
pub mod pid;
pub mod scheduler;
pub mod sensors;
pub mod state;
pub mod units;
