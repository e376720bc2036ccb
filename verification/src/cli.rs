//! The subcommands of the command line, and the names of the states.

use vstd::prelude::*;
use vstd::string::StrSliceExecFns;
use crate::menu::{menu_step, press, Button, MenuStep};
use crate::state::RobotState;

verus! {

/// What the first argument of the command line asks for.
#[derive(Clone, Copy, Debug, PartialEq, Eq, Structural)]
pub enum Subcommand {
    /// Show the usage.
    Help,
    /// Start in the state given.
    Run(RobotState),
    /// Turn the left wheel by the amount that follows.
    StepLeft,
    /// Turn the right wheel by the amount that follows.
    StepRight,
    /// Show what the robot is made of.
    Print,
}

/// The subcommand that `arg` names, if it names one.
pub open spec fn subcommand_named(arg: Seq<char>) -> Option<Subcommand> {
    if arg == "help"@ {
        Some(Subcommand::Help)
    } else if arg == "exit"@ {
        Some(Subcommand::Run(RobotState::Exit))
    } else if arg == "menu"@ {
        Some(Subcommand::Run(RobotState::InMenu))
    } else if arg == "test"@ {
        Some(Subcommand::Run(RobotState::Test))
    } else if arg == "measure"@ {
        Some(Subcommand::Run(RobotState::Measure))
    } else if arg == "drive"@ {
        Some(Subcommand::Run(RobotState::DriveEntry))
    } else if arg == "driveS"@ {
        Some(Subcommand::Run(RobotState::DriveSimpleOnly))
    } else if arg == "l"@ {
        Some(Subcommand::StepLeft)
    } else if arg == "r"@ {
        Some(Subcommand::StepRight)
    } else if arg == "print"@ {
        Some(Subcommand::Print)
    } else {
        None
    }
}

/// Whether two texts are the same, character by character.
pub fn same_text(a: &str, b: &str) -> (same: bool)
    ensures
        same == (a@ == b@),
{
    let len: usize = a.unicode_len();
    if len != b.unicode_len() {
        return false;
    }
    let mut i: usize = 0;
    while i < len
        invariant
            i <= len,
            len == a@.len(),
            len == b@.len(),
            a@.take(i as int) == b@.take(i as int),
        decreases len - i,
    {
        if a.get_char(i) != b.get_char(i) {
            assert(a@[i as int] != b@[i as int]);
            return false;
        }
        assert(a@.take(i + 1) =~= a@.take(i as int).push(a@[i as int]));
        assert(b@.take(i + 1) =~= b@.take(i as int).push(b@[i as int]));
        i = i + 1;
    }
    assert(a@.take(len as int) =~= a@);
    assert(b@.take(len as int) =~= b@);
    true
}

/// The subcommand that `arg` names. Names are told apart by case, and none is
/// known by a part of it.
pub fn parse_subcommand(arg: &str) -> (subcommand: Option<Subcommand>)
    ensures
        subcommand == subcommand_named(arg@),
{
    if same_text(arg, "help") {
        Some(Subcommand::Help)
    } else if same_text(arg, "exit") {
        Some(Subcommand::Run(RobotState::Exit))
    } else if same_text(arg, "menu") {
        Some(Subcommand::Run(RobotState::InMenu))
    } else if same_text(arg, "test") {
        Some(Subcommand::Run(RobotState::Test))
    } else if same_text(arg, "measure") {
        Some(Subcommand::Run(RobotState::Measure))
    } else if same_text(arg, "drive") {
        Some(Subcommand::Run(RobotState::DriveEntry))
    } else if same_text(arg, "driveS") {
        Some(Subcommand::Run(RobotState::DriveSimpleOnly))
    } else if same_text(arg, "l") {
        Some(Subcommand::StepLeft)
    } else if same_text(arg, "r") {
        Some(Subcommand::StepRight)
    } else if same_text(arg, "print") {
        Some(Subcommand::Print)
    } else {
        None
    }
}

/// What the program starts with: the subcommand of the first argument, or the
/// menu where there is no argument. An argument that names no subcommand
/// starts nothing.
pub fn startup(arg: Option<&str>) -> (subcommand: Option<Subcommand>)
    ensures
        subcommand == (match arg {
            Some(name) => subcommand_named(name@),
            None => Some(Subcommand::Run(RobotState::InMenu)),
        }),
{
    match arg {
        Some(name) => parse_subcommand(name),
        None => Some(Subcommand::Run(RobotState::InMenu)),
    }
}

/// The states that the menu offers, in the order in which it lists them.
pub open spec fn menu_states() -> Seq<RobotState> {
    seq![
        RobotState::Exit,
        RobotState::InMenu,
        RobotState::Test,
        RobotState::Measure,
        RobotState::DriveEntry,
        RobotState::DriveFollow,
        RobotState::DriveExit,
        RobotState::DriveSimpleOnly,
    ]
}

/// The name under which the menu lists `state`.
pub open spec fn menu_name(state: RobotState) -> Seq<char> {
    match state {
        RobotState::Exit => "exit"@,
        RobotState::InMenu => "menu"@,
        RobotState::Test => "test"@,
        RobotState::Measure => "measure"@,
        RobotState::DriveEntry => "drive entry"@,
        RobotState::DriveFollow => "drive follow"@,
        RobotState::DriveExit => "drive exit"@,
        RobotState::DriveSimpleOnly => "drive sim"@,
    }
}

/// The entries of the menu, each with its name, in the order in which they
/// are listed. Every state has exactly one entry.
pub fn menu_entries() -> (entries: Vec<(&'static str, RobotState)>)
    ensures
        entries@.len() == menu_states().len(),
        forall|i: int|
            0 <= i < entries@.len() ==> (#[trigger] entries@[i]).1 == menu_states()[i]
                && entries@[i].0@ == menu_name(menu_states()[i]),
{
    let mut entries: Vec<(&'static str, RobotState)> = Vec::new();
    entries.push(("exit", RobotState::Exit));
    entries.push(("menu", RobotState::InMenu));
    entries.push(("test", RobotState::Test));
    entries.push(("measure", RobotState::Measure));
    entries.push(("drive entry", RobotState::DriveEntry));
    entries.push(("drive follow", RobotState::DriveFollow));
    entries.push(("drive exit", RobotState::DriveExit));
    entries.push(("drive sim", RobotState::DriveSimpleOnly));
    entries
}

/// What a press of a button in the menu of states comes to.
#[derive(Clone, Copy, Debug, PartialEq, Eq, Structural)]
pub enum Selection {
    /// The menu stays open, with the cursor on the entry given.
    Browse(usize),
    /// The menu closes, and the robot moves to the state given.
    Select(RobotState),
}

/// What `button` comes to in the menu of states with the cursor on `cursor`:
/// enter selects the state under the cursor, left selects the end of the
/// program, and the other buttons move the cursor or leave it.
pub open spec fn selection(cursor: int, button: Button) -> Selection {
    match menu_step(cursor, menu_states().len() as int, button) {
        MenuStep::Choose(chosen) => Selection::Select(menu_states()[chosen as int]),
        MenuStep::Leave => Selection::Select(RobotState::Exit),
        MenuStep::Move(next) => Selection::Browse(next),
    }
}

/// What `button` comes to in the menu of states with the cursor on `cursor`.
pub fn select(cursor: usize, button: Button) -> (outcome: Selection)
    requires
        cursor < menu_states().len(),
    ensures
        outcome == selection(cursor as int, button),
        outcome matches Selection::Browse(next) ==> next < menu_states().len(),
{
    let entries: Vec<(&'static str, RobotState)> = menu_entries();
    match press(cursor, entries.len(), button) {
        MenuStep::Choose(chosen) => Selection::Select(entries[chosen].1),
        MenuStep::Leave => Selection::Select(RobotState::Exit),
        MenuStep::Move(next) => Selection::Browse(next),
    }
}

} // verus!
