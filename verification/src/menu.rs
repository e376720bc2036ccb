//! The selection menu: which button counts, and what it does to the cursor.

use vstd::prelude::*;

verus! {

/// A button of the brick.
#[derive(Clone, Copy, Debug, PartialEq, Eq, Structural)]
pub enum Button {
    Up,
    Down,
    Left,
    Right,
    Enter,
}

/// The button that counts as pressed where several are held: the first held
/// one in the order up, down, left, right, enter.
pub fn first_pressed(up: bool, down: bool, left: bool, right: bool, enter: bool) -> (button:
    Option<Button>)
    ensures
        button == (if up {
            Some(Button::Up)
        } else if down {
            Some(Button::Down)
        } else if left {
            Some(Button::Left)
        } else if right {
            Some(Button::Right)
        } else if enter {
            Some(Button::Enter)
        } else {
            None
        }),
{
    if up {
        Some(Button::Up)
    } else if down {
        Some(Button::Down)
    } else if left {
        Some(Button::Left)
    } else if right {
        Some(Button::Right)
    } else if enter {
        Some(Button::Enter)
    } else {
        None
    }
}

/// What a button press does in a menu.
#[derive(Clone, Copy, Debug, PartialEq, Eq, Structural)]
pub enum MenuStep {
    /// The cursor moves to the entry given.
    Move(usize),
    /// The entry given is chosen.
    Choose(usize),
    /// The menu is left without a choice.
    Leave,
}

/// What `button` does in a menu of `len` entries whose cursor is on `cursor`.
/// The cursor wraps round at both ends.
pub open spec fn menu_step(cursor: int, len: int, button: Button) -> MenuStep {
    match button {
        Button::Enter => MenuStep::Choose(cursor as usize),
        Button::Left => MenuStep::Leave,
        Button::Down => MenuStep::Move(
            if cursor + 1 >= len {
                0
            } else {
                (cursor + 1) as usize
            },
        ),
        Button::Up => MenuStep::Move(
            if cursor == 0 {
                (len - 1) as usize
            } else {
                (cursor - 1) as usize
            },
        ),
        Button::Right => MenuStep::Move(cursor as usize),
    }
}

/// What `button` does in a menu of `len` entries whose cursor is on `cursor`.
pub fn press(cursor: usize, len: usize, button: Button) -> (step: MenuStep)
    requires
        cursor < len,
    ensures
        step == menu_step(cursor as int, len as int, button),
        step matches MenuStep::Move(next) ==> next < len,
        step matches MenuStep::Choose(chosen) ==> chosen < len,
{
    match button {
        Button::Enter => MenuStep::Choose(cursor),
        Button::Left => MenuStep::Leave,
        Button::Down => if cursor + 1 >= len {
            MenuStep::Move(0)
        } else {
            MenuStep::Move(cursor + 1)
        },
        Button::Up => if cursor == 0 {
            MenuStep::Move(len - 1)
        } else {
            MenuStep::Move(cursor - 1)
        },
        Button::Right => MenuStep::Move(cursor),
    }
}

/// Going down and then up, or up and then down, brings the cursor back.
pub proof fn lemma_up_undoes_down(cursor: int, len: int)
    requires
        0 <= cursor < len,
        len <= usize::MAX,
    ensures
        menu_step(cursor, len, Button::Down) matches MenuStep::Move(below) && menu_step(
            below as int,
            len,
            Button::Up,
        ) == MenuStep::Move(cursor as usize),
        menu_step(cursor, len, Button::Up) matches MenuStep::Move(above) && menu_step(
            above as int,
            len,
            Button::Down,
        ) == MenuStep::Move(cursor as usize),
{
}

} // verus!
