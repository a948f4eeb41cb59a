//! Mouse input, as the editor wants it told.

use vstd::prelude::*;
use vstd::string::StringExecFns;

verus! {

/// A button of the mouse, or its wheel.
#[derive(Clone, Copy, Debug, PartialEq, Eq, Structural)]
pub enum Mouse {
    Left,
    Middle,
    Right,
    Wheel,
}

/// What was done with the mouse.
#[derive(Clone, Copy, Debug, PartialEq, Eq, Structural)]
pub enum Action {
    Pressed,
    Released,
    Drag,
    ScrollUp,
    ScrollDown,
    ScrollLeft,
    ScrollRight,
}

/// The sign of a number.
#[derive(Clone, Copy, Debug, PartialEq, Eq, Structural)]
pub enum Sign {
    Negative,
    Zero,
    Positive,
}

/// The name of the button for `nvim_input_mouse`.
pub open spec fn button_name(mouse: Mouse) -> Seq<char> {
    match mouse {
        Mouse::Left => "left"@,
        Mouse::Middle => "middle"@,
        Mouse::Right => "right"@,
        Mouse::Wheel => "wheel"@,
    }
}

/// The name of the action for `nvim_input_mouse`.
pub open spec fn action_name(action: Action) -> Seq<char> {
    match action {
        Action::Pressed => "press"@,
        Action::Released => "release"@,
        Action::Drag => "drag"@,
        Action::ScrollUp => "up"@,
        Action::ScrollDown => "down"@,
        Action::ScrollLeft => "left"@,
        Action::ScrollRight => "right"@,
    }
}

/// The action of a turn of the wheel by `dx` and `dy`: sideways before up
/// and down; none where the wheel did not turn.
pub open spec fn scroll_of(dx: Sign, dy: Sign) -> Option<Action> {
    match (dx, dy) {
        (Sign::Positive, _) => Some(Action::ScrollRight),
        (Sign::Negative, _) => Some(Action::ScrollLeft),
        (Sign::Zero, Sign::Positive) => Some(Action::ScrollDown),
        (Sign::Zero, Sign::Negative) => Some(Action::ScrollUp),
        (Sign::Zero, Sign::Zero) => None,
    }
}

/// The button with this number, as pointer devices count them: 2 the
/// middle one, 3 the right one, every other the left one.
pub open spec fn button_of(number: u32) -> Mouse {
    if number == 2 {
        Mouse::Middle
    } else if number == 3 {
        Mouse::Right
    } else {
        Mouse::Left
    }
}

/// The prefix of one modifier key: its letter and a dash where the key is
/// held, nothing where it is not.
pub open spec fn modifier_part(held: bool, prefix: Seq<char>) -> Seq<char> {
    if held {
        prefix
    } else {
        Seq::empty()
    }
}

/// The modifier keys that are held, as `nvim_input_mouse` wants them: shift,
/// control, alt, in this order.
pub open spec fn modifier_of(shift: bool, control: bool, alt: bool) -> Seq<char> {
    modifier_part(shift, "S-"@) + modifier_part(control, "C-"@) + modifier_part(alt, "A-"@)
}

/// The modifier keys that are held, as `nvim_input_mouse` wants them.
pub fn modifier_to_nvim(shift: bool, control: bool, alt: bool) -> (modifier: String)
    ensures
        modifier@ == modifier_of(shift, control, alt),
{
    let mut modifier = String::new();
    if shift {
        modifier.append("S-");
    }
    if control {
        modifier.append("C-");
    }
    if alt {
        modifier.append("A-");
    }
    assert(modifier@ =~= modifier_of(shift, control, alt));
    modifier
}

impl Mouse {
    /// The button with this number.
    pub fn from_button(number: u32) -> (mouse: Mouse)
        ensures
            mouse == button_of(number),
    {
        if number == 2 {
            Mouse::Middle
        } else if number == 3 {
            Mouse::Right
        } else {
            Mouse::Left
        }
    }

    /// The name of the button for `nvim_input_mouse`.
    pub fn as_nvim_str(&self) -> (name: &'static str)
        ensures
            name@ == button_name(*self),
    {
        match self {
            Mouse::Left => "left",
            Mouse::Middle => "middle",
            Mouse::Right => "right",
            Mouse::Wheel => "wheel",
        }
    }
}

impl Action {
    /// The name of the action for `nvim_input_mouse`.
    pub fn as_nvim_str(&self) -> (name: &'static str)
        ensures
            name@ == action_name(*self),
    {
        match self {
            Action::Pressed => "press",
            Action::Released => "release",
            Action::Drag => "drag",
            Action::ScrollUp => "up",
            Action::ScrollDown => "down",
            Action::ScrollLeft => "left",
            Action::ScrollRight => "right",
        }
    }

    /// The action of a turn of the wheel by `dx` and `dy`.
    pub fn scroll(dx: Sign, dy: Sign) -> (r: Option<Action>)
        ensures
            r == scroll_of(dx, dy),
    {
        match dx {
            Sign::Positive => Some(Action::ScrollRight),
            Sign::Negative => Some(Action::ScrollLeft),
            Sign::Zero => match dy {
                Sign::Positive => Some(Action::ScrollDown),
                Sign::Negative => Some(Action::ScrollUp),
                Sign::Zero => None,
            },
        }
    }
}

/// The cell under a dragged pointer. A drag is told to the editor only when
/// it reaches another cell.
pub struct DragTracker {
    row: usize,
    col: usize,
}

impl View for DragTracker {
    type V = (usize, usize);

    /// The row and the column of the cell last told.
    closed spec fn view(&self) -> (usize, usize) {
        (self.row, self.col)
    }
}

impl DragTracker {
    /// A tracker at the first cell.
    pub fn new() -> (t: DragTracker)
        ensures
            t@ == (0usize, 0usize),
    {
        DragTracker { row: 0, col: 0 }
    }

    /// Takes in the cell under the pointer; says whether it is another than
    /// the one last told, and is then to be told.
    pub fn moved(&mut self, row: usize, col: usize) -> (r: bool)
        ensures
            r == (old(self)@ != (row, col)),
            final(self)@ == (row, col),
    {
        if self.row != row || self.col != col {
            self.row = row;
            self.col = col;
            true
        } else {
            false
        }
    }
}

} // verus!
