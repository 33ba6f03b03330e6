use vstd::prelude::*;

verus! {

/// The mouse button that each click action presses.
#[derive(Clone, Copy, Debug, PartialEq, Eq, Structural)]
pub enum MouseButton {
    Left,
    Right,
    Middle,
}

impl MouseButton {
    /// The code under which a button is stored in the shared engine state.
    pub open spec fn spec_code(self) -> u8 {
        match self {
            MouseButton::Left => 0,
            MouseButton::Right => 1,
            MouseButton::Middle => 2,
        }
    }

    /// The button that the click worker presses for a stored code: codes
    /// other than those of the right and the middle button mean the left one.
    pub open spec fn decoded(code: u8) -> MouseButton {
        if code == 1 {
            MouseButton::Right
        } else if code == 2 {
            MouseButton::Middle
        } else {
            MouseButton::Left
        }
    }

    /// The name under which the button is offered in the window.
    pub open spec fn label_text(self) -> Seq<char> {
        match self {
            MouseButton::Left => "Left"@,
            MouseButton::Right => "Right"@,
            MouseButton::Middle => "Middle"@,
        }
    }

    /// The name under which the button is offered in the window.
    pub fn label(self) -> (text: &'static str)
        ensures
            text@ == self.label_text(),
            self == MouseButton::Left ==> text@ == "Left"@,
            self == MouseButton::Right ==> text@ == "Right"@,
            self == MouseButton::Middle ==> text@ == "Middle"@,
    {
        match self {
            MouseButton::Left => "Left",
            MouseButton::Right => "Right",
            MouseButton::Middle => "Middle",
        }
    }

    /// The code under which the button is stored in the shared engine state.
    pub fn code(self) -> (code: u8)
        ensures
            code == self.spec_code(),
            code <= 2,
            self == MouseButton::Left ==> code == 0,
            self == MouseButton::Right ==> code == 1,
            self == MouseButton::Middle ==> code == 2,
    {
        match self {
            MouseButton::Left => 0,
            MouseButton::Right => 1,
            MouseButton::Middle => 2,
        }
    }

    /// The button that the click worker presses for a stored code.
    pub fn from_code(code: u8) -> (button: MouseButton)
        ensures
            button == MouseButton::decoded(code),
            code == 1 ==> button == MouseButton::Right,
            code == 2 ==> button == MouseButton::Middle,
            code != 1 && code != 2 ==> button == MouseButton::Left,
    {
        if code == 1 {
            MouseButton::Right
        } else if code == 2 {
            MouseButton::Middle
        } else {
            MouseButton::Left
        }
    }
}

/// Storing a button by its code and reading the code back gives the same
/// button, and different buttons are stored under different codes.
pub proof fn lemma_code_round_trip(b: MouseButton, c: MouseButton)
    ensures
        MouseButton::decoded(b.spec_code()) == b,
        b.spec_code() == c.spec_code() ==> b == c,
{
}

/// A stored code names the button that it decodes to exactly when it is one
/// of the three codes that buttons are stored under.
pub proof fn lemma_decoded_code(code: u8)
    ensures
        MouseButton::decoded(code).spec_code() == code <==> code <= 2,
{
}

} // verus!
