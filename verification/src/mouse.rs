use vstd::prelude::*;

verus! {

/// Which buttons of the pointing device are down.
#[derive(Debug, PartialEq, Eq, Structural, Clone, Copy)]
pub struct MouseButtons {
    pub left: bool,
    pub middle: bool,
    pub right: bool,
    pub x1: bool,
    pub x2: bool,
}

impl Default for MouseButtons {
    /// No button is down.
    fn default() -> (buttons: MouseButtons)
        ensures
            buttons == (MouseButtons {
                left: false,
                middle: false,
                right: false,
                x1: false,
                x2: false,
            }),
    {
        MouseButtons { left: false, middle: false, right: false, x1: false, x2: false }
    }
}

/// The four numbers that shaders get of the pointer.
///
/// `x` and `y` are where the pointer was when it last moved with the button
/// down. `press_x` and `press_y` are where the left button last went down.
/// They count as positive while `pressed` is set and as negative once the
/// button has been released: a shader tells a held button from a released one
/// by the sign.
#[derive(Debug, PartialEq, Eq, Structural, Clone, Copy)]
pub struct MouseState {
    pub x: u32,
    pub y: u32,
    pub press_x: u32,
    pub press_y: u32,
    pub pressed: bool,
}

impl MouseState {
    /// Whether a press is going on at a place that the pointer follows: the
    /// last two numbers are both greater than zero.
    pub open spec fn follows(self) -> bool {
        self.pressed && self.press_x > 0 && self.press_y > 0
    }

    /// The state after the buttons and the pointer have been looked at again.
    ///
    /// When the left button goes down, the place of the pointer becomes the
    /// place of the press, with positive sign. When it goes up, the sign of
    /// the place of the press flips. After that, the pointer's place is taken
    /// over if a press is going on.
    pub open spec fn updated(self, was_left: bool, left: bool, x: u32, y: u32) -> MouseState {
        let pressed = if left && !was_left {
            MouseState { press_x: x, press_y: y, pressed: true, ..self }
        } else if !left && was_left {
            MouseState { pressed: !self.pressed, ..self }
        } else {
            self
        };
        if pressed.follows() {
            MouseState { x, y, ..pressed }
        } else {
            pressed
        }
    }
}

/// Follows the pointer and the left button from update to update.
#[derive(Debug, Clone, Copy)]
pub struct Mouse {
    state: MouseState,
    buttons_last_update: MouseButtons,
}

impl Mouse {
    /// What shaders get of the pointer at present.
    pub closed spec fn state(self) -> MouseState {
        self.state
    }

    /// Whether the left button was down at the last update.
    pub closed spec fn left_was_down(self) -> bool {
        self.buttons_last_update.left
    }

    /// A pointer that has not moved and a button that has never been down:
    /// all four numbers are zero, the last two with negative sign.
    pub fn _new() -> (mouse: Mouse)
        ensures
            mouse.state() == (MouseState { x: 0, y: 0, press_x: 0, press_y: 0, pressed: false }),
            !mouse.left_was_down(),
    {
        Mouse {
            state: MouseState { x: 0, y: 0, press_x: 0, press_y: 0, pressed: false },
            buttons_last_update: MouseButtons::default(),
        }
    }

    /// Takes in the buttons that are down and the place of the pointer, and
    /// gives what shaders get of the pointer from now on.
    pub fn update(&mut self, buttons: MouseButtons, x: u32, y: u32) -> (state: MouseState)
        ensures
            state == old(self).state().updated(old(self).left_was_down(), buttons.left, x, y),
            final(self).state() == state,
            final(self).left_was_down() == buttons.left,
    {
        let mouse_down = buttons.left && !self.buttons_last_update.left;
        let mouse_up = !buttons.left && self.buttons_last_update.left;
        if mouse_down {
            self.down(x, y);
        } else if mouse_up {
            self.up();
        }
        self.hover(x, y);
        self.buttons_last_update = buttons;
        self.state
    }

    fn down(&mut self, x: u32, y: u32)
        ensures
            final(self).state == (MouseState {
                press_x: x,
                press_y: y,
                pressed: true,
                ..old(self).state
            }),
            final(self).buttons_last_update == old(self).buttons_last_update,
    {
        self.state.press_x = x;
        self.state.press_y = y;
        self.state.pressed = true;
    }

    fn up(&mut self)
        ensures
            final(self).state == (MouseState { pressed: !old(self).state.pressed, ..old(self).state }),
            final(self).buttons_last_update == old(self).buttons_last_update,
    {
        self.state.pressed = !self.state.pressed;
    }

    fn hover(&mut self, x: u32, y: u32)
        ensures
            final(self).state == (if old(self).state.follows() {
                MouseState { x, y, ..old(self).state }
            } else {
                old(self).state
            }),
            final(self).buttons_last_update == old(self).buttons_last_update,
    {
        if self.state.pressed && self.state.press_x > 0 && self.state.press_y > 0 {
            self.state.x = x;
            self.state.y = y;
        }
    }
}

impl Default for Mouse {
    fn default() -> (mouse: Mouse)
        ensures
            mouse.state() == (MouseState { x: 0, y: 0, press_x: 0, press_y: 0, pressed: false }),
            !mouse.left_was_down(),
    {
        Mouse::_new()
    }
}

/// The height of the pointer above the lower edge of a window, given its
/// distance from the upper edge; 0 for a pointer that is not inside the
/// window.
pub fn pointer_height(y: u32, window_height: u32) -> (height: u32)
    ensures
        height == (if y < window_height {
            (window_height - y) as u32
        } else {
            0u32
        }),
{
    if y < window_height {
        window_height - y
    } else {
        0
    }
}

} // verus!
