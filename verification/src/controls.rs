//! What the keyboard and the mouse do to a running simulation.
//!
//! The controls keep three switches: whether the simulation is paused,
//! whether a screenshot has been asked for, and whether the mouse button
//! that turns the camera is held down. Every input either flips one of
//! them or is passed on to the camera.

use vstd::prelude::*;

verus! {

/// The number of the mouse button that turns the camera while held down.
pub const TURN_BUTTON: u32 = 1;

/// A key, as far as the controls tell keys apart.
#[derive(Clone, Copy, Debug, PartialEq, Eq, Structural)]
pub enum Key {
    /// The space bar, which pauses and resumes.
    Space,
    /// The return key, which asks for a screenshot.
    Return,
    /// Any other key that has a name.
    Other,
    /// A key without a name.
    Unnamed,
}

/// An input from a device.
#[derive(Clone, Copy, Debug, PartialEq, Eq, Structural)]
pub enum Input {
    /// A key went down (`pressed`) or up.
    Key { key: Key, pressed: bool },
    /// The mouse wheel was turned.
    Wheel,
    /// A mouse button went down (`pressed`) or up.
    Button { button: u32, pressed: bool },
    /// The mouse was moved.
    Motion,
    /// Anything else.
    Other,
}

/// What is to be done with an input once the controls have seen it.
#[derive(Clone, Copy, Debug, PartialEq, Eq, Structural)]
pub enum Route {
    /// The controls have dealt with it.
    Done,
    /// It is a key for the camera.
    CameraKey,
    /// It is a turn of the wheel for the camera.
    CameraScroll,
    /// It is a movement of the mouse that turns the camera.
    CameraTurn,
    /// Nobody wants it.
    Unused,
}

/// The three switches.
#[derive(Clone, Copy, Debug, PartialEq, Eq, Structural)]
pub struct Controls {
    paused: bool,
    need_screenshot: bool,
    mouse_pressed: bool,
}

/// The switches as the contracts see them.
pub struct ControlsView {
    /// Whether the simulation stands still.
    pub paused: bool,
    /// Whether a screenshot has been asked for and not yet taken.
    pub need_screenshot: bool,
    /// Whether the button that turns the camera is held down.
    pub mouse_pressed: bool,
}

/// The switches after an input.
///
/// The space bar flips the pause and the return key asks for a screenshot,
/// each when it goes down and not when it comes up. The turn button sets
/// its switch to whether it is down. Nothing else changes a switch.
pub open spec fn after_input(state: ControlsView, input: Input) -> ControlsView {
    match input {
        Input::Key { key: Key::Space, pressed: true } => ControlsView {
            paused: !state.paused,
            ..state
        },
        Input::Key { key: Key::Return, pressed: true } => ControlsView {
            need_screenshot: true,
            ..state
        },
        Input::Button { button, pressed } => if button == TURN_BUTTON {
            ControlsView { mouse_pressed: pressed, ..state }
        } else {
            state
        },
        _ => state,
    }
}

/// Where an input goes, given the switches it meets.
///
/// Named keys other than the space bar and the return key go to the
/// camera, and so does every turn of the wheel. A movement of the mouse
/// goes to the camera while the turn button is down and is dropped
/// otherwise. Unnamed keys, other buttons and other inputs are not used.
pub open spec fn route_of(state: ControlsView, input: Input) -> Route {
    match input {
        Input::Key { key: Key::Space, .. } => Route::Done,
        Input::Key { key: Key::Return, .. } => Route::Done,
        Input::Key { key: Key::Other, .. } => Route::CameraKey,
        Input::Key { key: Key::Unnamed, .. } => Route::Unused,
        Input::Wheel => Route::CameraScroll,
        Input::Button { button, .. } => if button == TURN_BUTTON {
            Route::Done
        } else {
            Route::Unused
        },
        Input::Motion => if state.mouse_pressed {
            Route::CameraTurn
        } else {
            Route::Done
        },
        Input::Other => Route::Unused,
    }
}

/// Pressing the space bar twice, whatever is released in between, leaves
/// the pause as it was.
pub proof fn lemma_pause_toggles(state: ControlsView)
    ensures
        after_input(
            after_input(state, Input::Key { key: Key::Space, pressed: true }),
            Input::Key { key: Key::Space, pressed: true },
        ) == state,
        after_input(state, Input::Key { key: Key::Space, pressed: false }) == state,
{
}

/// No input withdraws a request for a screenshot: only taking it does.
pub proof fn lemma_request_stands(state: ControlsView, input: Input)
    requires
        state.need_screenshot,
    ensures
        after_input(state, input).need_screenshot,
{
}

impl View for Controls {
    type V = ControlsView;

    closed spec fn view(&self) -> ControlsView {
        ControlsView {
            paused: self.paused,
            need_screenshot: self.need_screenshot,
            mouse_pressed: self.mouse_pressed,
        }
    }
}

impl Controls {
    /// Running, with no screenshot asked for and no button down.
    pub fn new() -> (made: Self)
        ensures
            made@ == (ControlsView { paused: false, need_screenshot: false, mouse_pressed: false }),
    {
        Controls { paused: false, need_screenshot: false, mouse_pressed: false }
    }

    /// Takes in an input and says where it goes.
    pub fn input(&mut self, event: Input) -> (route: Route)
        ensures
            final(self)@ == after_input(old(self)@, event),
            route == route_of(old(self)@, event),
    {
        match event {
            Input::Key { key: Key::Space, pressed } => {
                if pressed {
                    self.paused = !self.paused;
                }
                Route::Done
            },
            Input::Key { key: Key::Return, pressed } => {
                if pressed {
                    self.need_screenshot = true;
                }
                Route::Done
            },
            Input::Key { key: Key::Other, .. } => Route::CameraKey,
            Input::Key { key: Key::Unnamed, .. } => Route::Unused,
            Input::Wheel => Route::CameraScroll,
            Input::Button { button, pressed } => {
                if button == TURN_BUTTON {
                    self.mouse_pressed = pressed;
                    Route::Done
                } else {
                    Route::Unused
                }
            },
            Input::Motion => {
                if self.mouse_pressed {
                    Route::CameraTurn
                } else {
                    Route::Done
                }
            },
            Input::Other => Route::Unused,
        }
    }

    /// Whether the simulation stands still.
    pub fn paused(&self) -> (p: bool)
        ensures
            p == self@.paused,
    {
        self.paused
    }

    /// Whether the button that turns the camera is held down.
    pub fn mouse_pressed(&self) -> (p: bool)
        ensures
            p == self@.mouse_pressed,
    {
        self.mouse_pressed
    }

    /// Says whether a screenshot is due, and marks it as taken.
    pub fn take_screenshot(&mut self) -> (due: bool)
        ensures
            due == old(self)@.need_screenshot,
            final(self)@ == (ControlsView { need_screenshot: false, ..old(self)@ }),
    {
        let due = self.need_screenshot;
        self.need_screenshot = false;
        due
    }
}

} // verus!
