use crate::input::state::{is_down, state_of, went_down, InputState};
use vstd::prelude::*;

verus! {

/// Codes under which [`InputState`] records mouse buttons.
pub struct MouseButtonCode;

impl MouseButtonCode {
    pub const LEFT: u32 = 0;
    pub const RIGHT: u32 = 1;
    pub const MIDDLE: u32 = 2;
}

/// Mouse bindings of the player controls.
pub struct MouseInput;

impl MouseInput {
    pub fn is_shooting(input: &InputState) -> (b: bool)
        ensures
            b == is_down(state_of(input.mouse_buttons@, 0)),
    {
        input.is_mouse_pressed(MouseButtonCode::LEFT)
    }

    pub fn is_aiming(input: &InputState) -> (b: bool)
        ensures
            b == is_down(state_of(input.mouse_buttons@, 1)),
    {
        input.is_mouse_pressed(MouseButtonCode::RIGHT)
    }

    pub fn is_just_shooting(input: &InputState) -> (b: bool)
        ensures
            b == went_down(state_of(input.mouse_buttons@, 0)),
    {
        input.is_mouse_just_pressed(MouseButtonCode::LEFT)
    }
}

} // verus!
