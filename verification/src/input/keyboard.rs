use crate::input::state::{is_down, state_of, went_down, InputState};
use vstd::prelude::*;

verus! {

/// Keys the game reads, with the codes [`InputState`] records them under.
#[derive(Debug, Clone, Copy, PartialEq, Eq, Structural)]
pub enum Key {
    KeyW,
    KeyA,
    KeyS,
    KeyD,
    Space,
    ControlLeft,
    ShiftLeft,
    KeyR,
    KeyE,
    KeyB,
    KeyC,
    KeyF,
    KeyG,
    KeyH,
    KeyK,
    KeyN,
    KeyP,
    KeyT,
    KeyV,
    KeyX,
    Tab,
    Escape,
    Delete,
    Period,
    BracketLeft,
    BracketRight,
    Digit1,
    Digit2,
    Digit3,
    Digit4,
    Digit5,
    F1,
    F3,
    F4,
    F5,
    F6,
}

impl Key {
    pub open spec fn spec_code(self) -> u32 {
        match self {
            Key::KeyW => 0,
            Key::KeyA => 1,
            Key::KeyS => 2,
            Key::KeyD => 3,
            Key::Space => 4,
            Key::ControlLeft => 5,
            Key::ShiftLeft => 6,
            Key::KeyR => 7,
            Key::KeyE => 8,
            Key::KeyB => 9,
            Key::KeyC => 10,
            Key::KeyF => 11,
            Key::KeyG => 12,
            Key::KeyH => 13,
            Key::KeyK => 14,
            Key::KeyN => 15,
            Key::KeyP => 16,
            Key::KeyT => 17,
            Key::KeyV => 18,
            Key::KeyX => 19,
            Key::Tab => 20,
            Key::Escape => 21,
            Key::Delete => 22,
            Key::Period => 23,
            Key::BracketLeft => 24,
            Key::BracketRight => 25,
            Key::Digit1 => 26,
            Key::Digit2 => 27,
            Key::Digit3 => 28,
            Key::Digit4 => 29,
            Key::Digit5 => 30,
            Key::F1 => 31,
            Key::F3 => 32,
            Key::F4 => 33,
            Key::F5 => 34,
            Key::F6 => 35,
        }
    }

    /// Code under which [`InputState`] records this key.
    #[verifier::when_used_as_spec(spec_code)]
    pub fn code(self) -> (c: u32)
        ensures
            c == self.spec_code(),
    {
        match self {
            Key::KeyW => 0,
            Key::KeyA => 1,
            Key::KeyS => 2,
            Key::KeyD => 3,
            Key::Space => 4,
            Key::ControlLeft => 5,
            Key::ShiftLeft => 6,
            Key::KeyR => 7,
            Key::KeyE => 8,
            Key::KeyB => 9,
            Key::KeyC => 10,
            Key::KeyF => 11,
            Key::KeyG => 12,
            Key::KeyH => 13,
            Key::KeyK => 14,
            Key::KeyN => 15,
            Key::KeyP => 16,
            Key::KeyT => 17,
            Key::KeyV => 18,
            Key::KeyX => 19,
            Key::Tab => 20,
            Key::Escape => 21,
            Key::Delete => 22,
            Key::Period => 23,
            Key::BracketLeft => 24,
            Key::BracketRight => 25,
            Key::Digit1 => 26,
            Key::Digit2 => 27,
            Key::Digit3 => 28,
            Key::Digit4 => 29,
            Key::Digit5 => 30,
            Key::F1 => 31,
            Key::F3 => 32,
            Key::F4 => 33,
            Key::F5 => 34,
            Key::F6 => 35,
        }
    }
}

/// Key bindings of the player controls.
pub struct KeyboardInput;

impl KeyboardInput {
    pub fn is_jump_pressed(input: &InputState) -> (b: bool)
        ensures
            b == went_down(state_of(input.keys@, Key::Space.spec_code())),
    {
        input.is_key_just_pressed(Key::Space.code())
    }

    pub fn is_crouch_pressed(input: &InputState) -> (b: bool)
        ensures
            b == is_down(state_of(input.keys@, Key::ControlLeft.spec_code())),
    {
        input.is_key_pressed(Key::ControlLeft.code())
    }

    pub fn is_sprint_pressed(input: &InputState) -> (b: bool)
        ensures
            b == is_down(state_of(input.keys@, Key::ShiftLeft.spec_code())),
    {
        input.is_key_pressed(Key::ShiftLeft.code())
    }

    pub fn is_reload_pressed(input: &InputState) -> (b: bool)
        ensures
            b == went_down(state_of(input.keys@, Key::KeyR.spec_code())),
    {
        input.is_key_just_pressed(Key::KeyR.code())
    }

    pub fn is_interact_pressed(input: &InputState) -> (b: bool)
        ensures
            b == went_down(state_of(input.keys@, Key::KeyE.spec_code())),
    {
        input.is_key_just_pressed(Key::KeyE.code())
    }

    /// Movement axes as -1/0/+1 steps (x: A/D, y: Ctrl/Space, z: W/S) before
    /// normalization: right, up and backward are positive.
    pub fn movement_axes(input: &InputState) -> (axes: (i8, i8, i8))
        ensures
            axes.0 == (if is_down(state_of(input.keys@, Key::KeyD.spec_code())) { 1int } else { 0 })
                - (if is_down(state_of(input.keys@, Key::KeyA.spec_code())) { 1int } else { 0 }),
            axes.1 == (if is_down(state_of(input.keys@, Key::Space.spec_code())) { 1int } else { 0 })
                - (if is_down(state_of(input.keys@, Key::ControlLeft.spec_code())) { 1int } else { 0 }),
            axes.2 == (if is_down(state_of(input.keys@, Key::KeyS.spec_code())) { 1int } else { 0 })
                - (if is_down(state_of(input.keys@, Key::KeyW.spec_code())) { 1int } else { 0 }),
    {
        let mut x: i8 = 0;
        let mut y: i8 = 0;
        let mut z: i8 = 0;
        if input.is_key_pressed(Key::KeyW.code()) {
            z = z - 1;
        }
        if input.is_key_pressed(Key::KeyS.code()) {
            z = z + 1;
        }
        if input.is_key_pressed(Key::KeyA.code()) {
            x = x - 1;
        }
        if input.is_key_pressed(Key::KeyD.code()) {
            x = x + 1;
        }
        if input.is_key_pressed(Key::Space.code()) {
            y = y + 1;
        }
        if input.is_key_pressed(Key::ControlLeft.code()) {
            y = y - 1;
        }
        (x, y, z)
    }
}

} // verus!
