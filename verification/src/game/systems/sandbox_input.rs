//! Which physics-sandbox tools the player triggered this frame.

use crate::input::keyboard::Key;
use crate::input::mouse::MouseButtonCode;
use crate::input::state::{state_of, went_down, InputState};
use vstd::prelude::*;

verus! {

/// Sandbox tools requested this frame. The aiming, spawning and physics
/// are done by the caller.
#[derive(Debug, Clone, Copy, PartialEq, Eq, Structural)]
pub struct SandboxCommands {
    /// G: spawn a wooden box.
    pub spawn_box: bool,
    /// N: spawn a bouncy ball (B belongs to the buy menu).
    pub spawn_bouncy: bool,
    /// H: spawn a heavy metal crate.
    pub spawn_heavy: bool,
    /// Middle mouse button or E: pick up, or drop the held prop.
    pub pick_or_drop: bool,
    /// X: freeze or unfreeze the held or aimed-at prop.
    pub toggle_freeze: bool,
    /// T: throw the held prop, or push the aimed-at one.
    pub throw_or_push: bool,
    /// Delete: remove the aimed-at prop.
    pub delete_target: bool,
}

pub open spec fn key_went_down(input: &InputState, key: Key) -> bool {
    went_down(state_of(input.keys@, key.spec_code()))
}

/// The tools requested by the keys that went down this frame; none while
/// the pause menu or the buy menu is open or the player is spectating.
pub open spec fn spec_sandbox_commands(
    menu_open: bool,
    buy_open: bool,
    spectating: bool,
    input: &InputState,
) -> Option<SandboxCommands> {
    if menu_open || buy_open || spectating {
        None
    } else {
        Some(
            SandboxCommands {
                spawn_box: key_went_down(input, Key::KeyG),
                spawn_bouncy: key_went_down(input, Key::KeyN),
                spawn_heavy: key_went_down(input, Key::KeyH),
                pick_or_drop: went_down(state_of(input.mouse_buttons@, 2)) || key_went_down(
                    input,
                    Key::KeyE,
                ),
                toggle_freeze: key_went_down(input, Key::KeyX),
                throw_or_push: key_went_down(input, Key::KeyT),
                delete_target: key_went_down(input, Key::Delete),
            },
        )
    }
}

/// Read the sandbox tools of this frame.
pub fn sandbox_commands(menu_open: bool, buy_open: bool, spectating: bool, input: &InputState) -> (c:
    Option<SandboxCommands>)
    ensures
        c == spec_sandbox_commands(menu_open, buy_open, spectating, input),
{
    if menu_open || buy_open || spectating {
        return None;
    }
    Some(
        SandboxCommands {
            spawn_box: input.is_key_just_pressed(Key::KeyG.code()),
            spawn_bouncy: input.is_key_just_pressed(Key::KeyN.code()),
            spawn_heavy: input.is_key_just_pressed(Key::KeyH.code()),
            pick_or_drop: input.is_mouse_just_pressed(MouseButtonCode::MIDDLE)
                || input.is_key_just_pressed(Key::KeyE.code()),
            toggle_freeze: input.is_key_just_pressed(Key::KeyX.code()),
            throw_or_push: input.is_key_just_pressed(Key::KeyT.code()),
            delete_target: input.is_key_just_pressed(Key::Delete.code()),
        },
    )
}

impl SandboxCommands {
    /// Whether any spawn key went down (only then is clear space probed).
    pub fn wants_spawn(&self) -> (b: bool)
        ensures
            b == (self.spawn_box || self.spawn_bouncy || self.spawn_heavy),
    {
        self.spawn_box || self.spawn_bouncy || self.spawn_heavy
    }
}

} // verus!
