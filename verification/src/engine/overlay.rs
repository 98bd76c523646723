//! Who owns the mouse: first-person look, the pause menu or the debug panel.
//! Window events change that; the caller applies the cursor grab.

use crate::game::menu::MenuEffect;
use vstd::prelude::*;

verus! {

/// Window events that affect the cursor and the overlays.
#[derive(Debug, Clone, Copy, PartialEq, Eq, Structural)]
pub enum WindowInput {
    /// The debug-panel key (F1) went down.
    DebugPanelKey,
    /// Escape went down.
    EscapeKey,
    /// The window gained (`true`) or lost (`false`) focus.
    Focused(bool),
    /// A mouse button went down.
    MousePressed,
    /// The mouse moved.
    MouseMotion,
}

/// What the caller does with the cursor grab.
#[derive(Debug, Clone, Copy, PartialEq, Eq, Structural)]
pub enum CursorGrab {
    Keep,
    Lock,
    Release,
}

/// The overlay flags the window events update.
#[derive(Debug, Clone, Copy, PartialEq, Eq, Structural)]
pub struct OverlayState {
    pub menu_open: bool,
    pub panel_open: bool,
    /// The player wants the cursor captured for first-person look.
    pub mouse_locked: bool,
    pub window_focused: bool,
}

/// The cursor grab that requests capture when `locked`, release otherwise.
pub open spec fn grab_for(locked: bool) -> CursorGrab {
    if locked { CursorGrab::Lock } else { CursorGrab::Release }
}

/// The overlays after `input`, the grab to apply, and whether mouse motion
/// turns the camera.
pub open spec fn overlay_step(s: OverlayState, input: WindowInput) -> (OverlayState, CursorGrab, bool) {
    match input {
        WindowInput::MouseMotion => (s, CursorGrab::Keep, s.mouse_locked && !s.menu_open && s.window_focused),
        WindowInput::DebugPanelKey => {
            let open = !s.panel_open;
            let locked = !open && !s.menu_open;
            (OverlayState { panel_open: open, mouse_locked: locked, ..s }, grab_for(locked), false)
        },
        WindowInput::EscapeKey => {
            let open = !s.menu_open;
            (OverlayState { menu_open: open, mouse_locked: !open, ..s }, grab_for(!open), false)
        },
        WindowInput::Focused(f) => if f {
            if !s.menu_open {
                (OverlayState { window_focused: true, mouse_locked: true, ..s }, CursorGrab::Lock, false)
            } else {
                (OverlayState { window_focused: true, ..s }, CursorGrab::Keep, false)
            }
        } else {
            (OverlayState { window_focused: false, ..s }, CursorGrab::Release, false)
        },
        WindowInput::MousePressed => (
            s,
            if s.mouse_locked && !s.menu_open { CursorGrab::Lock } else { CursorGrab::Keep },
            false,
        ),
    }
}

/// The overlays after the pause menu reported `effect`: resuming closes the
/// menu and captures the cursor again; other effects leave them as they are.
pub open spec fn overlay_after_effect(s: OverlayState, effect: MenuEffect) -> (OverlayState, CursorGrab) {
    match effect {
        MenuEffect::Resume => (OverlayState { menu_open: false, mouse_locked: true, ..s }, CursorGrab::Lock),
        _ => (s, CursorGrab::Keep),
    }
}

impl OverlayState {
    /// Start of play: menus closed, cursor captured, window focused.
    pub fn new() -> (s: Self)
        ensures
            s == (OverlayState { menu_open: false, panel_open: false, mouse_locked: true, window_focused: true }),
    {
        OverlayState { menu_open: false, panel_open: false, mouse_locked: true, window_focused: true }
    }

    /// Apply one window event; returns the grab to apply and whether mouse
    /// motion turns the camera.
    pub fn handle(&mut self, input: WindowInput) -> (r: (CursorGrab, bool))
        ensures
            (*final(self), r.0, r.1) == overlay_step(*old(self), input),
    {
        match input {
            WindowInput::MouseMotion => (CursorGrab::Keep, self.mouse_locked && !self.menu_open && self.window_focused),
            WindowInput::DebugPanelKey => {
                self.panel_open = !self.panel_open;
                self.mouse_locked = !self.panel_open && !self.menu_open;
                (if self.mouse_locked { CursorGrab::Lock } else { CursorGrab::Release }, false)
            },
            WindowInput::EscapeKey => {
                self.menu_open = !self.menu_open;
                self.mouse_locked = !self.menu_open;
                (if self.mouse_locked { CursorGrab::Lock } else { CursorGrab::Release }, false)
            },
            WindowInput::Focused(f) => {
                self.window_focused = f;
                if f {
                    if !self.menu_open {
                        self.mouse_locked = true;
                        (CursorGrab::Lock, false)
                    } else {
                        (CursorGrab::Keep, false)
                    }
                } else {
                    (CursorGrab::Release, false)
                }
            },
            WindowInput::MousePressed => (
                if self.mouse_locked && !self.menu_open { CursorGrab::Lock } else { CursorGrab::Keep },
                false,
            ),
        }
    }

    /// Follow an effect the pause menu reported.
    pub fn apply_menu_effect(&mut self, effect: MenuEffect) -> (g: CursorGrab)
        ensures
            (*final(self), g) == overlay_after_effect(*old(self), effect),
    {
        match effect {
            MenuEffect::Resume => {
                self.menu_open = false;
                self.mouse_locked = true;
                CursorGrab::Lock
            },
            _ => CursorGrab::Keep,
        }
    }

    /// A scene (re)load closes the menu and captures the cursor again.
    pub fn scene_loaded(&mut self) -> (g: CursorGrab)
        ensures
            *final(self) == (OverlayState { menu_open: false, mouse_locked: true, ..*old(self) }),
            g == CursorGrab::Lock,
    {
        self.menu_open = false;
        self.mouse_locked = true;
        CursorGrab::Lock
    }
}

} // verus!
