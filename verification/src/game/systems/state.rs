//! Small per-frame resources shared by the gameplay systems.

use crate::asset::Handle;
use crate::game::menu::PauseMenu;
use vstd::prelude::*;

verus! {

/// Whether the mouse is locked for first-person look.
#[derive(Debug, Clone, Copy, Default)]
pub struct MouseLocked(pub bool);

/// Runtime settings menu state.
#[derive(Debug, Clone)]
pub struct MenuState(pub PauseMenu);

/// Whether the pause menu currently captures input (no menu means it does not).
pub fn menu_open(menu: Option<&MenuState>) -> (b: bool)
    ensures
        b == match menu {
            Some(m) => m.0.open,
            None => false,
        },
{
    match menu {
        Some(m) => m.0.open,
        None => false,
    }
}

#[derive(Debug, Clone, Copy, PartialEq, Eq, Structural, Default)]
pub enum ViewMode {
    #[default]
    Fps,
    God,
}

impl ViewMode {
    /// The mode after the view key: it flips between first-person and the
    /// free god camera, but only while god mode is enabled.
    pub fn after_toggle_key(self, god_mode_enabled: bool) -> (m: ViewMode)
        ensures
            m == if !god_mode_enabled {
                self
            } else if self == ViewMode::Fps {
                ViewMode::God
            } else {
                ViewMode::Fps
            },
    {
        if !god_mode_enabled {
            self
        } else {
            match self {
                ViewMode::Fps => ViewMode::God,
                ViewMode::God => ViewMode::Fps,
            }
        }
    }

    /// The mode after the god-mode setting changed: disabling it drops back
    /// to first-person.
    pub fn after_god_mode_setting(self, enabled: bool) -> (m: ViewMode)
        ensures
            m == if enabled { self } else { ViewMode::Fps },
    {
        if enabled { self } else { ViewMode::Fps }
    }
}

/// Which physics debug overlays are drawn.
#[derive(Debug, Clone, Copy, Default, PartialEq, Eq, Structural)]
pub struct PhysicsDebugState {
    pub colliders: bool,
    pub velocities: bool,
    pub contacts: bool,
    /// Recent impulse arrows.
    pub impulses: bool,
}

impl PhysicsDebugState {
    /// Flip each overlay whose key was pressed this frame.
    pub fn toggle(&mut self, colliders: bool, velocities: bool, contacts: bool, impulses: bool)
        ensures
            final(self).colliders == (old(self).colliders != colliders),
            final(self).velocities == (old(self).velocities != velocities),
            final(self).contacts == (old(self).contacts != contacts),
            final(self).impulses == (old(self).impulses != impulses),
    {
        if colliders {
            self.colliders = !self.colliders;
        }
        if velocities {
            self.velocities = !self.velocities;
        }
        if contacts {
            self.contacts = !self.contacts;
        }
        if impulses {
            self.impulses = !self.impulses;
        }
    }
}

/// Whether the debug panel is open.
#[derive(Debug, Clone, Copy, Default)]
pub struct DebugPanelState {
    pub open: bool,
}

/// Scene file requested on the command line; `None` selects the default scene.
#[derive(Debug, Clone)]
pub struct RequestedScenePath(pub Option<String>);

/// Per-catalog-slot first-person weapon meshes, index-aligned with the
/// weapon catalog.
#[derive(Debug, Clone)]
pub struct WeaponMeshes<M>(pub Vec<Handle<M>>);

/// Meshes and materials for weapon hit feedback spawned at runtime.
#[derive(Debug, Clone, Copy)]
pub struct WeaponFeedbackAssets<M, Mat> {
    pub bullet_hole_mesh: Handle<M>,
    pub bullet_hole_material: Handle<Mat>,
    pub impact_mesh: Handle<M>,
    pub impact_material: Handle<Mat>,
    pub muzzle_flash_mesh: Handle<M>,
    pub muzzle_flash_material: Handle<Mat>,
}

/// The shared bright material swapped onto enemies while they flash from a
/// hit.
#[derive(Debug, Clone, Copy)]
pub struct EnemyFlashMaterial<Mat>(pub Handle<Mat>);

} // verus!
