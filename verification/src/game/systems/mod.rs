pub mod buy_menu;
pub mod match_mode;
pub mod missing;
pub mod ragdoll;
pub mod sandbox_input;
pub mod state;
pub mod weather;

pub use state::{menu_open, DebugPanelState, MenuState, MouseLocked, PhysicsDebugState, RequestedScenePath, ViewMode};
