pub mod enemy;
pub mod menu;
pub mod scene;
pub mod systems;
pub mod team;
pub mod weapon;

pub use menu::{Language, MenuAction, MenuEffect, PauseMenu, ResolutionOption};
pub use team::Team;
