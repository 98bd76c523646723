pub mod config;
pub mod overlay;
pub mod schedule;
pub mod transform;

pub use config::UserConfig;
pub use schedule::{CurrentScenePath, QuitRequest, SceneChangeRequest, Stage};
pub use transform::{Frozen, Name};
