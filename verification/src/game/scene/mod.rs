pub mod library;
pub mod outline;
pub mod structure;
pub mod validate;

pub use outline::{SceneOutline, SurfacePreset};
