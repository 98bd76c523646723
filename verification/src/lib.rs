pub mod asset;
pub mod audio;
pub mod cli;
pub mod engine;
pub mod game;
pub mod input;
pub mod laws;
pub mod paths;
pub mod physics;
pub mod text;
