pub mod keyboard;
pub mod mouse;
pub mod state;

pub use keyboard::{Key, KeyboardInput};
pub use mouse::{MouseButtonCode, MouseInput};
pub use state::{ButtonState, InputState};
