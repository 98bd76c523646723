pub mod sandbox;

pub use sandbox::RuntimeProps;
