pub mod gltf_loader;
pub mod procedural;
pub mod store;
pub mod texture;

pub use gltf_loader::{GltfLoader, ImagePixels};
pub use procedural::{MeshTopology, ProceduralGenerator};
pub use store::{AssetStore, Handle};
pub use texture::{Texture, TextureFormat};
