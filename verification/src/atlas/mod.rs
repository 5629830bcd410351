//! The texture-atlas packer: source images laid out side by side in one
//! composite image, and for each of them the inset rectangle that samples it.

pub mod composite;
pub mod imaging;
pub mod layout;
pub mod manifest;

pub use composite::{generate_texture_atlas, AtlasError};
pub use manifest::{TexCoord, UiAtlas, UiAtlasTexture};
