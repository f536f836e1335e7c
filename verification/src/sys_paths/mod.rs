pub mod audio;
pub mod config;
pub mod font;
pub mod image;
pub mod shaders;
pub mod sounds;
pub mod textures;
