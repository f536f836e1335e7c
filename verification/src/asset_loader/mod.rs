pub mod asset_cache;
pub mod audio_cache;
pub mod font_cache;
pub mod image_cache;
pub mod texture_cache;
