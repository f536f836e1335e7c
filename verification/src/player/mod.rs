pub mod animation_ids;
pub mod bullets;
