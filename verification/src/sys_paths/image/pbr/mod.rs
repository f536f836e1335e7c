pub mod aerial_grass_rock;
pub mod rocky_grass;
