pub mod terrain_lod_map;
pub mod tools;
