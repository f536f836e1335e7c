pub mod asset_loader;
pub mod camera;
pub mod debug;
pub mod m_lib;
pub mod player;
pub mod state;
pub mod sys_paths;
pub mod terrain;
