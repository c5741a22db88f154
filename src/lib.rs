pub mod camera;
pub mod frame;
pub mod import;
pub mod input;
pub mod render;
pub mod resource;
pub mod vertex;
