//! Rendering state: colors, the scene graph, the camera and surface setup.
pub mod color;
pub mod scene;
pub mod camera;
pub mod surface;
pub mod frame_data;
pub mod renderer;
pub mod geometry;
