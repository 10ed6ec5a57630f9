//! The items most programs built on the engine need.
pub use crate::app::Pine;
pub use crate::rendering::color::Color;
pub use crate::windowing::WindowConfig;
