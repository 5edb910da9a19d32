//! A minimal drawing core for lightweight window-manager windows (status
//! bars, menus): window-creation planning against a display server, font and
//! surface registries, and text-extent computation.

pub mod color;
pub mod draw;
pub mod errors;
pub mod protocol;
pub mod window_type;

pub use color::Color;
pub use draw::{Draw, DrawContext};
pub use window_type::WindowType;
