//! Inspecting and adjusting the geometry, z-order, style bits and borderless
//! fullscreen state of top-level desktop windows.
//!
//! The operating system is reached only by the caller: every function here
//! takes what the windowing subsystem reported as plain values and hands back
//! either a result or the commands that the caller is to issue.
pub mod geometry;
pub mod main_app;
pub mod style;
pub mod utils;
pub mod window_info;
pub mod window_modifier;

pub use window_info::{WindowCommand, WindowError, WindowHandle, WindowInfo, WindowStatus};
pub use window_modifier::WindowModifier;
