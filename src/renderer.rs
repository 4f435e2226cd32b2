//! Turning the state of a menu into display lines.
pub mod string_renderer;
