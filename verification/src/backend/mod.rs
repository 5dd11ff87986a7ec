//! The rendering backend.

pub mod tty_renderer;
