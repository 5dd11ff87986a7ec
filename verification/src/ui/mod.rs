//! On-screen user interface elements.

pub mod minimized_strip;
