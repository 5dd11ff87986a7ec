//! Plain value types and helpers shared by the other modules.

pub mod geometry;
pub mod ratio;
pub mod text;
pub mod transaction;
