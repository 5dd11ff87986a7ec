//! The decision logic of a Wayland compositor's rendering stack: blend-space color handling,
//! shader program bookkeeping, offscreen effect buffers, the minimized-window strip and
//! cross-surface transactions.
//!
//! Everything here works on plain values. GPU textures, shader programs, frames and protocol
//! objects appear as opaque handles. The work on them is handed in as functions, or left to the
//! code that owns them and told what to do.

pub mod backend;
pub mod render_helpers;
pub mod ui;
pub mod utils;
