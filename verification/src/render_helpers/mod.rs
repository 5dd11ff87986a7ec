//! Color blending, shader programs, textures and offscreen effects.

pub mod blend;
pub mod colorimetry;
pub mod effect_buffer;
pub mod gradient_fade_texture;
pub mod renderer;
pub mod shaders;
pub mod snapshot;
pub mod texture;
pub mod uniform;
