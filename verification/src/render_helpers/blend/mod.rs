//! Per-output blend space for windowed HDR support.
//!
//! An output is either SDR (electrical sRGB, the default) or HDR (the framebuffer holds
//! PQ/BT.2020 electrical values and the connector is signalled accordingly). On HDR outputs, SDR
//! content is encoded into the blend space at draw time by the shaders' `niri_blend` stage;
//! surfaces that already carry an HDR image description pass through numerically.
//!
//! Luminances are fixed-point and everything derived from them is an exact
//! [`Ratio`](crate::utils::ratio::Ratio). The matrix that a custom container gamut needs is
//! computed by the caller and handed in as `computed`.

pub mod content;
pub mod encoder;
pub mod frame;
pub mod renderer;
pub mod scanout;
pub mod surface;
pub mod tonemap;

pub use content::{
    ContentColor, ContentGamut, ImageDescription, PrimariesOption, TransferFunction,
};
pub use encoder::SrgbToPqEncoder;
pub use frame::{ColorBlendParams, FrameBlendState, TonemapValues};
pub use renderer::{
    set_frame_blend, set_frame_blend_tty, set_sdr_capture_blend, CaptureBlend, GlesBlend,
    VulkanBlend,
};
pub use scanout::{scanout_color_transform, Ctm3x4, CtmRow, Curve1DType, ScanoutColorTransform};
pub use surface::{
    adjust_tex_program_for_content, BlendSurfaceRenderElement, BlendTexturePrograms,
    VulkanFrameBlend,
};
pub use tonemap::{output_peak_luminance, Luminance, DEFAULT_REFERENCE_LUMINANCE};
