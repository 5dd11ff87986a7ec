//! The blend state of a frame and the shader parameters it gives each draw.

use vstd::prelude::*;

use crate::render_helpers::blend::content::{ContentColor, ContentGamut};
use crate::render_helpers::blend::tonemap::{
    law_content_brighter_than_the_output_is_tone_mapped, law_tonemap_hits_the_output_peak,
    tonemap_curve_v, tonemap_curve_v_spec, tonemap_needed, Luminance, DEFAULT_REFERENCE_LUMINANCE,
};
use crate::render_helpers::colorimetry::{Mat3, Row3};
use crate::render_helpers::uniform::{Uniform, UniformName, UniformType, UniformValue};
use crate::utils::ratio::Ratio;

verus! {

/// The parameters of the shaders' `niri_blend` stage for one draw.
#[derive(Debug, Clone, Copy, PartialEq, Eq)]
pub struct ColorBlendParams {
    /// SDR (or linear) content is encoded into an HDR frame.
    pub hdr_pq: bool,
    /// The reference white relative to 10000 cd/m².
    pub ref_lum_scale: Ratio,
    /// The content is extended-linear.
    pub linear: bool,
    /// Linear 1.0 relative to 10000 cd/m².
    pub linear_scale: Ratio,
    /// Linear 1.0 relative to the content's reference white.
    pub linear_to_ref: Ratio,
    /// HDR content is converted back for an SDR frame.
    pub hdr_to_sdr: bool,
    /// PQ content on an HDR frame is decoded, converted and re-encoded.
    pub pq_gamut: bool,
    /// The draw multiplies by `gamut` instead of the shader's built-in matrix.
    pub use_gamut: bool,
    /// The gamut conversion in column-major order.
    pub gamut: Mat3,
    /// The draw tone maps.
    pub tonemap: bool,
    pub tm_v: Ratio,
    pub tm_ref_scale: Ratio,
    pub tm_out_scale: Ratio,
}

impl ColorBlendParams {
    /// No transform at all.
    pub open spec fn off_spec() -> ColorBlendParams {
        ColorBlendParams {
            hdr_pq: false,
            ref_lum_scale: Ratio::zero_spec(),
            linear: false,
            linear_scale: Ratio::zero_spec(),
            linear_to_ref: Ratio::zero_spec(),
            hdr_to_sdr: false,
            pq_gamut: false,
            use_gamut: false,
            gamut: Mat3 {
                r: Row3 { r: 0, g: 0, b: 0 },
                g: Row3 { r: 0, g: 0, b: 0 },
                b: Row3 { r: 0, g: 0, b: 0 },
            },
            tonemap: false,
            tm_v: Ratio::zero_spec(),
            tm_ref_scale: Ratio::zero_spec(),
            tm_out_scale: Ratio::zero_spec(),
        }
    }
}

impl Default for ColorBlendParams {
    fn default() -> (params: Self)
        ensures
            params == ColorBlendParams::off_spec(),
    {
        ColorBlendParams {
            hdr_pq: false,
            ref_lum_scale: Ratio::zero(),
            linear: false,
            linear_scale: Ratio::zero(),
            linear_to_ref: Ratio::zero(),
            hdr_to_sdr: false,
            pq_gamut: false,
            use_gamut: false,
            gamut: Mat3 {
                r: Row3 { r: 0, g: 0, b: 0 },
                g: Row3 { r: 0, g: 0, b: 0 },
                b: Row3 { r: 0, g: 0, b: 0 },
            },
            tonemap: false,
            tm_v: Ratio::zero(),
            tm_ref_scale: Ratio::zero(),
            tm_out_scale: Ratio::zero(),
        }
    }
}

/// The blend state of the frame currently being rendered.
///
/// Shader uniform values persist in program objects across draws, so on HDR frames every draw sets
/// the blend uniforms from this state, and on SDR frames sets them back to zero.
#[derive(Debug, Clone, Copy, PartialEq, Eq, Structural)]
pub struct FrameBlendState {
    pub hdr_pq: bool,
    /// The SDR reference white.
    pub reference_luminance: Luminance,
    /// The output's peak luminance (SDR frames: the reference white), for tone mapping decisions;
    /// 0 = unknown, tone mapping disabled.
    pub max_luminance: Luminance,
}

impl Default for FrameBlendState {
    fn default() -> (state: Self)
        ensures
            state == (FrameBlendState {
                hdr_pq: false,
                reference_luminance: Luminance(0),
                max_luminance: Luminance(0),
            }),
    {
        FrameBlendState {
            hdr_pq: false,
            reference_luminance: Luminance(0),
            max_luminance: Luminance(0),
        }
    }
}

/// The tone mapping parameters of a draw: whether it tone maps, the curve parameter, and the
/// reference white and output peak relative to 10000 cd/m².
#[derive(Debug, Clone, Copy, PartialEq, Eq, Structural)]
pub struct TonemapValues {
    pub tonemap: bool,
    pub v: Ratio,
    pub ref_scale: Ratio,
    pub out_scale: Ratio,
}

pub open spec fn tonemap_values_spec(
    enabled: bool,
    max_in: u32,
    ref_lum: Luminance,
    max_out: Luminance,
) -> TonemapValues {
    if enabled && ref_lum.0 > 0 && max_out.0 > 0 {
        TonemapValues {
            tonemap: true,
            v: tonemap_curve_v_spec(max_in, ref_lum, max_out),
            ref_scale: ref_lum.pq_scale(),
            out_scale: max_out.pq_scale(),
        }
    } else {
        TonemapValues {
            tonemap: false,
            v: Ratio::zero_spec(),
            ref_scale: Ratio::zero_spec(),
            out_scale: Ratio::zero_spec(),
        }
    }
}

/// Whether a draw of the content into the frame transforms it in linear light, where its gamut is
/// converted. SDR content on SDR frames passes through untouched, and so does PQ on HDR frames
/// that needs neither a gamut conversion nor tone mapping.
pub open spec fn transforms_content(
    state: FrameBlendState,
    content: ContentColor,
    tonemapping: bool,
    computed: Option<Mat3>,
) -> bool {
    match content {
        ContentColor::Sdr { .. } => state.hdr_pq,
        ContentColor::HdrPq { gamut, .. } => {
            ||| !state.hdr_pq
            ||| gamut.matrix_to_spec(true, computed) is Some
            ||| content.tone_maps(tonemapping, state.max_luminance)
        },
        ContentColor::Linear { .. } => true,
    }
}

/// The `niri_blend` parameters for a draw of the content into the frame.
pub open spec fn params_for_content(
    state: FrameBlendState,
    content: ContentColor,
    tonemapping: bool,
    computed: Option<Mat3>,
) -> ColorBlendParams {
    let is_pq = content is HdrPq;
    let transforms = transforms_content(state, content, tonemapping, computed);
    let matrix = content.gamut_spec().matrix_to_spec(state.hdr_pq, computed);
    let tm = tonemap_values_spec(
        content.tone_maps(tonemapping, state.max_luminance),
        match content {
            ContentColor::HdrPq { max_lum: Some(max), .. } => max,
            _ => 0,
        },
        state.reference_luminance,
        state.max_luminance,
    );
    ColorBlendParams {
        hdr_pq: state.hdr_pq && !is_pq,
        ref_lum_scale: state.reference_luminance.pq_scale(),
        linear: content is Linear,
        linear_scale: match content {
            ContentColor::Linear { max_lum, .. } => Ratio { num: max_lum as i128, den: 10_000 },
            _ => Ratio::zero_spec(),
        },
        linear_to_ref: match content {
            ContentColor::Linear { max_lum, ref_lum, .. } => Ratio {
                num: max_lum as i128,
                den: ref_lum as u128,
            },
            _ => Ratio::zero_spec(),
        },
        hdr_to_sdr: !state.hdr_pq && is_pq,
        pq_gamut: state.hdr_pq && is_pq && transforms,
        use_gamut: transforms,
        gamut: if transforms && matrix is Some {
            matrix->0.transposed_spec()
        } else {
            Mat3::identity_spec()
        },
        tonemap: tm.tonemap,
        tm_v: tm.v,
        tm_ref_scale: tm.ref_scale,
        tm_out_scale: tm.out_scale,
    }
}

impl FrameBlendState {
    pub open spec fn for_blend(blend: Option<(Luminance, Luminance)>) -> FrameBlendState {
        match blend {
            Some((ref_lum, max_lum)) => FrameBlendState {
                hdr_pq: true,
                reference_luminance: ref_lum,
                max_luminance: max_lum,
            },
            None => FrameBlendState::for_capture(Luminance(DEFAULT_REFERENCE_LUMINANCE)),
        }
    }

    pub open spec fn for_capture(reference_luminance: Luminance) -> FrameBlendState {
        FrameBlendState {
            hdr_pq: false,
            reference_luminance,
            max_luminance: reference_luminance,
        }
    }

    /// Marks the frames rendered from now on as HDR with the given SDR reference luminance and
    /// output peak luminance, or as SDR (`None`).
    ///
    /// SDR frames tone map HDR content into the reference white the shaders assume for them (the
    /// BT.2408 default, matching the scanout transforms for SDR outputs).
    pub fn set_values(&mut self, blend: Option<(Luminance, Luminance)>)
        ensures
            *final(self) == FrameBlendState::for_blend(blend),
    {
        match blend {
            Some((ref_lum, max_lum)) => {
                self.hdr_pq = true;
                self.reference_luminance = ref_lum;
                self.max_luminance = max_lum;
            },
            None => {
                self.hdr_pq = false;
                self.reference_luminance = Luminance(DEFAULT_REFERENCE_LUMINANCE);
                self.max_luminance = Luminance(DEFAULT_REFERENCE_LUMINANCE);
            },
        }
    }

    /// Marks the frames rendered from now on as SDR captures with the given reference luminance.
    pub fn set_sdr_capture_values(&mut self, reference_luminance: Luminance)
        ensures
            *final(self) == FrameBlendState::for_capture(reference_luminance),
    {
        self.hdr_pq = false;
        self.reference_luminance = reference_luminance;
        self.max_luminance = reference_luminance;
    }

    pub fn is_hdr_frame(&self) -> (hdr: bool)
        ensures
            hdr == self.hdr_pq,
    {
        self.hdr_pq
    }

    pub fn ref_lum_scale(&self) -> (scale: Ratio)
        ensures
            scale == self.reference_luminance.pq_scale(),
    {
        self.reference_luminance.to_pq_scale()
    }

    /// The tone mapping parameters for a draw of content peaking at `max_in` cd/m² into an output
    /// peaking at `max_out` with reference white `ref_lum`, or the disabled state when tone mapping
    /// does not apply.
    pub fn tonemap_values(
        enabled: bool,
        max_in: u32,
        ref_lum: Luminance,
        max_out: Luminance,
    ) -> (values: TonemapValues)
        ensures
            values == tonemap_values_spec(enabled, max_in, ref_lum, max_out),
    {
        if !enabled || ref_lum.0 == 0 || max_out.0 == 0 {
            return TonemapValues {
                tonemap: false,
                v: Ratio::zero(),
                ref_scale: Ratio::zero(),
                out_scale: Ratio::zero(),
            };
        }
        TonemapValues {
            tonemap: true,
            v: tonemap_curve_v(max_in, ref_lum, max_out),
            ref_scale: ref_lum.to_pq_scale(),
            out_scale: max_out.to_pq_scale(),
        }
    }

    /// Computes the `niri_blend` parameters for a draw in this frame.
    ///
    /// [`ContentColor::HdrPq`] exempts BT.2020-container PQ content from SDR-to-HDR conversion
    /// (other containers are re-encoded through the gamut matrix), [`ContentColor::Linear`]
    /// selects the absolute extended-linear encode. HDR PQ content is converted back to SDR when
    /// drawn into SDR capture buffers.
    pub fn values_for_content(
        &self,
        content: ContentColor,
        tonemapping: bool,
        computed: Option<Mat3>,
    ) -> (params: ColorBlendParams)
        ensures
            params == params_for_content(*self, content, tonemapping, computed),
    {
        let hdr_pq: bool = self.hdr_pq;
        let is_pq: bool = matches!(content, ContentColor::HdrPq { .. });

        // Tone mapping applies to PQ content whose peak exceeds the frame's output peak: the
        // reference white of the frame anchors the curve, so on SDR frames (peak = reference
        // white) the headroom compresses into the SDR range.
        let tonemap: bool = match content {
            ContentColor::HdrPq { max_lum, .. } => tonemap_needed(
                tonemapping,
                max_lum,
                self.max_luminance,
            ),
            _ => false,
        };

        // The gamut conversion into the frame's blend space, when the draw transforms the content
        // at all.
        let gamut: Option<Option<Mat3>> = match content {
            ContentColor::Sdr { gamut } => if hdr_pq {
                Some(gamut.matrix_to(true, computed))
            } else {
                None
            },
            ContentColor::HdrPq { gamut, .. } => {
                let matrix: Option<Mat3> = gamut.matrix_to(hdr_pq, computed);
                // On HDR frames, BT.2020-container PQ passes through without any transform
                // (unless it needs tone mapping, which forces the decode/re-encode path).
                if hdr_pq && matrix.is_none() && !tonemap {
                    None
                } else {
                    Some(matrix)
                }
            },
            ContentColor::Linear { gamut, .. } => Some(gamut.matrix_to(hdr_pq, computed)),
        };
        let use_gamut: bool = gamut.is_some();
        let m: Mat3 = match gamut {
            Some(Some(m)) => m,
            _ => Mat3::identity(),
        };

        let (linear_scale, linear_to_ref) = match content {
            ContentColor::Linear { max_lum, ref_lum, .. } => (
                Ratio::new(max_lum as i128, 10_000),
                Ratio::new(max_lum as i128, ref_lum as u128),
            ),
            _ => (Ratio::zero(), Ratio::zero()),
        };

        let max_in: u32 = match content {
            ContentColor::HdrPq { max_lum: Some(max), .. } => max,
            _ => 0,
        };
        let tm: TonemapValues = Self::tonemap_values(
            tonemap,
            max_in,
            self.reference_luminance,
            self.max_luminance,
        );

        ColorBlendParams {
            hdr_pq: hdr_pq && !is_pq,
            ref_lum_scale: self.ref_lum_scale(),
            linear: matches!(content, ContentColor::Linear { .. }),
            linear_scale,
            linear_to_ref,
            hdr_to_sdr: !hdr_pq && is_pq,
            pq_gamut: hdr_pq && is_pq && use_gamut,
            use_gamut,
            gamut: m.transposed(),
            tonemap: tm.tonemap,
            tm_v: tm.v,
            tm_ref_scale: tm.ref_scale,
            tm_out_scale: tm.out_scale,
        }
    }

    /// The `niri_blend` parameters for a draw in a Vulkan frame, whose renderer may not have a
    /// blend state yet; such frames are SDR.
    pub fn vulkan_params_for_content(
        state: Option<FrameBlendState>,
        content: ContentColor,
        tonemapping: bool,
        computed: Option<Mat3>,
    ) -> (params: ColorBlendParams)
        ensures
            params == params_for_content(
                match state {
                    Some(state) => state,
                    None => FrameBlendState::for_blend(None),
                },
                content,
                tonemapping,
                computed,
            ),
    {
        let state: FrameBlendState = match state {
            Some(state) => state,
            None => FrameBlendState {
                hdr_pq: false,
                reference_luminance: Luminance(DEFAULT_REFERENCE_LUMINANCE),
                max_luminance: Luminance(DEFAULT_REFERENCE_LUMINANCE),
            },
        };
        state.values_for_content(content, tonemapping, computed)
    }
}

/// The declarations of every uniform that the `niri_blend` stage (and the gamut conversion) can
/// set per draw.
pub open spec fn blend_uniform_names() -> Seq<UniformName> {
    seq![
        UniformName { name: "niri_hdr_pq", type_: UniformType::Float1 },
        UniformName { name: "niri_ref_lum_scale", type_: UniformType::Float1 },
        UniformName { name: "niri_linear", type_: UniformType::Float1 },
        UniformName { name: "niri_linear_scale", type_: UniformType::Float1 },
        UniformName { name: "niri_linear_to_ref", type_: UniformType::Float1 },
        UniformName { name: "niri_hdr_to_sdr", type_: UniformType::Float1 },
        UniformName { name: "niri_pq_gamut", type_: UniformType::Float1 },
        UniformName { name: "niri_use_gamut", type_: UniformType::Float1 },
        UniformName { name: "niri_gamut", type_: UniformType::Matrix3x3 },
        UniformName { name: "niri_tonemap", type_: UniformType::Float1 },
        UniformName { name: "niri_tm_v", type_: UniformType::Float1 },
        UniformName { name: "niri_tm_ref_scale", type_: UniformType::Float1 },
        UniformName { name: "niri_tm_out_scale", type_: UniformType::Float1 },
    ]
}

/// The uniform values that hand blend parameters to a shader program.
pub open spec fn params_uniforms(params: ColorBlendParams) -> Seq<Uniform> {
    seq![
        Uniform::flag_spec("niri_hdr_pq", params.hdr_pq),
        Uniform::float_spec("niri_ref_lum_scale", params.ref_lum_scale),
        Uniform::flag_spec("niri_linear", params.linear),
        Uniform::float_spec("niri_linear_scale", params.linear_scale),
        Uniform::float_spec("niri_linear_to_ref", params.linear_to_ref),
        Uniform::flag_spec("niri_hdr_to_sdr", params.hdr_to_sdr),
        Uniform::flag_spec("niri_pq_gamut", params.pq_gamut),
        Uniform::flag_spec("niri_use_gamut", params.use_gamut),
        Uniform::matrix_spec("niri_gamut", params.gamut),
        Uniform::flag_spec("niri_tonemap", params.tonemap),
        Uniform::float_spec("niri_tm_v", params.tm_v),
        Uniform::float_spec("niri_tm_ref_scale", params.tm_ref_scale),
        Uniform::float_spec("niri_tm_out_scale", params.tm_out_scale),
    ]
}

pub open spec fn gamut_uniforms_spec(enabled: bool, matrix: Option<Mat3>) -> Seq<Uniform> {
    seq![
        Uniform::flag_spec("niri_use_gamut", enabled),
        Uniform::matrix_spec("niri_gamut", match matrix {
            Some(m) => m.transposed_spec(),
            None => Mat3::identity_spec(),
        }),
    ]
}

/// The gamut uniforms for a draw: `niri_use_gamut` and the column-major `niri_gamut` matrix.
///
/// `enabled` distinguishes "multiply by the (possibly identity) uniform matrix" from "use the
/// shader's built-in constants" (the frame-wide default path for plain sRGB content).
pub fn gamut_uniforms(enabled: bool, matrix: Option<Mat3>) -> (uniforms: Vec<Uniform>)
    ensures
        uniforms@ == gamut_uniforms_spec(enabled, matrix),
{
    let m: Mat3 = match matrix {
        Some(m) => m,
        None => Mat3::identity(),
    };
    vec![
        Uniform::flag("niri_use_gamut", enabled),
        Uniform::matrix("niri_gamut", m.transposed()),
    ]
}

pub open spec fn tonemap_uniforms_spec(values: TonemapValues) -> Seq<Uniform> {
    seq![
        Uniform::flag_spec("niri_tonemap", values.tonemap),
        Uniform::float_spec("niri_tm_v", values.v),
        Uniform::float_spec("niri_tm_ref_scale", values.ref_scale),
        Uniform::float_spec("niri_tm_out_scale", values.out_scale),
    ]
}

/// The uniform values for content that already is in the frame's blend space: nothing is
/// transformed.
pub open spec fn blend_space_uniforms(state: FrameBlendState) -> Seq<Uniform> {
    seq![
        Uniform::flag_spec("niri_hdr_pq", false),
        Uniform::float_spec("niri_ref_lum_scale", state.reference_luminance.pq_scale()),
        Uniform::flag_spec("niri_linear", false),
        Uniform::float_spec("niri_linear_scale", Ratio::zero_spec()),
        Uniform::float_spec("niri_linear_to_ref", Ratio::zero_spec()),
        Uniform::flag_spec("niri_hdr_to_sdr", false),
        Uniform::flag_spec("niri_pq_gamut", false),
    ] + gamut_uniforms_spec(false, None) + tonemap_uniforms_spec(
        tonemap_values_spec(false, 0, Luminance(0), Luminance(0)),
    )
}

impl FrameBlendState {
    /// The compile-time declarations for every uniform the `niri_blend` stage (and the gamut
    /// uniforms) can set per draw.
    ///
    /// Every shader program that receives blend uniforms must declare these: uniforms that were
    /// not declared when the program was compiled are rejected. Over-declaring is harmless, so
    /// programs declare the full set even when they only use a subset.
    pub fn uniform_names() -> (names: Vec<UniformName>)
        ensures
            names@ == blend_uniform_names(),
    {
        vec![
            UniformName::new("niri_hdr_pq", UniformType::Float1),
            UniformName::new("niri_ref_lum_scale", UniformType::Float1),
            UniformName::new("niri_linear", UniformType::Float1),
            UniformName::new("niri_linear_scale", UniformType::Float1),
            UniformName::new("niri_linear_to_ref", UniformType::Float1),
            UniformName::new("niri_hdr_to_sdr", UniformType::Float1),
            UniformName::new("niri_pq_gamut", UniformType::Float1),
            UniformName::new("niri_use_gamut", UniformType::Float1),
            UniformName::new("niri_gamut", UniformType::Matrix3x3),
            UniformName::new("niri_tonemap", UniformType::Float1),
            UniformName::new("niri_tm_v", UniformType::Float1),
            UniformName::new("niri_tm_ref_scale", UniformType::Float1),
            UniformName::new("niri_tm_out_scale", UniformType::Float1),
        ]
    }

    /// The tone mapping uniforms for a draw; see [`Self::tonemap_values`].
    pub fn tonemap_uniforms(
        enabled: bool,
        max_in: u32,
        ref_lum: Luminance,
        max_out: Luminance,
    ) -> (uniforms: Vec<Uniform>)
        ensures
            uniforms@ == tonemap_uniforms_spec(
                tonemap_values_spec(enabled, max_in, ref_lum, max_out),
            ),
    {
        let values: TonemapValues = Self::tonemap_values(enabled, max_in, ref_lum, max_out);
        vec![
            Uniform::flag("niri_tonemap", values.tonemap),
            Uniform::float("niri_tm_v", values.v),
            Uniform::float("niri_tm_ref_scale", values.ref_scale),
            Uniform::float("niri_tm_out_scale", values.out_scale),
        ]
    }

    /// The `niri_blend` uniform values for content already rendered in the frame blend space.
    pub fn uniforms_for_blend_space(&self) -> (uniforms: Vec<Uniform>)
        ensures
            uniforms@ == blend_space_uniforms(*self),
    {
        let mut uniforms: Vec<Uniform> = vec![
            Uniform::flag("niri_hdr_pq", false),
            Uniform::float("niri_ref_lum_scale", self.ref_lum_scale()),
            Uniform::flag("niri_linear", false),
            Uniform::float("niri_linear_scale", Ratio::zero()),
            Uniform::float("niri_linear_to_ref", Ratio::zero()),
            Uniform::flag("niri_hdr_to_sdr", false),
            Uniform::flag("niri_pq_gamut", false),
        ];
        let mut gamut: Vec<Uniform> = gamut_uniforms(false, None);
        uniforms.append(&mut gamut);
        let mut tonemap: Vec<Uniform> = Self::tonemap_uniforms(
            false,
            0,
            Luminance(0),
            Luminance(0),
        );
        uniforms.append(&mut tonemap);
        uniforms
    }

    /// The `niri_blend` uniform values for a draw of SDR content in this frame.
    pub fn uniforms(&self, tonemapping: bool) -> (uniforms: Vec<Uniform>)
        ensures
            uniforms@ == params_uniforms(
                params_for_content(
                    *self,
                    ContentColor::Sdr { gamut: ContentGamut::Srgb },
                    tonemapping,
                    None,
                ),
            ),
    {
        self.uniforms_for_content(ContentColor::default(), tonemapping, None)
    }

    /// The `niri_blend` uniform values for a draw in this frame; see
    /// [`Self::values_for_content`].
    pub fn uniforms_for_content(
        &self,
        content: ContentColor,
        tonemapping: bool,
        computed: Option<Mat3>,
    ) -> (uniforms: Vec<Uniform>)
        ensures
            uniforms@ == params_uniforms(
                params_for_content(*self, content, tonemapping, computed),
            ),
    {
        let params: ColorBlendParams = self.values_for_content(content, tonemapping, computed);
        vec![
            Uniform::flag("niri_hdr_pq", params.hdr_pq),
            Uniform::float("niri_ref_lum_scale", params.ref_lum_scale),
            Uniform::flag("niri_linear", params.linear),
            Uniform::float("niri_linear_scale", params.linear_scale),
            Uniform::float("niri_linear_to_ref", params.linear_to_ref),
            Uniform::flag("niri_hdr_to_sdr", params.hdr_to_sdr),
            Uniform::flag("niri_pq_gamut", params.pq_gamut),
            Uniform::flag("niri_use_gamut", params.use_gamut),
            Uniform::matrix("niri_gamut", params.gamut),
            Uniform::flag("niri_tonemap", params.tonemap),
            Uniform::float("niri_tm_v", params.tm_v),
            Uniform::float("niri_tm_ref_scale", params.tm_ref_scale),
            Uniform::float("niri_tm_out_scale", params.tm_out_scale),
        ]
    }
}

/// The uniforms set for a draw of content are exactly the declared ones, in order, each with a
/// value of its declared type.
pub proof fn law_content_uniforms_are_the_declared_ones(params: ColorBlendParams, i: int)
    requires
        0 <= i < params_uniforms(params).len(),
    ensures
        params_uniforms(params).len() == blend_uniform_names().len(),
        params_uniforms(params)[i].name == blend_uniform_names()[i].name,
        params_uniforms(params)[i].value.type_() == blend_uniform_names()[i].type_,
{
}

/// The uniforms set for content in the blend space are exactly the declared ones too, so a draw
/// leaves nothing of an earlier draw behind in the program.
pub proof fn law_blend_space_uniforms_are_the_declared_ones(state: FrameBlendState, i: int)
    requires
        0 <= i < blend_space_uniforms(state).len(),
    ensures
        blend_space_uniforms(state).len() == blend_uniform_names().len(),
        blend_space_uniforms(state)[i].name == blend_uniform_names()[i].name,
        blend_space_uniforms(state)[i].value.type_() == blend_uniform_names()[i].type_,
{
}

/// An HDR frame has the reference white and the peak it is given. SDR frames have the default
/// reference white of 203 cd/m², captures the one they are given, and both peak at it.
pub proof fn law_frame_states(reference: Luminance, peak: Luminance)
    ensures
        ({
            let hdr = FrameBlendState::for_blend(Some((reference, peak)));
            hdr.hdr_pq && hdr.reference_luminance == reference && hdr.max_luminance == peak
        }),
        ({
            let sdr = FrameBlendState::for_blend(None);
            !sdr.hdr_pq && sdr.reference_luminance.0 == 2_030_000 && sdr.max_luminance.0
                == 2_030_000
        }),
        ({
            let capture = FrameBlendState::for_capture(reference);
            !capture.hdr_pq && capture.reference_luminance == reference && capture.max_luminance
                == reference
        }),
{
}

/// The value of the ratio is the luminance, relative to the 10000 cd/m² that PQ can represent.
pub open spec fn scales_to(ratio: Ratio, luminance: Luminance) -> bool {
    ratio.den > 0 && ratio.num * 10_000 * 10_000 == luminance.0 * ratio.den
}

/// SDR and linear content is encoded on HDR frames. HDR content is converted back on SDR frames,
/// and on HDR frames re-encoded or left alone. Each draw knows the reference white of its frame.
/// SDR content is left alone on SDR frames, and so is PQ on HDR frames if its gamut needs no
/// conversion and it is no brighter than the output.
pub proof fn law_draws_go_through_the_stage_of_their_content(
    state: FrameBlendState,
    content: ContentColor,
    tonemapping: bool,
    computed: Option<Mat3>,
)
    ensures
        ({
            let p = params_for_content(state, content, tonemapping, computed);
            &&& scales_to(p.ref_lum_scale, state.reference_luminance)
            &&& match content {
                ContentColor::Sdr { .. } => {
                    &&& p.hdr_pq == state.hdr_pq
                    &&& p.use_gamut == state.hdr_pq
                    &&& !p.linear && !p.hdr_to_sdr && !p.pq_gamut && !p.tonemap
                },
                ContentColor::HdrPq { gamut, max_lum } => {
                    &&& !p.hdr_pq && !p.linear
                    &&& p.hdr_to_sdr == !state.hdr_pq
                    &&& p.pq_gamut ==> state.hdr_pq
                    &&& state.hdr_pq ==> p.pq_gamut == p.use_gamut
                    &&& !state.hdr_pq ==> p.use_gamut
                    &&& p.tonemap ==> p.use_gamut
                    &&& state.hdr_pq && gamut.matrix_to_spec(true, computed) is Some ==> p.use_gamut
                    &&& state.hdr_pq && gamut.matrix_to_spec(true, computed) is None && (max_lum
                        matches Some(max) ==> !tonemapping || max * 10_000
                        <= state.max_luminance.0) ==> !p.use_gamut && !p.tonemap
                },
                ContentColor::Linear { .. } => {
                    &&& p.hdr_pq == state.hdr_pq
                    &&& p.linear && p.use_gamut
                    &&& !p.hdr_to_sdr && !p.pq_gamut && !p.tonemap
                },
            }
        }),
{
    if let ContentColor::HdrPq { max_lum, .. } = content {
        law_content_brighter_than_the_output_is_tone_mapped(
            tonemapping,
            max_lum,
            state.max_luminance,
        );
    }
}

/// Linear content is scaled by the luminance of its encoded 1.0: relative to 10000 cd/m² on HDR
/// frames, whatever the reference white of the frame is, and relative to its own reference white on
/// SDR frames. No other content is.
pub proof fn law_linear_content_is_scaled_by_its_luminance(
    state: FrameBlendState,
    content: ContentColor,
    tonemapping: bool,
    computed: Option<Mat3>,
)
    ensures
        ({
            let p = params_for_content(state, content, tonemapping, computed);
            match content {
                ContentColor::Linear { max_lum, ref_lum, .. } => {
                    &&& p.linear_scale.den > 0
                    &&& p.linear_scale.num * 10_000 == max_lum * p.linear_scale.den
                    &&& ref_lum > 0 ==> p.linear_to_ref.den > 0
                    &&& p.linear_to_ref.num * ref_lum == max_lum * p.linear_to_ref.den
                },
                _ => {
                    &&& p.linear_scale.num == 0 && p.linear_scale.den == 1
                    &&& p.linear_to_ref.num == 0 && p.linear_to_ref.den == 1
                },
            }
        }),
{
}

/// A draw tone maps only HDR content that is brighter than the output, and always from a factor of
/// 1.001 on. The reference white of the frame anchors its curve, which takes the peak of the content
/// exactly to that of the output. Other draws have no curve.
pub proof fn law_draws_tone_map_into_the_output(
    state: FrameBlendState,
    content: ContentColor,
    tonemapping: bool,
    computed: Option<Mat3>,
)
    ensures
        ({
            let p = params_for_content(state, content, tonemapping, computed);
            let white = state.reference_luminance.0 as int;
            let peak = state.max_luminance.0 as int;
            &&& p.tonemap ==> {
                &&& tonemapping
                &&& content matches ContentColor::HdrPq { max_lum: Some(max), .. }
                &&& max * 10_000 > peak
                &&& scales_to(p.tm_ref_scale, state.reference_luminance)
                &&& scales_to(p.tm_out_scale, state.max_luminance)
                &&& curve_passes(max * 10_000, peak, white, p.tm_v)
            }
            &&& !p.tonemap ==> p.tm_v.num == 0 && p.tm_ref_scale.num == 0 && p.tm_out_scale.num == 0
            &&& tonemapping && white > 0 && peak > 0 && (content matches ContentColor::HdrPq {
                max_lum: Some(max),
                ..
            } && max * 10_000 * 1_000 >= peak * 1_001) ==> p.tonemap
        }),
{
    if let ContentColor::HdrPq { max_lum, .. } = content {
        law_content_brighter_than_the_output_is_tone_mapped(
            tonemapping,
            max_lum,
            state.max_luminance,
        );
        let p = params_for_content(state, content, tonemapping, computed);
        if p.tonemap {
            let max = max_lum->0;
            law_tonemap_hits_the_output_peak(max, state.reference_luminance, state.max_luminance);
            let white = state.reference_luminance.0 as int;
            let from = max * 10_000;
            assert(p.tm_v.den > 0) by (nonlinear_arith)
                requires
                    white * p.tm_v.den * (white + from) > 0,
                    p.tm_v.den >= 0,
            ;
            assert(curve_passes(
                max * 10_000,
                state.max_luminance.0 as int,
                state.reference_luminance.0 as int,
                p.tm_v,
            ));
        }
    }
}

/// The curve `f(l) = l * (1 + l*v) / (1 + l)` on luminances relative to `white` takes the luminance
/// `from` to the luminance `to`.
pub open spec fn curve_passes(from: int, to: int, white: int, v: Ratio) -> bool {
    &&& v.den > 0 && white > 0
    &&& (from * (white * v.den + from * v.num)) * white == to * (white * v.den * (white + from))
}

/// Where a draw converts the gamut, it multiplies by the matrix into the blend space of its frame,
/// column by column, or by the identity if no conversion is needed.
pub proof fn law_draws_convert_into_the_blend_space(
    state: FrameBlendState,
    content: ContentColor,
    tonemapping: bool,
    computed: Option<Mat3>,
)
    ensures
        ({
            let p = params_for_content(state, content, tonemapping, computed);
            let gamut = match content {
                ContentColor::Sdr { gamut } => gamut,
                ContentColor::HdrPq { gamut, .. } => gamut,
                ContentColor::Linear { gamut, .. } => gamut,
            };
            match gamut.matrix_to_spec(state.hdr_pq, computed) {
                Some(m) if p.use_gamut => {
                    &&& p.gamut.r.r == m.r.r && p.gamut.r.g == m.g.r && p.gamut.r.b == m.b.r
                    &&& p.gamut.g.r == m.r.g && p.gamut.g.g == m.g.g && p.gamut.g.b == m.b.g
                    &&& p.gamut.b.r == m.r.b && p.gamut.b.g == m.g.b && p.gamut.b.b == m.b.b
                },
                _ => {
                    let one: i64 = 1_000_000_000_000;
                    &&& p.gamut.r.r == one && p.gamut.r.g == 0 && p.gamut.r.b == 0
                    &&& p.gamut.g.r == 0 && p.gamut.g.g == one && p.gamut.g.b == 0
                    &&& p.gamut.b.r == 0 && p.gamut.b.g == 0 && p.gamut.b.b == one
                },
            }
        }),
{
}

/// The uniform with the given name is a float of this value.
pub open spec fn sets_float(uniforms: Seq<Uniform>, name: &'static str, value: Ratio) -> bool {
    exists|i: int| #![trigger uniforms[i]]
        0 <= i < uniforms.len() && uniforms[i].name == name && uniforms[i].value
            == UniformValue::Float(value)
}

/// The uniform with the given name is 1 or 0.
pub open spec fn sets_flag(uniforms: Seq<Uniform>, name: &'static str, on: bool) -> bool {
    sets_float(uniforms, name, Ratio { num: if on { 1 } else { 0 }, den: 1 })
}

/// Each blend parameter is handed to the shader under its own name.
pub proof fn law_uniforms_carry_the_blend_parameters(p: ColorBlendParams)
    ensures
        ({
            let u = params_uniforms(p);
            &&& sets_flag(u, "niri_hdr_pq", p.hdr_pq)
            &&& sets_float(u, "niri_ref_lum_scale", p.ref_lum_scale)
            &&& sets_flag(u, "niri_linear", p.linear)
            &&& sets_float(u, "niri_linear_scale", p.linear_scale)
            &&& sets_float(u, "niri_linear_to_ref", p.linear_to_ref)
            &&& sets_flag(u, "niri_hdr_to_sdr", p.hdr_to_sdr)
            &&& sets_flag(u, "niri_pq_gamut", p.pq_gamut)
            &&& sets_flag(u, "niri_use_gamut", p.use_gamut)
            &&& u[8].name == "niri_gamut" && u[8].value == UniformValue::Matrix3x3(p.gamut)
            &&& sets_flag(u, "niri_tonemap", p.tonemap)
            &&& sets_float(u, "niri_tm_v", p.tm_v)
            &&& sets_float(u, "niri_tm_ref_scale", p.tm_ref_scale)
            &&& sets_float(u, "niri_tm_out_scale", p.tm_out_scale)
            &&& u.len() == 13
        }),
{
    let u = params_uniforms(p);
    assert(u[0].name == "niri_hdr_pq");
    assert(u[1].name == "niri_ref_lum_scale");
    assert(u[2].name == "niri_linear");
    assert(u[3].name == "niri_linear_scale");
    assert(u[4].name == "niri_linear_to_ref");
    assert(u[5].name == "niri_hdr_to_sdr");
    assert(u[6].name == "niri_pq_gamut");
    assert(u[7].name == "niri_use_gamut");
    assert(u[9].name == "niri_tonemap");
    assert(u[10].name == "niri_tm_v");
    assert(u[11].name == "niri_tm_ref_scale");
    assert(u[12].name == "niri_tm_out_scale");
}

/// Content that is in the blend space already goes through no stage at all: every flag is off, and
/// only the reference white of the frame is handed to the shader.
pub proof fn law_blend_space_content_is_left_alone(state: FrameBlendState)
    ensures
        ({
            let u = blend_space_uniforms(state);
            &&& sets_flag(u, "niri_hdr_pq", false)
            &&& sets_flag(u, "niri_linear", false)
            &&& sets_flag(u, "niri_hdr_to_sdr", false)
            &&& sets_flag(u, "niri_pq_gamut", false)
            &&& sets_flag(u, "niri_use_gamut", false)
            &&& sets_flag(u, "niri_tonemap", false)
            &&& u[1].name == "niri_ref_lum_scale"
            &&& u[1].value matches UniformValue::Float(scale)
            &&& scales_to(scale, state.reference_luminance)
        }),
{
    let u = blend_space_uniforms(state);
    assert(u[0].name == "niri_hdr_pq");
    assert(u[2].name == "niri_linear");
    assert(u[5].name == "niri_hdr_to_sdr");
    assert(u[6].name == "niri_pq_gamut");
    assert(u[7].name == "niri_use_gamut");
    assert(u[9].name == "niri_tonemap");
}

/// The uniforms of a draw carry the parameters that are computed for its content, on either
/// renderer. A Vulkan renderer without a blend state yet draws SDR frames, with a reference white
/// of 203 cd/m².
pub proof fn law_renderers_draw_with_the_same_parameters(
    state: FrameBlendState,
    content: ContentColor,
    tonemapping: bool,
    computed: Option<Mat3>,
    gles: Vec<Uniform>,
    vulkan: ColorBlendParams,
    fresh: ColorBlendParams,
)
    requires
        call_ensures(
            FrameBlendState::uniforms_for_content,
            (&state, content, tonemapping, computed),
            gles,
        ),
        call_ensures(
            FrameBlendState::vulkan_params_for_content,
            (Some(state), content, tonemapping, computed),
            vulkan,
        ),
        call_ensures(
            FrameBlendState::vulkan_params_for_content,
            (None, content, tonemapping, computed),
            fresh,
        ),
    ensures
        gles@ == params_uniforms(vulkan),
        vulkan == params_for_content(state, content, tonemapping, computed),
        !state.hdr_pq && state.reference_luminance.0 == 2_030_000 && state.max_luminance.0
            == 2_030_000 ==> fresh == vulkan,
{
}

/// Draws that know nothing of their content are draws of plain sRGB content.
pub proof fn law_plain_draws_are_of_srgb_content(
    state: FrameBlendState,
    tonemapping: bool,
    computed: Option<Mat3>,
    plain: Vec<Uniform>,
    srgb: Vec<Uniform>,
)
    requires
        call_ensures(FrameBlendState::uniforms, (&state, tonemapping), plain),
        call_ensures(
            FrameBlendState::uniforms_for_content,
            (
                &state,
                ContentColor::Sdr { gamut: ContentGamut::Srgb },
                tonemapping,
                computed,
            ),
            srgb,
        ),
    ensures
        plain@ =~= srgb@,
{
}

} // verus!
