//! Plane color pipelines for direct scanout.

use vstd::prelude::*;

use crate::render_helpers::blend::content::{ContentColor, ContentGamut};
use crate::render_helpers::blend::frame::{params_for_content, FrameBlendState};
use crate::render_helpers::blend::tonemap::{
    law_content_brighter_than_the_output_is_tone_mapped, tonemap_needed, Luminance,
};
use crate::render_helpers::colorimetry::{Mat3, Row3};
use crate::utils::ratio::Ratio;

verus! {

/// One row of a [`Ctm3x4`].
#[derive(Debug, Clone, Copy, PartialEq, Eq, Structural)]
pub struct CtmRow {
    pub r: i64,
    pub g: i64,
    pub b: i64,
    pub offset: i64,
}

/// A color transformation matrix with an offset column, in the layout of
/// `struct drm_color_ctm_3x4` and with the coefficient units of [`Mat3`].
#[derive(Debug, Clone, Copy, PartialEq, Eq, Structural)]
pub struct Ctm3x4 {
    pub r: CtmRow,
    pub g: CtmRow,
    pub b: CtmRow,
}

pub open spec fn row_to_ctm_spec(row: Row3) -> CtmRow {
    CtmRow { r: row.r, g: row.g, b: row.b, offset: 0 }
}

pub open spec fn mat3_to_ctm_spec(m: Mat3) -> Ctm3x4 {
    Ctm3x4 { r: row_to_ctm_spec(m.r), g: row_to_ctm_spec(m.g), b: row_to_ctm_spec(m.b) }
}

fn row_to_ctm(row: Row3) -> (out: CtmRow)
    ensures
        out == row_to_ctm_spec(row),
{
    CtmRow { r: row.r, g: row.g, b: row.b, offset: 0 }
}

/// Embeds a linear 3x3 matrix into the 3x4 (with offset column) layout of
/// `struct drm_color_ctm_3x4`.
pub fn mat3_to_ctm(m: Mat3) -> (ctm: Ctm3x4)
    ensures
        ctm == mat3_to_ctm_spec(m),
{
    Ctm3x4 { r: row_to_ctm(m.r), g: row_to_ctm(m.g), b: row_to_ctm(m.b) }
}

/// A named one-dimensional curve of a plane color pipeline. The `PQ 125` curves use a linear scale
/// of 1.0 = 80 cd/m².
#[derive(Debug, Clone, Copy, PartialEq, Eq, Structural)]
pub enum Curve1DType {
    Gamma22,
    Gamma22Inv,
    Pq125Eotf,
    Pq125InvEotf,
}

/// A plane color pipeline: decode, multiply, transform by the matrix, encode. A missing stage is
/// bypassed.
#[derive(Debug, Clone, Copy, PartialEq, Eq)]
pub struct ScanoutColorTransform {
    pub decode: Option<Curve1DType>,
    pub multiplier: Ratio,
    pub ctm: Option<Ctm3x4>,
    pub encode: Option<Curve1DType>,
}

impl ScanoutColorTransform {
    pub open spec fn identity_spec() -> ScanoutColorTransform {
        ScanoutColorTransform {
            decode: None,
            multiplier: Ratio::one_spec(),
            ctm: None,
            encode: None,
        }
    }

    /// The transform that changes nothing.
    pub fn identity() -> (transform: Self)
        ensures
            transform == ScanoutColorTransform::identity_spec(),
    {
        ScanoutColorTransform { decode: None, multiplier: Ratio::one(), ctm: None, encode: None }
    }

    /// Each stage is bypassed or changes nothing.
    pub open spec fn is_identity_spec(self) -> bool {
        self.decode is None && self.multiplier.is_one_spec() && self.ctm is None && self.encode
            is None
    }

    pub fn is_identity(&self) -> (identity: bool)
        ensures
            identity == self.is_identity_spec(),
    {
        self.decode.is_none() && self.multiplier.is_one() && self.ctm.is_none()
            && self.encode.is_none()
    }
}

pub open spec fn ctm_of(matrix: Option<Mat3>) -> Option<Ctm3x4> {
    match matrix {
        Some(m) => Some(mat3_to_ctm_spec(m)),
        None => None,
    }
}

fn map_ctm(matrix: Option<Mat3>) -> (ctm: Option<Ctm3x4>)
    ensures
        ctm == ctm_of(matrix),
{
    match matrix {
        Some(m) => Some(mat3_to_ctm(m)),
        None => None,
    }
}

/// The pipeline that does to content of this color what the blend shaders do to it when it is not
/// tone mapped.
pub open spec fn plane_pipeline(
    content: ContentColor,
    blend_hdr: bool,
    reference_luminance: Luminance,
    computed: Option<Mat3>,
) -> ScanoutColorTransform {
    let matrix = content.gamut_spec().matrix_to_spec(blend_hdr, computed);
    match (content, blend_hdr) {
        // Decode, scale reference white to its luminance, convert the gamut, encode as PQ.
        (ContentColor::Sdr { .. }, true) => ScanoutColorTransform {
            decode: Some(Curve1DType::Gamma22),
            multiplier: Ratio { num: reference_luminance.0 as i128, den: 800_000 },
            ctm: ctm_of(matrix),
            encode: Some(Curve1DType::Pq125InvEotf),
        },
        (ContentColor::Sdr { .. }, false) => ScanoutColorTransform::identity_spec(),
        // PQ in the blend space's own gamut is already encoded. Other containers are decoded,
        // converted and re-encoded.
        (ContentColor::HdrPq { .. }, true) => if matrix is None {
            ScanoutColorTransform::identity_spec()
        } else {
            ScanoutColorTransform {
                decode: Some(Curve1DType::Pq125Eotf),
                multiplier: Ratio::one_spec(),
                ctm: ctm_of(matrix),
                encode: Some(Curve1DType::Pq125InvEotf),
            }
        },
        // Decode, anchor the reference white to display white, convert the gamut, gamma-encode.
        (ContentColor::HdrPq { .. }, false) => ScanoutColorTransform {
            decode: Some(Curve1DType::Pq125Eotf),
            multiplier: Ratio { num: 800_000, den: reference_luminance.0 as u128 },
            ctm: ctm_of(matrix),
            encode: Some(Curve1DType::Gamma22Inv),
        },
        // Absolute mapping, independent of the SDR reference luminance.
        (ContentColor::Linear { max_lum, .. }, true) => ScanoutColorTransform {
            decode: None,
            multiplier: Ratio { num: max_lum as i128, den: 80 },
            ctm: ctm_of(matrix),
            encode: Some(Curve1DType::Pq125InvEotf),
        },
        // Reference white anchored to display white via the content's own reference luminance.
        (ContentColor::Linear { max_lum, ref_lum, .. }, false) => ScanoutColorTransform {
            decode: None,
            multiplier: Ratio { num: max_lum as i128, den: ref_lum as u128 },
            ctm: ctm_of(matrix),
            encode: Some(Curve1DType::Gamma22Inv),
        },
    }
}

/// The plane color transform reproducing what the blend shaders do to content of this color during
/// composition, for direct scanout via the kernel color pipeline (drm_colorop) API.
///
/// `blend_hdr` and `reference_luminance` describe the output: an HDR (PQ/BT.2020) blend space with
/// the configured SDR reference white, or an SDR output (where the shaders assume the default
/// reference white, so callers should pass that). `peak_luminance` is the output's peak (see
/// [`output_peak_luminance`]): content the shaders would *tone map* into that peak returns `None`,
/// since the parametric decode/multiply/matrix/encode pipeline cannot express the tone mapping
/// curve, and the element must stay composited so the shaders can apply it.
pub fn scanout_color_transform(
    content: ContentColor,
    blend_hdr: bool,
    reference_luminance: Luminance,
    peak_luminance: Luminance,
    tonemapping: bool,
    computed: Option<Mat3>,
) -> (transform: Option<ScanoutColorTransform>)
    ensures
        transform == if content.tone_maps(tonemapping, peak_luminance) {
            None
        } else {
            Some(plane_pipeline(content, blend_hdr, reference_luminance, computed))
        },
{
    if let ContentColor::HdrPq { max_lum, .. } = content {
        if tonemap_needed(tonemapping, max_lum, peak_luminance) {
            return None;
        }
    }
    let transform: ScanoutColorTransform = if blend_hdr {
        match content {
            ContentColor::Sdr { gamut } => ScanoutColorTransform {
                decode: Some(Curve1DType::Gamma22),
                multiplier: Ratio::new(reference_luminance.0 as i128, 800_000),
                ctm: map_ctm(gamut.matrix_to(true, computed)),
                encode: Some(Curve1DType::Pq125InvEotf),
            },
            ContentColor::HdrPq { gamut, .. } => match gamut.matrix_to(true, computed) {
                None => ScanoutColorTransform::identity(),
                Some(m) => ScanoutColorTransform {
                    decode: Some(Curve1DType::Pq125Eotf),
                    multiplier: Ratio::one(),
                    ctm: Some(mat3_to_ctm(m)),
                    encode: Some(Curve1DType::Pq125InvEotf),
                },
            },
            ContentColor::Linear { gamut, max_lum, .. } => ScanoutColorTransform {
                decode: None,
                multiplier: Ratio::new(max_lum as i128, 80),
                ctm: map_ctm(gamut.matrix_to(true, computed)),
                encode: Some(Curve1DType::Pq125InvEotf),
            },
        }
    } else {
        match content {
            // SDR content on an SDR output passes through, whatever its container gamut (the
            // shaders don't convert wide-gamut SDR on SDR outputs either).
            ContentColor::Sdr { .. } => ScanoutColorTransform::identity(),
            ContentColor::HdrPq { gamut, .. } => ScanoutColorTransform {
                decode: Some(Curve1DType::Pq125Eotf),
                multiplier: Ratio::new(800_000, reference_luminance.0 as u128),
                ctm: map_ctm(gamut.matrix_to(false, computed)),
                encode: Some(Curve1DType::Gamma22Inv),
            },
            ContentColor::Linear { gamut, max_lum, ref_lum } => ScanoutColorTransform {
                decode: None,
                multiplier: Ratio::new(max_lum as i128, ref_lum as u128),
                ctm: map_ctm(gamut.matrix_to(false, computed)),
                encode: Some(Curve1DType::Gamma22Inv),
            },
        }
    };
    Some(transform)
}

/// Scanout is denied exactly to the content that composition would tone map, on outputs with a
/// reference white.
pub proof fn law_scanout_denied_iff_composition_tone_maps(
    state: FrameBlendState,
    content: ContentColor,
    tonemapping: bool,
    computed: Option<Mat3>,
)
    requires
        state.reference_luminance.0 > 0,
    ensures
        content.tone_maps(tonemapping, state.max_luminance) <==> params_for_content(
            state,
            content,
            tonemapping,
            computed,
        ).tonemap,
{
}

/// What a plane does to scanned out content is what the shaders do to composited content: the same
/// gamut matrix, the same gain, and no transform in the same cases. The shaders scale against
/// 10000 cd/m² and the plane curves against 80 cd/m², hence the factor of 125 between the gains.
pub proof fn law_scanout_mirrors_composition(
    state: FrameBlendState,
    content: ContentColor,
    tonemapping: bool,
    computed: Option<Mat3>,
)
    requires
        !content.tone_maps(tonemapping, state.max_luminance),
    ensures
        ({
            let params = params_for_content(state, content, tonemapping, computed);
            let plane = plane_pipeline(content, state.hdr_pq, state.reference_luminance, computed);
            &&& !params.use_gamut <==> plane.is_identity_spec()
            &&& match plane.ctm {
                Some(ctm) => {
                    &&& ctm.r.offset == 0 && ctm.g.offset == 0 && ctm.b.offset == 0
                    &&& params.gamut.transposed_spec() == Mat3 {
                        r: Row3 { r: ctm.r.r, g: ctm.r.g, b: ctm.r.b },
                        g: Row3 { r: ctm.g.r, g: ctm.g.g, b: ctm.g.b },
                        b: Row3 { r: ctm.b.r, g: ctm.b.g, b: ctm.b.b },
                    }
                },
                None => params.gamut == Mat3::identity_spec(),
            }
            &&& match content {
                ContentColor::Sdr { .. } => params.hdr_pq ==> plane.multiplier.num
                    * params.ref_lum_scale.den == 125 * params.ref_lum_scale.num
                    * plane.multiplier.den,
                ContentColor::HdrPq { .. } => if params.hdr_to_sdr {
                    plane.multiplier.num * 125 * params.ref_lum_scale.num
                        == params.ref_lum_scale.den * plane.multiplier.den
                } else {
                    plane.multiplier == Ratio::one_spec()
                },
                ContentColor::Linear { .. } => if params.hdr_pq {
                    plane.multiplier.num * params.linear_scale.den == 125 * params.linear_scale.num
                        * plane.multiplier.den
                } else {
                    plane.multiplier == params.linear_to_ref
                },
            }
        }),
{
    let params = params_for_content(state, content, tonemapping, computed);
    let plane = plane_pipeline(content, state.hdr_pq, state.reference_luminance, computed);
    let gain = plane.multiplier;
    match content {
        ContentColor::Sdr { .. } => {
            if state.hdr_pq {
                let scale = params.ref_lum_scale;
                assert(gain.num == scale.num && gain.den == 800_000 && scale.den == 100_000_000);
                assert(gain.num * scale.den == 125 * scale.num * gain.den) by (nonlinear_arith)
                    requires
                        gain.num == scale.num,
                        gain.den == 800_000,
                        scale.den == 100_000_000,
                ;
            }
        },
        ContentColor::HdrPq { .. } => {
            if !state.hdr_pq {
                let scale = params.ref_lum_scale;
                assert(gain.den == scale.num && gain.num == 800_000 && scale.den == 100_000_000);
                assert(gain.num * 125 * scale.num == scale.den * gain.den) by (nonlinear_arith)
                    requires
                        gain.den == scale.num,
                        gain.num == 800_000,
                        scale.den == 100_000_000,
                ;
            }
        },
        ContentColor::Linear { .. } => {
            if state.hdr_pq {
                let scale = params.linear_scale;
                assert(gain.num == scale.num && gain.den == 80 && scale.den == 10_000);
                assert(gain.num * scale.den == 125 * scale.num * gain.den) by (nonlinear_arith)
                    requires
                        gain.num == scale.num,
                        gain.den == 80,
                        scale.den == 10_000,
                ;
            }
        },
    }
}

/// The curves of a plane follow from the transfer function of the content and from the output alone,
/// for every gamut. SDR content is decoded with gamma 2.2, PQ content with PQ, and linear content
/// not at all. HDR outputs are encoded with PQ, and SDR outputs with the inverse of gamma 2.2. Only
/// content that already is what the output shows passes without either: SDR content on SDR outputs,
/// and PQ content on HDR outputs whose gamut needs no conversion.
pub proof fn law_plane_curves_follow_the_transfer_function(
    content: ContentColor,
    blend_hdr: bool,
    reference_luminance: Luminance,
    computed: Option<Mat3>,
)
    ensures
        ({
            let plane = plane_pipeline(content, blend_hdr, reference_luminance, computed);
            let output = if blend_hdr {
                Some(Curve1DType::Pq125InvEotf)
            } else {
                Some(Curve1DType::Gamma22Inv)
            };
            match content {
                ContentColor::Sdr { .. } => if blend_hdr {
                    plane.decode == Some(Curve1DType::Gamma22) && plane.encode == output
                } else {
                    plane.decode is None && plane.encode is None
                },
                ContentColor::HdrPq { gamut, .. } => {
                    let passes = blend_hdr && gamut.matrix_to_spec(true, computed) is None;
                    if passes {
                        plane.decode is None && plane.encode is None
                    } else {
                        plane.decode == Some(Curve1DType::Pq125Eotf) && plane.encode == output
                    }
                },
                ContentColor::Linear { .. } => plane.decode is None && plane.encode == output,
            }
        }),
        blend_hdr && (content matches ContentColor::HdrPq { gamut: ContentGamut::Bt2020, .. })
            ==> plane_pipeline(
            content,
            blend_hdr,
            reference_luminance,
            computed,
        ).is_identity_spec(),
{
}

/// A plane shows each content at its luminance. On HDR outputs, where a linear 1.0 is 80 cd/m²,
/// SDR white is shown at the reference white of the output, linear content at its own luminance,
/// and PQ as it is. On SDR outputs white is a linear 1.0: what PQ content shows at the reference
/// white of the output, and what linear content shows at its own reference white. SDR content is
/// shown as it is.
pub proof fn law_planes_show_content_at_its_luminance(
    content: ContentColor,
    blend_hdr: bool,
    reference_luminance: Luminance,
    computed: Option<Mat3>,
)
    ensures
        ({
            let gain = plane_pipeline(content, blend_hdr, reference_luminance, computed).multiplier;
            match content {
                ContentColor::Sdr { .. } => if blend_hdr {
                    gain.den > 0 && gain.num * 80 * 10_000 == reference_luminance.0 * gain.den
                } else {
                    gain.num == 1 && gain.den == 1
                },
                ContentColor::HdrPq { .. } => if blend_hdr {
                    gain.num == 1 && gain.den == 1
                } else {
                    &&& reference_luminance.0 > 0 ==> gain.den > 0
                    &&& gain.num > 0
                    &&& reference_luminance.0 * gain.num == 80 * 10_000 * gain.den
                },
                ContentColor::Linear { max_lum, ref_lum, .. } => if blend_hdr {
                    gain.den > 0 && gain.num * 80 == max_lum * gain.den
                } else {
                    &&& ref_lum > 0 ==> gain.den > 0
                    &&& gain.num * ref_lum == max_lum * gain.den
                },
            }
        }),
{
    let gain = plane_pipeline(content, blend_hdr, reference_luminance, computed).multiplier;
    let white = reference_luminance.0;
    match content {
        ContentColor::Sdr { .. } => {
            if blend_hdr {
                assert(gain.num * 80 * 10_000 == white * gain.den) by (nonlinear_arith)
                    requires
                        gain.num == white,
                        gain.den == 800_000,
                ;
            }
        },
        ContentColor::HdrPq { .. } => {
            if !blend_hdr {
                assert(white * gain.num == 80 * 10_000 * gain.den) by (nonlinear_arith)
                    requires
                        gain.num == 800_000,
                        gain.den == white,
                ;
            }
        },
        ContentColor::Linear { max_lum, ref_lum, .. } => {
            if blend_hdr {
                assert(gain.num * 80 == max_lum * gain.den) by (nonlinear_arith)
                    requires
                        gain.num == max_lum,
                        gain.den == 80,
                ;
            } else {
                assert(gain.num * ref_lum == max_lum * gain.den) by (nonlinear_arith)
                    requires
                        gain.num == max_lum,
                        gain.den == ref_lum,
                ;
            }
        },
    }
}

/// A plane converts the gamut of content into that of the output, row by row and without an offset,
/// where there is a conversion. SDR content on SDR outputs is not converted, whatever its gamut.
pub proof fn law_planes_convert_the_gamut(
    content: ContentColor,
    blend_hdr: bool,
    reference_luminance: Luminance,
    computed: Option<Mat3>,
)
    ensures
        ({
            let plane = plane_pipeline(content, blend_hdr, reference_luminance, computed);
            let gamut = match content {
                ContentColor::Sdr { gamut } => gamut,
                ContentColor::HdrPq { gamut, .. } => gamut,
                ContentColor::Linear { gamut, .. } => gamut,
            };
            match (plane.ctm, gamut.matrix_to_spec(blend_hdr, computed)) {
                (Some(ctm), Some(m)) => {
                    &&& blend_hdr || content !is Sdr
                    &&& ctm.r.r == m.r.r && ctm.r.g == m.r.g && ctm.r.b == m.r.b
                    &&& ctm.g.r == m.g.r && ctm.g.g == m.g.g && ctm.g.b == m.g.b
                    &&& ctm.b.r == m.b.r && ctm.b.g == m.b.g && ctm.b.b == m.b.b
                    &&& ctm.r.offset == 0 && ctm.g.offset == 0 && ctm.b.offset == 0
                },
                (None, Some(_)) => !blend_hdr && content is Sdr,
                (None, None) => true,
                (Some(_), None) => false,
            }
        }),
{
}

/// Content may be scanned out unless it is HDR content that is brighter than the output, which the
/// shaders tone map. From a factor of 1.001 on it is always denied, and otherwise the plane treats it
/// by its transfer function.
pub proof fn law_scanout_is_denied_to_brighter_content(
    content: ContentColor,
    blend_hdr: bool,
    reference_luminance: Luminance,
    peak_luminance: Luminance,
    tonemapping: bool,
    computed: Option<Mat3>,
    transform: Option<ScanoutColorTransform>,
)
    requires
        call_ensures(
            scanout_color_transform,
            (content, blend_hdr, reference_luminance, peak_luminance, tonemapping, computed),
            transform,
        ),
    ensures
        transform is None ==> tonemapping && (content matches ContentColor::HdrPq {
            max_lum: Some(max),
            ..
        } && max * 10_000 > peak_luminance.0),
        tonemapping && peak_luminance.0 > 0 && (content matches ContentColor::HdrPq {
            max_lum: Some(max),
            ..
        } && max * 10_000 * 1_000 >= peak_luminance.0 * 1_001) ==> transform is None,
        transform matches Some(plane) ==> plane == plane_pipeline(
            content,
            blend_hdr,
            reference_luminance,
            computed,
        ),
{
    if let ContentColor::HdrPq { max_lum, .. } = content {
        law_content_brighter_than_the_output_is_tone_mapped(tonemapping, max_lum, peak_luminance);
    }
}

/// A matrix is embedded row by row, and a transform is the identity exactly if it has no curve and
/// no matrix and multiplies by one.
pub proof fn law_planes_are_told_what_they_do(
    m: Mat3,
    ctm: Ctm3x4,
    transform: ScanoutColorTransform,
    identity: bool,
)
    requires
        call_ensures(mat3_to_ctm, (m,), ctm),
        call_ensures(ScanoutColorTransform::is_identity, (&transform,), identity),
    ensures
        ctm.r.r == m.r.r && ctm.r.g == m.r.g && ctm.r.b == m.r.b && ctm.r.offset == 0,
        ctm.g.r == m.g.r && ctm.g.g == m.g.g && ctm.g.b == m.g.b && ctm.g.offset == 0,
        ctm.b.r == m.b.r && ctm.b.g == m.b.g && ctm.b.b == m.b.b && ctm.b.offset == 0,
        identity <==> transform.decode is None && transform.encode is None && transform.ctm is None
            && transform.multiplier.den > 0 && transform.multiplier.num
            == transform.multiplier.den,
{
}

} // verus!
