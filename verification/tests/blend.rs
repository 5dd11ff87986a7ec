use niri::backend::tty_renderer::{TtyFrame, TtyRenderer};
use niri::render_helpers::blend::scanout::mat3_to_ctm;
use niri::render_helpers::blend::tonemap::{tonemap_curve_v, tonemap_needed, tonemapping_enabled};
use niri::render_helpers::blend::{
    adjust_tex_program_for_content, output_peak_luminance, scanout_color_transform,
    set_frame_blend, set_frame_blend_tty, set_sdr_capture_blend, BlendSurfaceRenderElement,
    BlendTexturePrograms, ColorBlendParams, ContentColor, ContentGamut, Curve1DType,
    FrameBlendState, GlesBlend, ImageDescription, Luminance, PrimariesOption,
    ScanoutColorTransform, SrgbToPqEncoder, TransferFunction, VulkanBlend, VulkanFrameBlend,
    DEFAULT_REFERENCE_LUMINANCE,
};
use niri::render_helpers::colorimetry::{Chromaticities, Coord, Mat3, Row3};
use niri::render_helpers::uniform::{Uniform, UniformType, UniformValue};
use niri::utils::ratio::Ratio;

fn nits(value: f64) -> Luminance {
    Luminance((value * 10_000.).round() as u32)
}

fn value(ratio: Ratio) -> f64 {
    ratio.num as f64 / ratio.den as f64
}

const PLAIN: PrimariesOption = PrimariesOption {
    named: None,
    values: None,
};

fn srgb_description() -> ImageDescription {
    ImageDescription {
        primaries: PrimariesOption {
            named: Some(Chromaticities::srgb()),
            values: None,
        },
        transfer: TransferFunction::Sdr,
        luminances: None,
        max_cll: None,
        mastering_luminance: None,
        windows_scrgb: false,
        windows_bt2100: false,
    }
}

fn bt2020_primaries() -> PrimariesOption {
    PrimariesOption {
        named: Some(Chromaticities::bt2020()),
        values: None,
    }
}

fn display_p3() -> Chromaticities {
    Chromaticities {
        red: Coord { x: 680_000, y: 320_000 },
        green: Coord { x: 265_000, y: 690_000 },
        blue: Coord { x: 150_000, y: 60_000 },
        white: Coord { x: 312_700, y: 329_000 },
    }
}

/// The matrix from Display-P3 to BT.2020, to the resolution of [`Mat3`].
fn p3_to_bt2020() -> Mat3 {
    Mat3 {
        r: Row3 { r: 753_833_034_362, g: 198_597_369_053, b: 47_569_596_585 },
        g: Row3 { r: 45_743_848_965, g: 941_777_219_811, b: 12_478_931_224 },
        b: Row3 { r: -1_210_340_355, g: 17_601_717_301, b: 983_608_623_054 },
    }
}

#[test]
fn content_color_classification() {
    assert_eq!(
        ContentColor::from_description(None),
        ContentColor::default()
    );
    assert_eq!(
        ContentColor::from_description(Some(srgb_description())),
        ContentColor::Sdr {
            gamut: ContentGamut::Srgb
        }
    );

    // Windows scRGB: 1.0 = 80 cd/m² with a 203 cd/m² reference white.
    let windows_scrgb = ImageDescription {
        transfer: TransferFunction::ExtLinear,
        windows_scrgb: true,
        ..srgb_description()
    };
    assert_eq!(
        ContentColor::from_description(Some(windows_scrgb)),
        ContentColor::Linear {
            gamut: ContentGamut::Srgb,
            max_lum: 80,
            ref_lum: 203,
        }
    );

    // A parametric ext_linear + sRGB description (Mesa's WSI mapping for
    // VK_COLOR_SPACE_EXTENDED_SRGB_LINEAR_EXT) with default luminances.
    let mesa_scrgb = ImageDescription {
        transfer: TransferFunction::ExtLinear,
        ..srgb_description()
    };
    assert_eq!(
        ContentColor::from_description(Some(mesa_scrgb)),
        ContentColor::Linear {
            gamut: ContentGamut::Srgb,
            max_lum: 80,
            ref_lum: 80,
        }
    );

    // BT.2020 linear content skips the 709 -> 2020 conversion.
    let bt2020_linear = ImageDescription {
        transfer: TransferFunction::ExtLinear,
        primaries: bt2020_primaries(),
        ..srgb_description()
    };
    assert!(matches!(
        ContentColor::from_description(Some(bt2020_linear)),
        ContentColor::Linear {
            gamut: ContentGamut::Bt2020,
            ..
        }
    ));

    // PQ content passes through the blend space numerically.
    let pq = ImageDescription {
        transfer: TransferFunction::St2084Pq,
        primaries: bt2020_primaries(),
        ..srgb_description()
    };
    assert_eq!(
        ContentColor::from_description(Some(pq)),
        ContentColor::HdrPq {
            gamut: ContentGamut::Bt2020,
            // No explicit luminance information: the PQ ceiling.
            max_lum: Some(10_000),
        }
    );
    // Windows-BT.2100 content is display-referred and exempt from tone mapping.
    let windows_bt2100 = ImageDescription {
        windows_bt2100: true,
        ..pq
    };
    assert_eq!(
        ContentColor::from_description(Some(windows_bt2100)),
        ContentColor::HdrPq {
            gamut: ContentGamut::Bt2020,
            max_lum: None,
        }
    );

    // Explicit content light level information tightens the tone mapping bound.
    let pq_mastered = ImageDescription {
        max_cll: Some(1_000),
        mastering_luminance: Some((0, 4_000)),
        ..pq
    };
    assert_eq!(
        ContentColor::from_description(Some(pq_mastered)),
        ContentColor::HdrPq {
            gamut: ContentGamut::Bt2020,
            max_lum: Some(1_000),
        }
    );
    let pq_mastered_no_cll = ImageDescription {
        mastering_luminance: Some((0, 4_000)),
        ..pq
    };
    assert_eq!(
        ContentColor::from_description(Some(pq_mastered_no_cll)),
        ContentColor::HdrPq {
            gamut: ContentGamut::Bt2020,
            max_lum: Some(4_000),
        }
    );

    // PQ in a Display-P3 container keeps its custom gamut for conversion.
    let p3_chroma = display_p3();
    let pq_p3 = ImageDescription {
        transfer: TransferFunction::St2084Pq,
        primaries: PrimariesOption {
            named: Some(p3_chroma),
            values: None,
        },
        ..srgb_description()
    };
    assert_eq!(
        ContentColor::from_description(Some(pq_p3)),
        ContentColor::HdrPq {
            gamut: ContentGamut::Custom(p3_chroma),
            max_lum: Some(10_000),
        }
    );

    // Raw chromaticities equal to a known named set normalize to the named gamut.
    let raw_srgb = ImageDescription {
        primaries: PrimariesOption {
            named: None,
            values: Some(Chromaticities::srgb()),
        },
        ..srgb_description()
    };
    assert_eq!(
        ContentColor::from_description(Some(raw_srgb)),
        ContentColor::Sdr {
            gamut: ContentGamut::Srgb
        }
    );

    // An SDR transfer in a BT.2020 container is wide-gamut SDR, not HDR.
    let wide_sdr = ImageDescription {
        primaries: bt2020_primaries(),
        ..srgb_description()
    };
    assert_eq!(
        ContentColor::from_description(Some(wide_sdr)),
        ContentColor::Sdr {
            gamut: ContentGamut::Bt2020
        }
    );
}

#[test]
fn scanout_transforms_mirror_the_shaders() {
    let srgb = ContentGamut::Srgb;
    let bt2020 = ContentGamut::Bt2020;
    let transform = |content: ContentColor, hdr: bool, reference: f64, peak: f64| {
        scanout_color_transform(
            content,
            hdr,
            nits(reference),
            nits(peak),
            true,
            Some(p3_to_bt2020()),
        )
    };

    // An output without EDID luminance information: the PQ ceiling, no tone mapping.
    let peak = 10_000.;

    // SDR on an HDR output: gamma 2.2 decode, reference white at 203 cd/m² = a gain of
    // 203/80 on the PQ-125 linear scale, 709 -> 2020, PQ encode.
    let sdr = transform(ContentColor::Sdr { gamut: srgb }, true, 203., peak).unwrap();
    assert_eq!(sdr.decode, Some(Curve1DType::Gamma22));
    assert!((value(sdr.multiplier) - 2.5375).abs() < 1e-9);
    assert_eq!(sdr.ctm, Some(mat3_to_ctm(Mat3::bt709_to_bt2020())));
    assert_eq!(sdr.encode, Some(Curve1DType::Pq125InvEotf));

    // BT.2020-container PQ on an HDR output passes through numerically, like the shaders.
    let pq_2020 = ContentColor::HdrPq {
        gamut: bt2020,
        max_lum: Some(10_000),
    };
    assert!(transform(pq_2020, true, 203., peak).unwrap().is_identity());
    // ... and anything on an SDR output that is already SDR needs no transform.
    assert!(
        transform(ContentColor::Sdr { gamut: srgb }, false, 203., 203.)
            .unwrap()
            .is_identity()
    );

    // PQ in a Display-P3 container on an HDR output: decode, convert, re-encode.
    let p3 = ContentGamut::Custom(display_p3());
    let pq_p3 = transform(
        ContentColor::HdrPq {
            gamut: p3,
            max_lum: Some(10_000),
        },
        true,
        203.,
        peak,
    )
    .unwrap();
    assert_eq!(pq_p3.decode, Some(Curve1DType::Pq125Eotf));
    assert_eq!(value(pq_p3.multiplier), 1.0);
    assert_eq!(pq_p3.encode, Some(Curve1DType::Pq125InvEotf));
    let ctm = pq_p3.ctm.unwrap();
    // Display-P3 and BT.2020 share the D65 white point: rows sum to 1.
    for (i, row) in [ctm.r, ctm.g, ctm.b].iter().enumerate() {
        let sum = (row.r + row.g + row.b) as f64 / 1e12;
        assert!((sum - 1.0).abs() < 1e-6, "row {i} sums to {sum}");
        assert_eq!(row.offset, 0);
    }

    // Windows scRGB on an HDR output: already linear at 1.0 = 80 cd/m², which is
    // exactly the PQ-125 scale, so only the gamut conversion and the PQ encode remain.
    let scrgb = transform(
        ContentColor::Linear {
            gamut: srgb,
            max_lum: 80,
            ref_lum: 203,
        },
        true,
        203.,
        peak,
    )
    .unwrap();
    assert_eq!(scrgb.decode, None);
    assert_eq!(value(scrgb.multiplier), 1.0);
    assert_eq!(scrgb.ctm, Some(mat3_to_ctm(Mat3::bt709_to_bt2020())));
    assert_eq!(scrgb.encode, Some(Curve1DType::Pq125InvEotf));

    // BT.2020 extended-linear content skips the gamut conversion.
    let linear_2020 = transform(
        ContentColor::Linear {
            gamut: bt2020,
            max_lum: 80,
            ref_lum: 203,
        },
        true,
        203.,
        peak,
    )
    .unwrap();
    assert_eq!(linear_2020.ctm, None);

    // Display-referred PQ content on an SDR output (exempt from tone mapping): decode,
    // anchor 203 cd/m² to display white, 2020 -> 709, gamma encode (clamping the
    // headroom away).
    let pq_on_sdr = transform(
        ContentColor::HdrPq {
            gamut: bt2020,
            max_lum: None,
        },
        false,
        203.,
        203.,
    )
    .unwrap();
    assert_eq!(pq_on_sdr.decode, Some(Curve1DType::Pq125Eotf));
    assert!((value(pq_on_sdr.multiplier) - 80. / 203.).abs() < 1e-9);
    assert_eq!(pq_on_sdr.ctm, Some(mat3_to_ctm(Mat3::bt2020_to_bt709())));
    assert_eq!(pq_on_sdr.encode, Some(Curve1DType::Gamma22Inv));

    // scRGB on an SDR output: reference white (203) anchored to display white.
    let scrgb_on_sdr = transform(
        ContentColor::Linear {
            gamut: srgb,
            max_lum: 80,
            ref_lum: 203,
        },
        false,
        203.,
        203.,
    )
    .unwrap();
    assert_eq!(scrgb_on_sdr.decode, None);
    assert!((value(scrgb_on_sdr.multiplier) - 80. / 203.).abs() < 1e-9);
    assert_eq!(scrgb_on_sdr.ctm, None);
    assert_eq!(scrgb_on_sdr.encode, Some(Curve1DType::Gamma22Inv));

    // Rows of the built-in matrices sum to ~1 (white maps to white).
    for matrix in [Mat3::bt709_to_bt2020(), Mat3::bt2020_to_bt709()] {
        for (i, row) in [matrix.r, matrix.g, matrix.b].iter().enumerate() {
            let sum = (row.r + row.g + row.b) as f64 / 1e12;
            assert!((sum - 1.0).abs() < 1e-4, "row {i} sums to {sum}");
        }
    }
}

#[test]
fn tone_mapped_content_is_denied_scanout() {
    let bt2020 = ContentGamut::Bt2020;
    let pq = |max_lum| ContentColor::HdrPq {
        gamut: bt2020,
        max_lum,
    };
    let transform = |content: ContentColor, hdr: bool, reference: f64, peak: f64| {
        scanout_color_transform(content, hdr, nits(reference), nits(peak), true, None)
    };

    // PQ content brighter than the sink's EDID peak is tone mapped during composition;
    // no parametric plane pipeline can express the curve, so scanout must be denied.
    assert_eq!(transform(pq(Some(10_000)), true, 203., 800.), None);
    assert_eq!(transform(pq(Some(1_000)), true, 203., 800.), None);
    // Content within the peak scans out.
    assert!(transform(pq(Some(750)), true, 203., 800.)
        .unwrap()
        .is_identity());
    // A tiny overshoot is clipping territory, not tone mapping (the eta slack).
    assert!(transform(pq(Some(800)), true, 203., 800.)
        .unwrap()
        .is_identity());
    // Display-referred (Windows-BT.2100) content is exempt.
    assert!(transform(pq(None), true, 203., 800.)
        .unwrap()
        .is_identity());

    // On SDR outputs the peak is the reference white, so regular PQ content is always
    // tone mapped (and composited).
    assert_eq!(transform(pq(Some(10_000)), false, 203., 203.), None);

    // SDR and extended-linear content is never tone mapped.
    assert!(transform(ContentColor::Sdr { gamut: bt2020 }, true, 203., 800.).is_some());
    assert!(transform(
        ContentColor::Linear {
            gamut: bt2020,
            max_lum: 1_000,
            ref_lum: 203,
        },
        true,
        203.,
        800.,
    )
    .is_some());
}

#[test]
fn tonemap_curve_hits_the_output_range() {
    // f(l) = l * (1 + l*v) / (1 + l) with v solved for f(input_range) = output_range.
    let f = |l: f64, v: f64| l * (1. + l * v) / (1. + l);

    for (max_in, ref_lum, max_out) in [
        (10_000., 203., 203.),  // HDR -> SDR
        (10_000., 203., 800.),  // PQ ceiling -> 800-nit sink
        (4_000., 203., 1_000.), // mastered content -> capable sink
        (1_000., 100., 400.),   // dim reference white
    ] {
        let input_range = max_in / ref_lum;
        let output_range = max_out / ref_lum;
        let v = value(tonemap_curve_v(max_in as u32, nits(ref_lum), nits(max_out)));

        // The peak maps exactly onto the output peak.
        assert!((f(input_range, v) - output_range).abs() < 1e-9);
        // Black stays black and the curve never brightens.
        assert_eq!(f(0., v), 0.);
        for i in 1..=100 {
            let l = input_range * f64::from(i) / 100.;
            assert!(f(l, v) <= l * (1. + 1e-9), "f({l}) = {} > {l}", f(l, v));
        }
        // Reference white dims by at most half.
        assert!(f(1., v) >= 0.5 - 1e-9);
    }
}

#[test]
fn gamut_matrices() {
    assert_eq!(ContentGamut::default(), ContentGamut::Srgb);
    assert_eq!(ContentGamut::from_primaries(&PLAIN), ContentGamut::Srgb);
    // Raw values take precedence over a named set.
    assert_eq!(
        ContentGamut::from_primaries(&PrimariesOption {
            named: Some(Chromaticities::srgb()),
            values: Some(display_p3()),
        }),
        ContentGamut::Custom(display_p3())
    );

    let m = Some(p3_to_bt2020());
    assert_eq!(ContentGamut::Srgb.matrix_to(false, m), None);
    assert_eq!(
        ContentGamut::Srgb.matrix_to(true, m),
        Some(Mat3::bt709_to_bt2020())
    );
    assert_eq!(ContentGamut::Bt2020.matrix_to(true, m), None);
    assert_eq!(
        ContentGamut::Bt2020.matrix_to(false, m),
        Some(Mat3::bt2020_to_bt709())
    );
    assert_eq!(ContentGamut::Custom(display_p3()).matrix_to(true, m), m);
    // Degenerate chromaticities have no matrix and are not converted.
    assert_eq!(ContentGamut::Custom(display_p3()).matrix_to(true, None), None);
}

#[test]
fn luminances_are_at_least_one() {
    let linear = ImageDescription {
        transfer: TransferFunction::ExtLinear,
        luminances: Some((0, 0)),
        ..srgb_description()
    };
    assert_eq!(
        ContentColor::from_description(Some(linear)),
        ContentColor::Linear {
            gamut: ContentGamut::Srgb,
            max_lum: 1,
            ref_lum: 1,
        }
    );
    let explicit = ImageDescription {
        luminances: Some((1_000, 203)),
        ..linear
    };
    assert_eq!(
        ContentColor::from_description(Some(explicit)),
        ContentColor::Linear {
            gamut: ContentGamut::Srgb,
            max_lum: 1_000,
            ref_lum: 203,
        }
    );
    let hlg = ImageDescription {
        transfer: TransferFunction::Hlg,
        ..srgb_description()
    };
    assert_eq!(
        ContentColor::from_description(Some(hlg)),
        ContentColor::HdrPq {
            gamut: ContentGamut::Srgb,
            max_lum: Some(1_000),
        }
    );
    let dark = ImageDescription {
        max_cll: Some(0),
        ..hlg
    };
    assert_eq!(
        ContentColor::from_description(Some(dark)),
        ContentColor::HdrPq {
            gamut: ContentGamut::Srgb,
            max_lum: Some(1),
        }
    );
}

#[test]
fn tonemapping_can_be_disabled() {
    assert!(tonemapping_enabled(None));
    assert!(tonemapping_enabled(Some("")));
    assert!(tonemapping_enabled(Some("0")));
    assert!(tonemapping_enabled(Some("11")));
    assert!(!tonemapping_enabled(Some("1")));

    assert!(tonemap_needed(true, Some(1_000), nits(800.)));
    assert!(!tonemap_needed(false, Some(1_000), nits(800.)));
    assert!(!tonemap_needed(true, None, nits(800.)));
    // An unknown peak.
    assert!(!tonemap_needed(true, Some(1_000), nits(0.)));
}

#[test]
fn tonemap_slack_is_the_double_precision_factor() {
    for peak in [1u32, 100, 203, 800, 999, 1_000, 4_000, 9_999] {
        for max in peak..peak + 20 {
            assert_eq!(
                tonemap_needed(true, Some(max), nits(f64::from(peak))),
                f64::from(max) > f64::from(peak) * 1.001,
                "{max} on {peak}"
            );
        }
    }
}

#[test]
fn output_peaks() {
    let reference = nits(203.);
    assert_eq!(output_peak_luminance(false, reference, 800), reference);
    assert_eq!(output_peak_luminance(true, reference, 800), nits(800.));
    assert_eq!(output_peak_luminance(true, reference, 0), nits(10_000.));
    assert_eq!(
        output_peak_luminance(true, reference, u16::MAX),
        nits(65_535.)
    );
}

fn hdr_state() -> FrameBlendState {
    FrameBlendState {
        hdr_pq: true,
        reference_luminance: nits(203.),
        max_luminance: nits(800.),
    }
}

fn sdr_state() -> FrameBlendState {
    let mut state = hdr_state();
    state.set_values(None);
    state
}

#[test]
fn frame_states() {
    assert_eq!(
        sdr_state(),
        FrameBlendState {
            hdr_pq: false,
            reference_luminance: Luminance(DEFAULT_REFERENCE_LUMINANCE),
            max_luminance: Luminance(DEFAULT_REFERENCE_LUMINANCE),
        }
    );
    let mut state = FrameBlendState::default();
    assert_eq!(state.max_luminance, Luminance(0));
    state.set_values(Some((nits(203.), nits(800.))));
    assert_eq!(state, hdr_state());
    assert!(state.is_hdr_frame());
    assert_eq!(value(state.ref_lum_scale()), 0.0203);
    state.set_sdr_capture_values(nits(300.));
    assert!(!state.is_hdr_frame());
    assert_eq!(state.reference_luminance, nits(300.));
    assert_eq!(state.max_luminance, nits(300.));

    let mut stored = None;
    FrameBlendState::init(&mut stored);
    assert_eq!(stored, Some(FrameBlendState::default()));
    let mut stored = Some(hdr_state());
    FrameBlendState::init(&mut stored);
    assert_eq!(stored, Some(hdr_state()));
}

#[test]
fn blend_parameters() {
    // SDR content in an HDR frame.
    let sdr = ContentColor::Sdr { gamut: ContentGamut::Srgb };
    let params = hdr_state().values_for_content(sdr, true, None);
    assert!(params.hdr_pq && !params.hdr_to_sdr && !params.linear && !params.pq_gamut);
    assert!(params.use_gamut && !params.tonemap);
    assert_eq!(params.gamut, Mat3::bt709_to_bt2020().transposed());
    assert_eq!(params.gamut.r.g, 69_097_000_000);
    assert_eq!(value(params.ref_lum_scale), 0.0203);
    // ... and in an SDR frame, which it passes through.
    let params = sdr_state().values_for_content(sdr, true, None);
    assert!(!params.hdr_pq && !params.use_gamut);
    assert_eq!(params.gamut, Mat3::identity());

    // PQ within the peak passes through an HDR frame.
    let pq = |max_lum| ContentColor::HdrPq { gamut: ContentGamut::Bt2020, max_lum };
    let params = hdr_state().values_for_content(pq(Some(750)), true, None);
    assert!(!params.hdr_pq && !params.pq_gamut && !params.use_gamut && !params.tonemap);
    // ... and is tone mapped above it.
    let params = hdr_state().values_for_content(pq(Some(4_000)), true, None);
    assert!(!params.hdr_pq && params.pq_gamut && params.use_gamut && params.tonemap);
    assert_eq!(params.gamut, Mat3::identity());
    assert_eq!(params.tm_v, tonemap_curve_v(4_000, nits(203.), nits(800.)));
    assert_eq!(value(params.tm_ref_scale), 0.0203);
    assert_eq!(value(params.tm_out_scale), 0.08);
    // ... unless tone mapping is disabled.
    let params = hdr_state().values_for_content(pq(Some(4_000)), false, None);
    assert!(!params.pq_gamut && !params.tonemap);
    assert_eq!(params.tm_v, Ratio::zero());
    // Another container is converted.
    let p3 = ContentColor::HdrPq { gamut: ContentGamut::Custom(display_p3()), max_lum: None };
    let params = hdr_state().values_for_content(p3, true, Some(p3_to_bt2020()));
    assert!(params.pq_gamut && params.use_gamut && !params.tonemap);
    assert_eq!(params.gamut.transposed(), p3_to_bt2020());

    // PQ in an SDR frame.
    let params = sdr_state().values_for_content(pq(Some(10_000)), true, None);
    assert!(params.hdr_to_sdr && params.use_gamut && params.tonemap && !params.pq_gamut);
    assert_eq!(params.gamut, Mat3::bt2020_to_bt709().transposed());

    // Linear content.
    let linear = ContentColor::Linear { gamut: ContentGamut::Srgb, max_lum: 80, ref_lum: 203 };
    let params = hdr_state().values_for_content(linear, true, None);
    assert!(params.hdr_pq && params.linear && params.use_gamut);
    assert_eq!(value(params.linear_scale), 0.008);
    assert_eq!(value(params.linear_to_ref), 80. / 203.);
    let params = sdr_state().values_for_content(linear, true, None);
    assert!(!params.hdr_pq && params.linear && params.use_gamut);
    assert_eq!(params.gamut, Mat3::identity());

    // A frame without a reference white does not tone map.
    let mut dark = hdr_state();
    dark.reference_luminance = Luminance(0);
    assert!(!dark.values_for_content(pq(Some(4_000)), true, None).tonemap);

    // A Vulkan frame without a state is an SDR frame.
    assert_eq!(
        FrameBlendState::vulkan_params_for_content(None, linear, true, None),
        sdr_state().values_for_content(linear, true, None)
    );
    assert_eq!(
        FrameBlendState::vulkan_params_for_content(Some(hdr_state()), linear, true, None),
        hdr_state().values_for_content(linear, true, None)
    );
}

#[test]
fn scanout_and_composition_agree() {
    let contents = [
        ContentColor::Sdr { gamut: ContentGamut::Srgb },
        ContentColor::Sdr { gamut: ContentGamut::Bt2020 },
        ContentColor::HdrPq { gamut: ContentGamut::Bt2020, max_lum: Some(4_000) },
        ContentColor::HdrPq { gamut: ContentGamut::Srgb, max_lum: None },
        ContentColor::Linear { gamut: ContentGamut::Srgb, max_lum: 80, ref_lum: 203 },
    ];
    for state in [hdr_state(), sdr_state()] {
        for content in contents {
            let params = state.values_for_content(content, true, None);
            let plane = scanout_color_transform(
                content,
                state.hdr_pq,
                state.reference_luminance,
                state.max_luminance,
                true,
                None,
            );
            assert_eq!(plane.is_none(), params.tonemap, "{content:?}");
            if let Some(plane) = plane {
                assert_eq!(plane.is_identity(), !params.use_gamut, "{content:?}");
            }
        }
    }
    assert!(ScanoutColorTransform::identity().is_identity());
}

fn names(uniforms: &[Uniform]) -> Vec<&'static str> {
    uniforms.iter().map(|u| u.name).collect()
}

fn float(uniforms: &[Uniform], name: &str) -> f64 {
    match uniforms.iter().find(|u| u.name == name).unwrap().value {
        UniformValue::Float(v) => value(v),
        _ => panic!("{name} is not a float"),
    }
}

#[test]
fn uniforms_match_their_declarations() {
    let declared = FrameBlendState::uniform_names();
    assert_eq!(declared.len(), 13);
    assert_eq!(declared[0].name, "niri_hdr_pq");
    assert_eq!(declared[8].name, "niri_gamut");
    assert_eq!(declared[8].type_, UniformType::Matrix3x3);
    assert_eq!(declared[12].name, "niri_tm_out_scale");
    let declared: Vec<&str> = declared.iter().map(|d| d.name).collect();

    let pq = ContentColor::HdrPq { gamut: ContentGamut::Bt2020, max_lum: Some(4_000) };
    let uniforms = hdr_state().uniforms_for_content(pq, true, None);
    assert_eq!(names(&uniforms), declared);
    assert_eq!(float(&uniforms, "niri_tonemap"), 1.);
    assert_eq!(float(&uniforms, "niri_pq_gamut"), 1.);
    assert_eq!(float(&uniforms, "niri_hdr_pq"), 0.);
    assert_eq!(
        uniforms[8].value,
        UniformValue::Matrix3x3(Mat3::identity())
    );

    let uniforms = hdr_state().uniforms(true);
    assert_eq!(names(&uniforms), declared);
    assert_eq!(float(&uniforms, "niri_hdr_pq"), 1.);
    assert_eq!(float(&uniforms, "niri_ref_lum_scale"), 0.0203);

    let uniforms = hdr_state().uniforms_for_blend_space();
    assert_eq!(names(&uniforms), declared);
    assert_eq!(float(&uniforms, "niri_hdr_pq"), 0.);
    assert_eq!(float(&uniforms, "niri_ref_lum_scale"), 0.0203);
    assert_eq!(float(&uniforms, "niri_use_gamut"), 0.);
    assert_eq!(
        uniforms[8].value,
        UniformValue::Matrix3x3(Mat3::identity())
    );
}

fn gles() -> GlesBlend<u32> {
    GlesBlend {
        state: sdr_state(),
        tex_program_override: None,
        solid_color_transform: None,
    }
}

#[test]
fn renderers_are_configured_for_a_blend_space() {
    let mut renderer = gles();
    assert!(!set_frame_blend(
        &mut renderer,
        Some((nits(203.), nits(800.))),
        Some(7)
    ));
    assert_eq!(renderer.state, hdr_state());
    assert_eq!(renderer.solid_color_transform.map(value), Some(0.0203));
    let (program, uniforms) = renderer.tex_program_override.as_ref().unwrap();
    assert_eq!(*program, 7);
    assert_eq!(uniforms.len(), 9);
    assert_eq!(float(uniforms, "niri_hdr_pq"), 1.);
    assert_eq!(float(uniforms, "niri_ref_lum_scale"), 0.0203);
    assert_eq!(float(uniforms, "niri_tonemap"), 0.);

    // Without the shader, the override stays.
    assert!(set_frame_blend(
        &mut renderer,
        Some((nits(100.), nits(800.))),
        None
    ));
    assert_eq!(renderer.tex_program_override.as_ref().unwrap().0, 7);
    assert_eq!(renderer.solid_color_transform.map(value), Some(0.01));

    assert!(!set_frame_blend(&mut renderer, None, Some(7)));
    assert_eq!(renderer.state, sdr_state());
    assert!(renderer.tex_program_override.is_none());
    assert!(renderer.solid_color_transform.is_none());

    let mut tty: TtyRenderer<GlesBlend<u32>, VulkanBlend> = TtyRenderer::Gles(gles());
    set_frame_blend_tty(&mut tty, Some((nits(203.), nits(800.))), Some(7));
    let TtyRenderer::Gles(inner) = &tty else {
        panic!();
    };
    assert_eq!(inner.state, hdr_state());
    set_sdr_capture_blend(&mut tty, nits(300.));
    let TtyRenderer::Gles(inner) = &tty else {
        panic!();
    };
    assert_eq!(inner.state.max_luminance, nits(300.));
    assert!(inner.tex_program_override.is_none());

    let mut tty: TtyRenderer<GlesBlend<u32>, VulkanBlend> = TtyRenderer::Vulkan(VulkanBlend {
        state: None,
        default_color_params: None,
        solid_color_transform: None,
    });
    assert!(!set_frame_blend_tty(
        &mut tty,
        Some((nits(203.), nits(800.))),
        None
    ));
    let TtyRenderer::Vulkan(inner) = &tty else {
        panic!();
    };
    assert_eq!(inner.state, Some(hdr_state()));
    let mut expected = ColorBlendParams::default();
    expected.hdr_pq = true;
    expected.ref_lum_scale = hdr_state().ref_lum_scale();
    assert_eq!(inner.default_color_params, Some(expected));
    assert_eq!(inner.solid_color_transform.map(value), Some(0.0203));

    set_sdr_capture_blend(&mut tty, nits(300.));
    let TtyRenderer::Vulkan(inner) = &tty else {
        panic!();
    };
    assert_eq!(inner.state.unwrap().reference_luminance, nits(300.));
    assert_eq!(inner.default_color_params, None);
    assert!(inner.solid_color_transform.is_none());

    set_frame_blend_tty(&mut tty, None, None);
    let TtyRenderer::Vulkan(inner) = &tty else {
        panic!();
    };
    assert_eq!(inner.state, Some(sdr_state()));
}

const PROGRAMS: BlendTexturePrograms<u32> = BlendTexturePrograms {
    texture_hdr: Some(1),
    texture_hdr_to_sdr: Some(2),
};
const NO_PROGRAMS: BlendTexturePrograms<u32> = BlendTexturePrograms {
    texture_hdr: None,
    texture_hdr_to_sdr: None,
};

fn hdr_frame(program: Option<u32>) -> GlesBlend<u32> {
    let mut frame = gles();
    frame.state = hdr_state();
    frame.tex_program_override = program.map(|p| (p, Vec::new()));
    frame
}

fn program(frame: &GlesBlend<u32>) -> Option<u32> {
    frame.tex_program_override.as_ref().map(|(p, _)| *p)
}

#[test]
fn texture_program_for_content() {
    let adjust = |frame: &mut GlesBlend<u32>,
                  programs: &BlendTexturePrograms<u32>,
                  content: ContentColor| {
        adjust_tex_program_for_content(frame, programs, content, true, None)
            .map(|saved| saved.map(|(p, _)| p))
    };
    let srgb = ContentColor::Sdr { gamut: ContentGamut::Srgb };
    let wide = ContentColor::Sdr { gamut: ContentGamut::Bt2020 };
    let pq = ContentColor::HdrPq { gamut: ContentGamut::Bt2020, max_lum: None };
    let bright = ContentColor::HdrPq { gamut: ContentGamut::Bt2020, max_lum: Some(4_000) };
    let linear = ContentColor::Linear { gamut: ContentGamut::Srgb, max_lum: 80, ref_lum: 203 };

    // Plain sRGB content never changes anything.
    let mut frame = hdr_frame(Some(9));
    assert_eq!(adjust(&mut frame, &PROGRAMS, srgb), None);
    assert_eq!(program(&frame), Some(9));

    // Wide-gamut SDR content reuses the frame's program on HDR frames.
    assert_eq!(adjust(&mut frame, &PROGRAMS, wide), Some(Some(9)));
    assert_eq!(program(&frame), Some(9));
    assert_eq!(frame.tex_program_override.as_ref().unwrap().1.len(), 13);
    let mut frame = hdr_frame(None);
    assert_eq!(adjust(&mut frame, &PROGRAMS, wide), Some(None));
    assert_eq!(program(&frame), Some(1));
    let mut frame = hdr_frame(None);
    assert_eq!(adjust(&mut frame, &NO_PROGRAMS, wide), None);
    assert_eq!(program(&frame), None);
    let mut frame = gles();
    assert_eq!(adjust(&mut frame, &PROGRAMS, wide), None);
    assert_eq!(program(&frame), None);

    // PQ content suspends the override on HDR frames.
    let mut frame = hdr_frame(Some(9));
    assert_eq!(adjust(&mut frame, &PROGRAMS, pq), Some(Some(9)));
    assert_eq!(program(&frame), None);
    let mut frame = hdr_frame(None);
    assert_eq!(adjust(&mut frame, &PROGRAMS, pq), None);
    // ... unless it is tone mapped.
    assert_eq!(adjust(&mut frame, &PROGRAMS, bright), Some(None));
    assert_eq!(program(&frame), Some(1));
    let uniforms = &frame.tex_program_override.as_ref().unwrap().1;
    assert_eq!(float(uniforms, "niri_tonemap"), 1.);
    let mut frame = hdr_frame(None);
    assert_eq!(adjust(&mut frame, &NO_PROGRAMS, bright), None);
    // On SDR frames it is converted.
    let mut frame = gles();
    assert_eq!(adjust(&mut frame, &PROGRAMS, bright), Some(None));
    assert_eq!(program(&frame), Some(2));
    let uniforms = &frame.tex_program_override.as_ref().unwrap().1;
    assert_eq!(
        names(uniforms),
        [
            "niri_ref_lum_scale",
            "niri_use_gamut",
            "niri_gamut",
            "niri_tonemap",
            "niri_tm_v",
            "niri_tm_ref_scale",
            "niri_tm_out_scale",
        ]
    );
    assert_eq!(float(uniforms, "niri_use_gamut"), 1.);
    assert_eq!(float(uniforms, "niri_tonemap"), 1.);
    assert_eq!(
        uniforms[2].value,
        UniformValue::Matrix3x3(Mat3::bt2020_to_bt709().transposed())
    );
    // ... or rendered raw, without the shader.
    let mut frame = gles();
    frame.tex_program_override = Some((9, Vec::new()));
    assert_eq!(adjust(&mut frame, &NO_PROGRAMS, bright), Some(Some(9)));
    assert_eq!(program(&frame), None);

    // Linear content is encoded in either kind of frame.
    let mut frame = gles();
    assert_eq!(adjust(&mut frame, &PROGRAMS, linear), Some(None));
    assert_eq!(program(&frame), Some(1));
    let uniforms = &frame.tex_program_override.as_ref().unwrap().1;
    assert_eq!(float(uniforms, "niri_linear"), 1.);
    let mut frame = gles();
    assert_eq!(adjust(&mut frame, &NO_PROGRAMS, linear), None);
}

#[test]
fn custom_gamuts_are_converted_to_the_blend_space() {
    let custom = ContentGamut::Custom(display_p3());
    assert_eq!(
        custom.custom_conversion(true),
        Some((display_p3(), Chromaticities::bt2020()))
    );
    assert_eq!(
        custom.custom_conversion(false),
        Some((display_p3(), Chromaticities::srgb()))
    );
    assert_eq!(ContentGamut::Srgb.custom_conversion(true), None);
    assert_eq!(ContentGamut::Bt2020.custom_conversion(false), None);
}

#[test]
fn drawing_leaves_no_trace() {
    let contents = [
        ContentColor::Sdr { gamut: ContentGamut::Srgb },
        ContentColor::Sdr { gamut: ContentGamut::Bt2020 },
        ContentColor::HdrPq { gamut: ContentGamut::Bt2020, max_lum: None },
        ContentColor::HdrPq { gamut: ContentGamut::Bt2020, max_lum: Some(4_000) },
        ContentColor::Linear { gamut: ContentGamut::Srgb, max_lum: 80, ref_lum: 203 },
    ];
    for content in contents {
        let element = BlendSurfaceRenderElement::new("surface", content);
        assert_eq!(*element.inner(), "surface");
        assert_eq!(element.content(), content);
        for programs in [PROGRAMS, NO_PROGRAMS] {
            for before in [None, Some(9)] {
                for hdr in [true, false] {
                    let frame_before = || {
                        let mut frame = hdr_frame(before);
                        if !hdr {
                            frame.state = sdr_state();
                        }
                        frame
                    };
                    let mut adjusted = frame_before();
                    adjust_tex_program_for_content(
                        &mut adjusted,
                        &programs,
                        content,
                        true,
                        None,
                    );
                    let mut frame = frame_before();
                    let during = element.draw(
                        &mut frame,
                        &programs,
                        true,
                        None,
                        |inner: &&str, during: &GlesBlend<u32>| (*inner, program(during)),
                    );
                    assert_eq!(during, ("surface", program(&adjusted)));
                    assert_eq!(program(&frame), before);

                    let mut frame: TtyFrame<_, VulkanFrameBlend> = TtyFrame::Gles(frame);
                    let during = element.draw_tty(
                        &mut frame,
                        &programs,
                        true,
                        None,
                        |_: &&str, during: &TtyFrame<_, VulkanFrameBlend>| match during {
                            TtyFrame::Gles(during) => program(during),
                            TtyFrame::Vulkan(_) => panic!(),
                        },
                    );
                    assert_eq!(during, program(&adjusted));
                    let TtyFrame::Gles(frame) = frame else {
                        panic!();
                    };
                    assert_eq!(program(&frame), before);
                }
            }
        }
        for before in [None, Some(ColorBlendParams::default())] {
            let mut frame: TtyFrame<GlesBlend<u32>, _> = TtyFrame::Vulkan(VulkanFrameBlend {
                state: Some(hdr_state()),
                color_params_override: before,
            });
            let during = element.draw_tty(
                &mut frame,
                &PROGRAMS,
                true,
                None,
                |_: &&str, during: &TtyFrame<GlesBlend<u32>, VulkanFrameBlend>| match during {
                    TtyFrame::Gles(_) => panic!(),
                    TtyFrame::Vulkan(during) => during.color_params_override,
                },
            );
            assert_eq!(
                during,
                Some(hdr_state().values_for_content(content, true, None))
            );
            let TtyFrame::Vulkan(after) = &frame else {
                panic!();
            };
            assert_eq!(after.color_params_override, before);
        }
        assert_eq!(element.into_inner(), "surface");
    }
}

fn pq_encode(lin: f32) -> f32 {
    let y = lin.clamp(0., 1.).powf(0.1593017578125);
    ((0.8359375 + 18.8515625 * y) / (1. + 18.6875 * y)).powf(78.84375)
}

fn bt709_to_bt2020(r: f32, g: f32, b: f32) -> (f32, f32, f32) {
    (
        0.627404 * r + 0.329283 * g + 0.043313 * b,
        0.069097 * r + 0.919540 * g + 0.011362 * b,
        0.016391 * r + 0.088013 * g + 0.895595 * b,
    )
}

/// The look-up tables of a pixel encoder.
struct Tables {
    ref_lum_scale: f32,
    eotf: [f32; 256],
    pq: Vec<f32>,
}

const PQ_SAMPLES: usize = 4096;

impl Tables {
    fn new(ref_lum_scale: f32) -> Self {
        let mut eotf = [0f32; 256];
        for (i, v) in eotf.iter_mut().enumerate() {
            *v = (i as f32 / 255.).powf(2.2);
        }
        let pq = (0..PQ_SAMPLES)
            .map(|i| {
                let t = i as f32 / (PQ_SAMPLES - 1) as f32;
                pq_encode((t * t) * (t * t) * ref_lum_scale)
            })
            .collect();
        Self { ref_lum_scale, eotf, pq }
    }

    fn eotf_lookup(&self, x: f32) -> f32 {
        if x >= 1. {
            return x.powf(2.2);
        }
        let pos = x.max(0.) * 255.;
        let i = pos as usize;
        self.eotf[i] + (self.eotf[i + 1] - self.eotf[i]) * (pos - i as f32)
    }

    fn pq_lookup(&self, lin: f32) -> f32 {
        if lin >= 1. {
            return pq_encode(lin * self.ref_lum_scale);
        }
        let pos = lin.max(0.).sqrt().sqrt() * (PQ_SAMPLES - 1) as f32;
        let i = pos as usize;
        self.pq[i] + (self.pq[i + 1] - self.pq[i]) * (pos - i as f32)
    }

    fn encode(&self, b: u8, g: u8, r: u8, a: u8) -> (u8, u8, u8) {
        let a_f = f32::from(a);
        let (lr, lg, lb) = bt709_to_bt2020(
            self.eotf_lookup(f32::from(r) / a_f),
            self.eotf_lookup(f32::from(g) / a_f),
            self.eotf_lookup(f32::from(b) / a_f),
        );
        let out = |lin: f32| (self.pq_lookup(lin) * a_f).round().clamp(0., 255.) as u8;
        (out(lb), out(lg), out(lr))
    }
}

#[test]
fn srgb_to_pq_encoder_matches_exact_encode() {
    // The exact per-pixel encode the LUTs replace.
    fn reference(px: [u8; 4], scale: f32) -> [u8; 4] {
        let a = f32::from(px[3]) / 255.;
        let unpremul = |c: u8| {
            let c = f32::from(c) / 255.;
            let c = if a > 0. { c / a } else { c };
            c.max(0.).powf(2.2)
        };
        let (r, g, b) = bt709_to_bt2020(unpremul(px[2]), unpremul(px[1]), unpremul(px[0]));
        let out = |lin: f32| (pq_encode(lin * scale) * a * 255.).round().clamp(0., 255.) as u8;
        [out(b), out(g), out(r), px[3]]
    }

    for scale in [(203. / 10000.) as f32, (600. / 10000.) as f32, 1.] {
        let tables = Tables::new(scale);
        let encoder = SrgbToPqEncoder::new(|b: u8, g: u8, r: u8, a: u8| tables.encode(b, g, r, a));

        // A sweep of channel values and alphas, including invalid premultiplied pixels
        // (channel > alpha) and a stride larger than the row.
        let alphas = [0u8, 1, 3, 17, 64, 128, 200, 254, 255];
        let values = (0u16..=255).step_by(5).map(|v| v as u8);
        let mut pixels = Vec::new();
        for a in alphas {
            for v in values.clone() {
                pixels.push([v, v.wrapping_mul(3), v / 2, a]);
                pixels.push([v, 255 - v, v.wrapping_add(97), a]);
            }
        }

        let width = 16;
        let stride = width * 4 + 12;
        let height = pixels.len().div_ceil(width);
        pixels.resize(height * width, [0; 4]);
        let mut buf = vec![0u8; height * stride];
        for (i, px) in pixels.iter().enumerate() {
            let off = (i / width) * stride + (i % width) * 4;
            buf[off..off + 4].copy_from_slice(px);
        }

        let mut encoded = buf.clone();
        encoder.apply(&mut encoded, stride as u32, (width as u32, height as u32));

        for (i, px) in pixels.iter().enumerate() {
            let off = (i / width) * stride + (i % width) * 4;
            let got: [u8; 4] = encoded[off..off + 4].try_into().unwrap();
            let want = reference(*px, scale);
            for c in 0..4 {
                assert!(
                    got[c].abs_diff(want[c]) <= 1,
                    "scale {scale}: pixel {px:?} channel {c}: got {}, want {}",
                    got[c],
                    want[c],
                );
            }
        }

        // Padding between rows is untouched.
        for row in 0..height {
            let pad = &encoded[row * stride + width * 4..(row + 1) * stride];
            assert!(pad.iter().all(|&b| b == 0));
        }
    }
}

#[test]
fn encoder_visits_every_pixel_once() {
    let encoder = SrgbToPqEncoder::new(|b: u8, g: u8, r: u8, a: u8| (b + 1, g + 2, r + a));
    // Two rows of two pixels with two bytes of padding; the last row needs none.
    let mut data = [
        1, 2, 3, 4, 5, 6, 7, 0, 90, 91, //
        10, 20, 30, 1, 7, 7, 7, 200,
    ];
    encoder.apply(&mut data, 10, (2, 2));
    assert_eq!(
        data,
        [
            2, 4, 7, 4, 0, 0, 0, 0, 90, 91, //
            11, 22, 31, 1, 8, 9, 207, 200,
        ]
    );
    encoder.apply(&mut data, 10, (2, 0));
    assert_eq!(data[0], 2);
}

#[test]
fn identity_goes_by_the_value_of_the_multiplier() {
    let with = |num, den| ScanoutColorTransform {
        multiplier: Ratio::new(num, den),
        ..ScanoutColorTransform::identity()
    };
    assert!(with(1, 1).is_identity());
    assert!(with(80, 80).is_identity());
    assert!(!with(81, 80).is_identity());
    assert!(!with(-1, 1).is_identity());
    assert!(!with(0, 0).is_identity());
    let encoded = ScanoutColorTransform {
        encode: Some(Curve1DType::Gamma22Inv),
        ..with(80, 80)
    };
    assert!(!encoded.is_identity());
}
