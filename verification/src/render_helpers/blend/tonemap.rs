//! Luminances and the tone mapping of content that is brighter than its output.

use vstd::prelude::*;

use crate::utils::ratio::Ratio;
use crate::utils::text::same_text;

verus! {

/// A luminance in units of 1/10000 cd/m².
#[derive(Debug, Clone, Copy, PartialEq, Eq, Structural)]
pub struct Luminance(pub u32);

/// Default SDR reference white (BT.2408): 203 cd/m², in the units of [`Luminance`].
pub const DEFAULT_REFERENCE_LUMINANCE: u32 = 2_030_000;

impl Luminance {
    /// The luminance as a fraction of the 10000 cd/m² that PQ can represent.
    pub open spec fn pq_scale(self) -> Ratio {
        Ratio { num: self.0 as i128, den: 100_000_000 }
    }

    pub fn to_pq_scale(&self) -> (scale: Ratio)
        ensures
            scale == self.pq_scale(),
    {
        Ratio { num: self.0 as i128, den: 100_000_000 }
    }
}

/// Whether tone mapping is enabled at all, given the value of `NIRI_DISABLE_TONEMAPPING`: setting
/// it to `1` restores the clip-at-the-output-volume behavior.
pub fn tonemapping_enabled(disable: Option<&str>) -> (enabled: bool)
    ensures
        enabled == !(disable matches Some(value) && value@ == "1"@),
{
    match disable {
        None => true,
        Some(value) => !same_text(value, "1"),
    }
}

/// Whether content peaking at `content_max` cd/m² needs tone mapping into an output peaking at
/// `output_max`, with a little headroom slack so that clipping handles near-misses. The slack
/// factor is the double-precision number nearest to 1.001.
pub open spec fn tonemap_needed_spec(
    enabled: bool,
    content_max: Option<u32>,
    output_max: Luminance,
) -> bool {
    &&& enabled
    &&& output_max.0 > 0
    &&& content_max matches Some(max)
    &&& max * 10_000 * 2_251_799_813_685_248 > output_max.0 * 2_254_051_613_498_933
}

pub fn tonemap_needed(enabled: bool, content_max: Option<u32>, output_max: Luminance) -> (needed:
    bool)
    ensures
        needed == tonemap_needed_spec(enabled, content_max, output_max),
{
    match content_max {
        Some(max) => enabled && output_max.0 > 0 && max as u128 * 10_000 * 2_251_799_813_685_248
            > output_max.0 as u128 * 2_254_051_613_498_933,
        None => false,
    }
}

/// The parameter `v` of the modified Reinhard curve `f(l) = l * (1 + l*v) / (1 + l)`, solved so
/// that content peaking at `max_in` cd/m² peaks at `max_out`. Luminances on the curve are relative
/// to the reference white.
pub open spec fn tonemap_curve_v_spec(max_in: u32, ref_lum: Luminance, max_out: Luminance) -> Ratio {
    let n = max_in * 10_000;
    Ratio {
        num: (max_out.0 * (ref_lum.0 + n) - n * ref_lum.0) as i128,
        den: (n * n) as u128,
    }
}

proof fn lemma_curve_v_fits(max_in: u32, ref_lum: Luminance, max_out: Luminance)
    ensures
        ({
            let n = max_in * 10_000;
            &&& 0 <= max_out.0 * (ref_lum.0 + n) <= u32::MAX * (u32::MAX * 10_001)
            &&& 0 <= n * ref_lum.0 <= (u32::MAX * 10_000) * u32::MAX
            &&& 0 <= n * n <= (u32::MAX * 10_000) * (u32::MAX * 10_000)
        }),
{
    let n = max_in * 10_000;
    assert(0 <= max_out.0 * (ref_lum.0 + n) <= u32::MAX * (u32::MAX * 10_001)) by (nonlinear_arith)
        requires
            0 <= max_out.0 <= u32::MAX,
            0 <= ref_lum.0 <= u32::MAX,
            0 <= n <= u32::MAX * 10_000,
    ;
    assert(0 <= n * ref_lum.0 <= (u32::MAX * 10_000) * u32::MAX) by (nonlinear_arith)
        requires
            0 <= ref_lum.0 <= u32::MAX,
            0 <= n <= u32::MAX * 10_000,
    ;
    assert(0 <= n * n <= (u32::MAX * 10_000) * (u32::MAX * 10_000)) by (nonlinear_arith)
        requires
            0 <= n <= u32::MAX * 10_000,
    ;
}

pub fn tonemap_curve_v(max_in: u32, ref_lum: Luminance, max_out: Luminance) -> (v: Ratio)
    ensures
        v == tonemap_curve_v_spec(max_in, ref_lum, max_out),
{
    proof {
        lemma_curve_v_fits(max_in, ref_lum, max_out);
    }
    let n: i128 = max_in as i128 * 10_000;
    Ratio {
        num: max_out.0 as i128 * (ref_lum.0 as i128 + n) - n * ref_lum.0 as i128,
        den: (n * n) as u128,
    }
}

/// The tone mapped luminance of `l`, both relative to the reference white.
pub open spec fn tonemapped(l_num: int, l_den: int, v: Ratio) -> (int, int) {
    (l_num * (l_den * v.den + l_num * v.num), l_den * v.den * (l_den + l_num))
}

/// The content peak maps exactly onto the output peak.
pub proof fn law_tonemap_hits_the_output_peak(max_in: u32, ref_lum: Luminance, max_out: Luminance)
    requires
        max_in > 0,
        ref_lum.0 > 0,
    ensures
        ({
            let v = tonemap_curve_v_spec(max_in, ref_lum, max_out);
            let (num, den) = tonemapped(max_in * 10_000, ref_lum.0 as int, v);
            &&& den > 0
            &&& num * ref_lum.0 == max_out.0 * den
        }),
{
    lemma_curve_v_fits(max_in, ref_lum, max_out);
    let n = max_in * 10_000;
    let a = ref_lum.0 as int;
    let c = max_out.0 as int;
    let v = tonemap_curve_v_spec(max_in, ref_lum, max_out);
    let vn = c * (a + n) - n * a;
    let vd = n * n;
    assert(v.num == vn && v.den == vd);
    let (num, den) = tonemapped(n, a, v);
    assert(a * vd + n * vn == n * (c * (a + n))) by (nonlinear_arith)
        requires
            vn == c * (a + n) - n * a,
            vd == n * n,
    ;
    assert(n * (n * (c * (a + n))) * a == c * (a * (n * n) * (a + n))) by (nonlinear_arith);
    assert(a * (n * n) * (a + n) > 0) by (nonlinear_arith)
        requires
            a > 0,
            n > 0,
    ;
}

/// Black stays black, and the curve never brightens, as long as the output is not brighter than
/// the content.
pub proof fn law_tonemap_never_brightens(
    max_in: u32,
    ref_lum: Luminance,
    max_out: Luminance,
    l_num: int,
    l_den: int,
)
    requires
        max_in > 0,
        max_out.0 <= max_in * 10_000,
        l_num >= 0,
        l_den > 0,
    ensures
        ({
            let v = tonemap_curve_v_spec(max_in, ref_lum, max_out);
            let (num, den) = tonemapped(l_num, l_den, v);
            &&& den > 0
            &&& num * l_den <= l_num * den
            &&& l_num == 0 ==> num == 0
        }),
{
    lemma_curve_v_fits(max_in, ref_lum, max_out);
    let n = max_in * 10_000;
    let a = ref_lum.0 as int;
    let c = max_out.0 as int;
    let v = tonemap_curve_v_spec(max_in, ref_lum, max_out);
    let vn = c * (a + n) - n * a;
    let vd = n * n;
    assert(v.num == vn && v.den == vd);
    assert(vd > 0 && vn <= vd) by (nonlinear_arith)
        requires
            n > 0,
            c <= n,
            a >= 0,
            vn == c * (a + n) - n * a,
            vd == n * n,
    ;
    assert(l_den * vd * (l_den + l_num) > 0) by (nonlinear_arith)
        requires
            l_den > 0,
            vd > 0,
            l_num >= 0,
    ;
    let s = l_den * vd + l_num * vn;
    let t = vd * (l_den + l_num);
    assert(s <= t) by (nonlinear_arith)
        requires
            l_num >= 0,
            vn <= vd,
            s == l_den * vd + l_num * vn,
            t == vd * (l_den + l_num),
    ;
    assert((l_num * s) * l_den <= l_num * (l_den * t)) by (nonlinear_arith)
        requires
            s <= t,
            l_num >= 0,
            l_den > 0,
    ;
    assert(l_den * t == l_den * vd * (l_den + l_num)) by (nonlinear_arith)
        requires
            t == vd * (l_den + l_num),
    ;
    if l_num == 0 {
        assert(l_num * s == 0) by (nonlinear_arith)
            requires
                l_num == 0,
        ;
    }
}

/// Reference white dims by at most half when the output can show it at all.
pub proof fn law_tonemap_dims_reference_white_by_at_most_half(
    max_in: u32,
    ref_lum: Luminance,
    max_out: Luminance,
)
    requires
        max_in > 0,
        ref_lum.0 <= max_out.0,
    ensures
        ({
            let v = tonemap_curve_v_spec(max_in, ref_lum, max_out);
            let (num, den) = tonemapped(1, 1, v);
            &&& den > 0
            &&& 2 * num >= den
        }),
{
    lemma_curve_v_fits(max_in, ref_lum, max_out);
    let n = max_in * 10_000;
    let a = ref_lum.0 as int;
    let c = max_out.0 as int;
    assert(c * (a + n) - n * a >= 0 && n * n > 0) by (nonlinear_arith)
        requires
            n > 0,
            c >= a,
            a >= 0,
    ;
}

/// The peak luminance an output can represent, for tone mapping decisions.
///
/// HDR outputs peak at the sink's EDID desired-content-max-luminance; without that information
/// the PQ ceiling is used, which disables tone mapping (the sink then maps internally). SDR
/// outputs peak at the reference white: everything brighter is HDR headroom the signal cannot
/// carry.
pub open spec fn output_peak_luminance_spec(
    blend_hdr: bool,
    reference_luminance: Luminance,
    edid_max: u16,
) -> Luminance {
    if !blend_hdr {
        reference_luminance
    } else if edid_max > 0 {
        Luminance((edid_max * 10_000) as u32)
    } else {
        Luminance(100_000_000)
    }
}

pub fn output_peak_luminance(
    blend_hdr: bool,
    reference_luminance: Luminance,
    edid_max: u16,
) -> (peak: Luminance)
    ensures
        peak == output_peak_luminance_spec(blend_hdr, reference_luminance, edid_max),
{
    if blend_hdr {
        if edid_max > 0 {
            Luminance(edid_max as u32 * 10_000)
        } else {
            Luminance(100_000_000)
        }
    } else {
        reference_luminance
    }
}

/// Content is tone mapped exactly where it is brighter than the output by about a thousandth of its
/// peak or more: never where it is no brighter, and always from a factor of 1.001 on. Tone mapping
/// that is disabled, content without a peak, and outputs without a known one have none.
pub proof fn law_content_brighter_than_the_output_is_tone_mapped(
    enabled: bool,
    content_max: Option<u32>,
    output_max: Luminance,
)
    ensures
        ({
            let needed = tonemap_needed_spec(enabled, content_max, output_max);
            match content_max {
                Some(max) if enabled && output_max.0 > 0 => {
                    &&& max * 10_000 * 1_000 >= output_max.0 * 1_001 ==> needed
                    &&& max * 10_000 * 1_000_000 <= output_max.0 * 1_000_999 ==> !needed
                },
                _ => !needed,
            }
        }),
{
}

/// Brighter content is tone mapped if darker content is, and darker outputs tone map what brighter
/// ones do.
pub proof fn law_tone_mapping_is_monotone(
    enabled: bool,
    content_max: u32,
    brighter: u32,
    output_max: Luminance,
    darker: Luminance,
)
    requires
        content_max <= brighter,
        0 < darker.0 <= output_max.0,
        tonemap_needed_spec(enabled, Some(content_max), output_max),
    ensures
        tonemap_needed_spec(enabled, Some(brighter), darker),
{
}

/// An SDR output peaks at its reference white, and an HDR output at the peak that its EDID gives.
/// Without one it peaks at 10000 cd/m², so that nothing PQ can represent is tone mapped.
pub proof fn law_output_peaks(
    reference_luminance: Luminance,
    edid_max: u16,
    enabled: bool,
    content_max: u32,
)
    requires
        content_max <= 10_000,
    ensures
        output_peak_luminance_spec(false, reference_luminance, edid_max) == reference_luminance,
        edid_max > 0 ==> output_peak_luminance_spec(true, reference_luminance, edid_max).0
            == edid_max * 10_000,
        edid_max == 0 ==> output_peak_luminance_spec(true, reference_luminance, edid_max).0
            == 100_000_000,
        !tonemap_needed_spec(
            enabled,
            Some(content_max),
            output_peak_luminance_spec(true, reference_luminance, 0),
        ),
{
}

/// Scaled by the 10000 cd/m² that PQ can represent, the scale of a luminance is the luminance. The
/// default reference white is 203 cd/m².
pub proof fn law_luminance_scale(luminance: Luminance)
    ensures
        luminance.pq_scale().den > 0,
        luminance.pq_scale().num * 10_000 * 10_000 == luminance.0 * luminance.pq_scale().den,
        DEFAULT_REFERENCE_LUMINANCE == 203 * 10_000,
{
}

/// Tone mapped luminances keep their order, so details in the highlights stay visible, on outputs
/// that can show the reference white. The luminances are `low / d` and `high / d`.
pub proof fn law_tonemap_keeps_the_order(
    max_in: u32,
    ref_lum: Luminance,
    max_out: Luminance,
    low: int,
    high: int,
    d: int,
)
    requires
        max_in > 0,
        0 < ref_lum.0 <= max_out.0,
        0 <= low <= high,
        d > 0,
    ensures
        ({
            let v = tonemap_curve_v_spec(max_in, ref_lum, max_out);
            let (low_num, low_den) = tonemapped(low, d, v);
            let (high_num, high_den) = tonemapped(high, d, v);
            &&& low_den > 0
            &&& high_den > 0
            &&& low_num * high_den <= high_num * low_den
        }),
{
    lemma_curve_v_fits(max_in, ref_lum, max_out);
    let n = max_in * 10_000;
    let a = ref_lum.0 as int;
    let c = max_out.0 as int;
    let v = tonemap_curve_v_spec(max_in, ref_lum, max_out);
    let vn = c * (a + n) - n * a;
    let vd = n * n;
    assert(v.num == vn && v.den == vd);
    assert(vn >= 0 && vd > 0) by (nonlinear_arith)
        requires
            n > 0,
            c >= a,
            a >= 0,
            vn == c * (a + n) - n * a,
            vd == n * n,
    ;
    // Each factor of the curve grows with the luminance: the line, and the fraction below one.
    let (l, h) = (low, high);
    let ls = d * vd + l * vn;
    let hs = d * vd + h * vn;
    assert(0 < ls <= hs) by (nonlinear_arith)
        requires
            0 <= l <= h,
            d > 0,
            vn >= 0,
            vd > 0,
            ls == d * vd + l * vn,
            hs == d * vd + h * vn,
    ;
    assert(l * (d + h) <= h * (d + l)) by (nonlinear_arith)
        requires
            l <= h,
            d > 0,
    ;
    assert(l * (d + h) >= 0 && h * (d + l) >= 0) by (nonlinear_arith)
        requires
            0 <= l <= h,
            d > 0,
    ;
    assert((l * (d + h)) * ls <= (h * (d + l)) * hs) by (nonlinear_arith)
        requires
            0 <= l * (d + h) <= h * (d + l),
            0 < ls <= hs,
    ;
    assert((l * ls) * (d * vd * (d + h)) == (d * vd) * ((l * (d + h)) * ls)) by (nonlinear_arith);
    assert((h * hs) * (d * vd * (d + l)) == (d * vd) * ((h * (d + l)) * hs)) by (nonlinear_arith);
    assert(d * vd > 0) by (nonlinear_arith)
        requires
            d > 0,
            vd > 0,
    ;
    assert((d * vd) * ((l * (d + h)) * ls) <= (d * vd) * ((h * (d + l)) * hs)) by (nonlinear_arith)
        requires
            d * vd > 0,
            (l * (d + h)) * ls <= (h * (d + l)) * hs,
    ;
    assert(d * vd * (d + l) > 0 && d * vd * (d + h) > 0) by (nonlinear_arith)
        requires
            vd > 0,
            d > 0,
            0 <= l <= h,
    ;
}

/// Only the value `1` disables tone mapping.
pub proof fn law_only_one_disables_tone_mapping(disable: Option<&str>, enabled: bool)
    requires
        call_ensures(tonemapping_enabled, (disable,), enabled),
    ensures
        disable is None ==> enabled,
        disable matches Some(value) ==> enabled == !(value@.len() == 1 && value@[0] == '1'),
{
    reveal_strlit("1");
    if let Some(value) = disable {
        if value@.len() == 1 && value@[0] == '1' {
            assert(value@ =~= "1"@);
        }
    }
}

} // verus!
