//! How the content of a surface relates to the blend space.

use vstd::prelude::*;

use crate::render_helpers::blend::tonemap::{tonemap_needed_spec, Luminance};
use crate::render_helpers::colorimetry::{Chromaticities, Mat3};

verus! {

/// The primaries of an image description: a named set (with its chromaticities) or raw
/// client-provided chromaticities.
#[derive(Debug, Clone, Copy, PartialEq, Eq)]
pub struct PrimariesOption {
    pub named: Option<Chromaticities>,
    pub values: Option<Chromaticities>,
}

/// The transfer characteristics that matter for blending.
#[derive(Debug, Clone, Copy, PartialEq, Eq, Structural)]
pub enum TransferFunction {
    St2084Pq,
    Hlg,
    ExtLinear,
    /// Any SDR transfer characteristic.
    Sdr,
}

/// The image description a client committed for a surface.
#[derive(Debug, Clone, Copy, PartialEq, Eq)]
pub struct ImageDescription {
    pub primaries: PrimariesOption,
    pub transfer: TransferFunction,
    /// The luminance of encoded 1.0 and of the reference white in cd/m², when given.
    pub luminances: Option<(u32, u32)>,
    /// Maximum content light level in cd/m², when given.
    pub max_cll: Option<u32>,
    /// Minimum (in 1/10000 cd/m²) and maximum (in cd/m²) luminance of the mastering display, when
    /// given.
    pub mastering_luminance: Option<(u32, u32)>,
    /// The Windows scRGB encoding.
    pub windows_scrgb: bool,
    /// The Windows BT.2100 stimulus encoding.
    pub windows_bt2100: bool,
}

impl ImageDescription {
    /// Luminance of encoded 1.0 and of the reference white: as given, else 80 and 203 cd/m² for
    /// Windows scRGB and 80 and 80 cd/m² for other linear content.
    pub open spec fn luminances_or_default_spec(self) -> (u32, u32) {
        match self.luminances {
            Some(luminances) => luminances,
            None => if self.windows_scrgb {
                (80, 203)
            } else {
                (80, 80)
            },
        }
    }

    pub fn luminances_or_default(&self) -> (luminances: (u32, u32))
        ensures
            luminances == self.luminances_or_default_spec(),
    {
        match self.luminances {
            Some(luminances) => luminances,
            None => if self.windows_scrgb {
                (80, 203)
            } else {
                (80, 80)
            },
        }
    }

    /// Peak luminance of the content in cd/m²: max CLL, else the mastering display maximum, else
    /// the transfer function default (1000 for HLG, 10000 for PQ).
    pub open spec fn max_luminance_spec(self) -> u32 {
        match (self.max_cll, self.mastering_luminance) {
            (Some(cll), _) => cll,
            (None, Some((_, max))) => max,
            (None, None) => if self.transfer is Hlg {
                1_000
            } else {
                10_000
            },
        }
    }

    pub fn max_luminance(&self) -> (max: u32)
        ensures
            max == self.max_luminance_spec(),
    {
        if let Some(cll) = self.max_cll {
            return cll;
        }
        if let Some((_, max)) = self.mastering_luminance {
            return max;
        }
        match self.transfer {
            TransferFunction::Hlg => 1_000,
            _ => 10_000,
        }
    }
}

/// The container gamut of content, relative to the two spaces that blending happens in.
#[derive(Debug, Clone, Copy, PartialEq, Eq, Structural)]
pub enum ContentGamut {
    /// sRGB / BT.709 container primaries (also the assumption for surfaces without a
    /// description).
    Srgb,
    /// BT.2020 container primaries, i.e. the HDR blend space's own gamut.
    Bt2020,
    /// Any other container primaries: a named set like Display-P3 or raw client-provided
    /// chromaticities. Converted in linear light during composition and scanout using the same
    /// matrix.
    Custom(Chromaticities),
}

impl ContentGamut {
    /// Raw values take precedence over a named set. Chromaticities equal to a known set are that
    /// set, and no primaries at all mean sRGB.
    pub open spec fn from_primaries_spec(primaries: PrimariesOption) -> ContentGamut {
        let chroma = if primaries.values is Some {
            primaries.values
        } else {
            primaries.named
        };
        match chroma {
            None => ContentGamut::Srgb,
            Some(c) => if c == Chromaticities::srgb_spec() {
                ContentGamut::Srgb
            } else if c == Chromaticities::bt2020_spec() {
                ContentGamut::Bt2020
            } else {
                ContentGamut::Custom(c)
            },
        }
    }

    /// The container gamut described by an image description's primaries.
    pub fn from_primaries(primaries: &PrimariesOption) -> (gamut: Self)
        ensures
            gamut == ContentGamut::from_primaries_spec(*primaries),
    {
        let chroma: Option<Chromaticities> = match primaries.values {
            Some(values) => Some(values),
            None => primaries.named,
        };
        match chroma {
            None => ContentGamut::Srgb,
            Some(c) => if c == Chromaticities::srgb() {
                ContentGamut::Srgb
            } else if c == Chromaticities::bt2020() {
                ContentGamut::Bt2020
            } else {
                ContentGamut::Custom(c)
            },
        }
    }

    /// The linear-light matrix converting the gamut into the blend space (`true` = BT.2020,
    /// `false` = BT.709/sRGB). `None` means no conversion is needed.
    ///
    /// For custom chromaticities it is `computed`, the matrix of [`Self::custom_conversion`] into
    /// the same blend space that colorimetry gives. Degenerate chromaticities have none and are not converted.
    pub open spec fn matrix_to_spec(self, bt2020: bool, computed: Option<Mat3>) -> Option<Mat3> {
        match self {
            ContentGamut::Srgb => if bt2020 {
                Some(Mat3::bt709_to_bt2020_spec())
            } else {
                None
            },
            ContentGamut::Bt2020 => if bt2020 {
                None
            } else {
                Some(Mat3::bt2020_to_bt709_spec())
            },
            ContentGamut::Custom(_) => if computed == Some(Mat3::identity_spec()) {
                None
            } else {
                computed
            },
        }
    }

    /// The primaries between which a custom gamut has to be converted for the blend space (`true` =
    /// BT.2020, `false` = BT.709/sRGB): from its own to those of the blend space.
    pub fn custom_conversion(self, bt2020: bool) -> (c: Option<(Chromaticities, Chromaticities)>)
        ensures
            c == match self {
                ContentGamut::Custom(src) => Some(
                    (
                        src,
                        if bt2020 {
                            Chromaticities::bt2020_spec()
                        } else {
                            Chromaticities::srgb_spec()
                        },
                    ),
                ),
                _ => None,
            },
    {
        match self {
            ContentGamut::Custom(src) => {
                let dst: Chromaticities = if bt2020 {
                    Chromaticities::bt2020()
                } else {
                    Chromaticities::srgb()
                };
                Some((src, dst))
            },
            _ => None,
        }
    }

    pub fn matrix_to(self, bt2020: bool, computed: Option<Mat3>) -> (matrix: Option<Mat3>)
        ensures
            matrix == self.matrix_to_spec(bt2020, computed),
    {
        match self {
            ContentGamut::Srgb => if bt2020 {
                Some(Mat3::bt709_to_bt2020())
            } else {
                None
            },
            ContentGamut::Bt2020 => if bt2020 {
                None
            } else {
                Some(Mat3::bt2020_to_bt709())
            },
            ContentGamut::Custom(_) => match computed {
                Some(m) => if m == Mat3::identity() {
                    None
                } else {
                    Some(m)
                },
                None => None,
            },
        }
    }
}

impl Default for ContentGamut {
    fn default() -> (gamut: Self)
        ensures
            gamut == ContentGamut::Srgb,
    {
        ContentGamut::Srgb
    }
}

/// How a surface's content relates to the output blend space, derived from its committed image
/// description.
#[derive(Debug, Clone, Copy, PartialEq, Eq)]
pub enum ContentColor {
    /// Electrical sRGB-transfer content; encoded into the blend space on HDR outputs. Non-sRGB
    /// container gamuts are converted in linear light after the 2.2 decode.
    Sdr {
        /// The container primaries of the content.
        gamut: ContentGamut,
    },
    /// Client content encoded as HDR PQ (or HLG, which passes through like PQ).
    /// BT.2020-container content passes through numerically on HDR frames; other containers are
    /// decoded, converted and re-encoded. Converted back to SDR for capture.
    ///
    /// Content whose peak luminance exceeds what the output can represent is tone mapped during
    /// composition: on SDR frames the headroom above reference white is compressed instead of
    /// clipped, and on HDR outputs the content peak is compressed into the sink's EDID peak.
    HdrPq {
        /// The container primaries of the content.
        gamut: ContentGamut,
        /// Peak luminance of the content in cd/m², or `None` for display-referred content (the
        /// Windows-BT.2100 stimulus encoding), which is exempt from tone mapping by definition
        /// and only ever clamped.
        max_lum: Option<u32>,
    },
    /// Extended-linear content: Windows scRGB or a parametric `ext_linear` image description.
    /// Linear light where encoded 1.0 = `max_lum` cd/m²; encoded into the blend space with the
    /// fixed absolute mapping. Immune to tone mapping by definition: only clamped to the output
    /// volume, never rescaled by the SDR reference luminance.
    ///
    /// Unlike other content this is also transformed on SDR outputs (reference white anchored to
    /// display white, HDR headroom clamped away): the raw linear values would otherwise blow
    /// bright colors out to white in the framebuffer.
    Linear {
        /// The container primaries of the content.
        gamut: ContentGamut,
        /// Luminance of encoded 1.0 in cd/m².
        max_lum: u32,
        /// Reference white luminance in cd/m².
        ref_lum: u32,
    },
}

impl Default for ContentColor {
    fn default() -> (content: Self)
        ensures
            content == (ContentColor::Sdr { gamut: ContentGamut::Srgb }),
    {
        ContentColor::Sdr { gamut: ContentGamut::Srgb }
    }
}

pub open spec fn at_least_one(x: u32) -> u32 {
    if x == 0 {
        1
    } else {
        x
    }
}

fn max_with_one(x: u32) -> (y: u32)
    ensures
        y == at_least_one(x),
{
    if x == 0 {
        1
    } else {
        x
    }
}

impl ContentColor {
    /// Linear transfers are linear content. Of the others, PQ and HLG are blend-space-encoded
    /// content and everything else is SDR, whatever the container gamut: an SDR transfer in a
    /// BT.2020 container is wide-gamut SDR, not HDR.
    pub open spec fn from_description_spec(desc: Option<ImageDescription>) -> ContentColor {
        match desc {
            None => ContentColor::Sdr { gamut: ContentGamut::Srgb },
            Some(desc) => {
                let gamut = ContentGamut::from_primaries_spec(desc.primaries);
                if desc.windows_scrgb || desc.transfer is ExtLinear {
                    ContentColor::Linear {
                        gamut,
                        max_lum: at_least_one(desc.luminances_or_default_spec().0),
                        ref_lum: at_least_one(desc.luminances_or_default_spec().1),
                    }
                } else if desc.transfer is St2084Pq || desc.transfer is Hlg {
                    ContentColor::HdrPq {
                        gamut,
                        max_lum: if desc.windows_bt2100 {
                            None
                        } else {
                            Some(at_least_one(desc.max_luminance_spec()))
                        },
                    }
                } else {
                    ContentColor::Sdr { gamut }
                }
            },
        }
    }

    /// The content color of a surface with the given committed image description.
    pub fn from_description(desc: Option<ImageDescription>) -> (content: Self)
        ensures
            content == ContentColor::from_description_spec(desc),
    {
        let desc: ImageDescription = match desc {
            Some(desc) => desc,
            None => {
                return ContentColor::Sdr { gamut: ContentGamut::Srgb };
            },
        };
        let gamut: ContentGamut = ContentGamut::from_primaries(&desc.primaries);
        if desc.windows_scrgb || matches!(desc.transfer, TransferFunction::ExtLinear) {
            let (max_lum, ref_lum) = desc.luminances_or_default();
            return ContentColor::Linear {
                gamut,
                max_lum: max_with_one(max_lum),
                ref_lum: max_with_one(ref_lum),
            };
        }
        match desc.transfer {
            TransferFunction::St2084Pq | TransferFunction::Hlg => ContentColor::HdrPq {
                gamut,
                // Windows-BT.2100 content is display-referred for a PQ-mode screen and thus
                // exempt from tone mapping, like Windows-scRGB.
                max_lum: if desc.windows_bt2100 {
                    None
                } else {
                    Some(max_with_one(desc.max_luminance()))
                },
            },
            _ => ContentColor::Sdr { gamut },
        }
    }

    pub open spec fn gamut_spec(self) -> ContentGamut {
        match self {
            ContentColor::Sdr { gamut } => gamut,
            ContentColor::HdrPq { gamut, .. } => gamut,
            ContentColor::Linear { gamut, .. } => gamut,
        }
    }

    /// Whether a draw into an output with this peak tone maps the content.
    pub open spec fn tone_maps(self, tonemapping: bool, peak: Luminance) -> bool {
        self matches ContentColor::HdrPq { max_lum, .. } && tonemap_needed_spec(
            tonemapping,
            max_lum,
            peak,
        )
    }
}

/// The content color keeps the container primaries of the description, whatever its transfer
/// function: raw chromaticities if there are any, else those of the named set. They are the sRGB
/// gamut only if they are absent or equal to the sRGB primaries, the BT.2020 gamut only if they are
/// equal to the BT.2020 primaries, and a custom gamut of exactly these chromaticities otherwise.
pub proof fn law_content_keeps_the_container_primaries(desc: ImageDescription)
    ensures
        ({
            let gamut = match ContentColor::from_description_spec(Some(desc)) {
                ContentColor::Sdr { gamut } => gamut,
                ContentColor::HdrPq { gamut, .. } => gamut,
                ContentColor::Linear { gamut, .. } => gamut,
            };
            match (desc.primaries.values, desc.primaries.named) {
                (None, None) => gamut == ContentGamut::Srgb,
                (Some(c), _) | (None, Some(c)) => {
                    let srgb = {
                        &&& c.red.x == 640_000 && c.red.y == 330_000
                        &&& c.green.x == 300_000 && c.green.y == 600_000
                        &&& c.blue.x == 150_000 && c.blue.y == 60_000
                        &&& c.white.x == 312_700 && c.white.y == 329_000
                    };
                    let bt2020 = {
                        &&& c.red.x == 708_000 && c.red.y == 292_000
                        &&& c.green.x == 170_000 && c.green.y == 797_000
                        &&& c.blue.x == 131_000 && c.blue.y == 46_000
                        &&& c.white.x == 312_700 && c.white.y == 329_000
                    };
                    &&& gamut == ContentGamut::Srgb <==> srgb
                    &&& gamut == ContentGamut::Bt2020 <==> bt2020
                    &&& gamut == ContentGamut::Custom(c) <==> !srgb && !bt2020
                },
            }
        }),
        ContentColor::from_description_spec(None) == (ContentColor::Sdr {
            gamut: ContentGamut::Srgb,
        }),
{
}

/// What content is blended as follows from its transfer function alone: linear content is linear
/// (and so is Windows scRGB), PQ and HLG are HDR, and everything else is SDR. The primaries change
/// nothing but the gamut.
pub proof fn law_content_follows_the_transfer_function(
    desc: ImageDescription,
    primaries: PrimariesOption,
)
    ensures
        ({
            let content = ContentColor::from_description_spec(Some(desc));
            let linear = desc.windows_scrgb || desc.transfer == TransferFunction::ExtLinear;
            let hdr = desc.transfer == TransferFunction::St2084Pq || desc.transfer
                == TransferFunction::Hlg;
            &&& content is Linear <==> linear
            &&& content is HdrPq <==> !linear && hdr
            &&& content is Sdr <==> !linear && !hdr
            &&& match (
                content,
                ContentColor::from_description_spec(Some(ImageDescription { primaries, ..desc })),
            ) {
                (ContentColor::Sdr { .. }, ContentColor::Sdr { .. }) => true,
                (
                    ContentColor::HdrPq { max_lum: a, .. },
                    ContentColor::HdrPq { max_lum: b, .. },
                ) => a == b,
                (
                    ContentColor::Linear { max_lum: a, ref_lum: c, .. },
                    ContentColor::Linear { max_lum: b, ref_lum: d, .. },
                ) => a == b && c == d,
                _ => false,
            }
        }),
{
}

/// The peak of HDR content is its maximum content light level, else the maximum of the mastering
/// display, else that of the transfer function: 10000 cd/m² for PQ and 1000 cd/m² for HLG. It is
/// never less than 1 cd/m². Content in the Windows BT.2100 encoding has none, so it is never tone
/// mapped.
pub proof fn law_peak_of_hdr_content(desc: ImageDescription)
    requires
        ContentColor::from_description_spec(Some(desc)) is HdrPq,
    ensures
        ({
            let peak = ContentColor::from_description_spec(Some(desc))->HdrPq_max_lum;
            if desc.windows_bt2100 {
                peak is None
            } else {
                &&& peak matches Some(peak)
                &&& peak >= 1
                &&& match (desc.max_cll, desc.mastering_luminance) {
                    (Some(cll), _) => cll >= 1 ==> peak == cll,
                    (None, Some((_, max))) => max >= 1 ==> peak == max,
                    (None, None) => {
                        &&& desc.transfer == TransferFunction::St2084Pq ==> peak == 10_000
                        &&& desc.transfer == TransferFunction::Hlg ==> peak == 1_000
                    },
                }
                &&& desc.max_cll == Some(0u32) ==> peak == 1
                &&& desc.max_cll is None && (desc.mastering_luminance matches Some((_, max)) && max
                    == 0) ==> peak == 1
            }
        }),
{
}

/// Linear content has the luminances it gives, but no less than 1 cd/m². Without any, encoded 1.0
/// is 80 cd/m², and the reference white is 203 cd/m² for Windows scRGB and 80 cd/m² otherwise.
pub proof fn law_luminances_of_linear_content(desc: ImageDescription)
    requires
        ContentColor::from_description_spec(Some(desc)) is Linear,
    ensures
        match (ContentColor::from_description_spec(Some(desc)), desc.luminances) {
            (ContentColor::Linear { max_lum, ref_lum, .. }, Some((max, white))) => {
                &&& max >= 1 ==> max_lum == max
                &&& max == 0 ==> max_lum == 1
                &&& white >= 1 ==> ref_lum == white
                &&& white == 0 ==> ref_lum == 1
            },
            (ContentColor::Linear { max_lum, ref_lum, .. }, None) => {
                &&& max_lum == 80
                &&& desc.windows_scrgb ==> ref_lum == 203
                &&& !desc.windows_scrgb ==> ref_lum == 80
            },
            _ => false,
        },
{
}

/// Content in the gamut of the blend space is not converted. Conversions between the two known
/// gamuts keep white and undo each other, both up to the precision of their coefficients. A custom
/// gamut is converted as computed, unless that would change nothing.
pub proof fn law_gamut_conversions(computed: Option<Mat3>, custom: Chromaticities, bt2020: bool)
    ensures
        ContentGamut::Srgb.matrix_to_spec(false, computed) is None,
        ContentGamut::Bt2020.matrix_to_spec(true, computed) is None,
        ContentGamut::Srgb.matrix_to_spec(true, computed) matches Some(up) && (
        ContentGamut::Bt2020.matrix_to_spec(false, computed) matches Some(down)
            && keeps_white(up) && keeps_white(down) && undoes(up, down) && undoes(down, up)
            && up.r.g > 0 && down.r.g < 0),
        ({
            let matrix = ContentGamut::Custom(custom).matrix_to_spec(bt2020, computed);
            match computed {
                Some(m) => {
                    let diagonal = {
                        &&& m.r.r == 1_000_000_000_000 && m.r.g == 0 && m.r.b == 0
                        &&& m.g.r == 0 && m.g.g == 1_000_000_000_000 && m.g.b == 0
                        &&& m.b.r == 0 && m.b.g == 0 && m.b.b == 1_000_000_000_000
                    };
                    &&& diagonal ==> matrix is None
                    &&& !diagonal ==> matrix == Some(m)
                },
                None => matrix is None,
            }
        }),
{
    let up = ContentGamut::Srgb.matrix_to_spec(true, computed)->0;
    let down = ContentGamut::Bt2020.matrix_to_spec(false, computed)->0;
    assert(undoes(up, down) && undoes(down, up)) by (nonlinear_arith)
        requires
            up.r.r == 627_404_000_000,
            up.r.g == 329_283_000_000,
            up.r.b == 43_313_000_000,
            up.g.r == 69_097_000_000,
            up.g.g == 919_540_000_000,
            up.g.b == 11_362_000_000,
            up.b.r == 16_391_000_000,
            up.b.g == 88_013_000_000,
            up.b.b == 895_595_000_000,
            down.r.r == 1_660_491_000_000,
            down.r.g == -587_641_000_000,
            down.r.b == -72_850_000_000,
            down.g.r == -124_550_000_000,
            down.g.g == 1_132_900_000_000,
            down.g.b == -8_349_000_000,
            down.b.r == -18_151_000_000,
            down.b.g == -100_579_000_000,
            down.b.b == 1_118_730_000_000,
    ;
}

/// White stays white under the matrix, up to one part in a million.
pub open spec fn keeps_white(m: Mat3) -> bool {
    &&& -1_000_000 <= m.r.r + m.r.g + m.r.b - 1_000_000_000_000 <= 1_000_000
    &&& -1_000_000 <= m.g.r + m.g.g + m.g.b - 1_000_000_000_000 <= 1_000_000
    &&& -1_000_000 <= m.b.r + m.b.g + m.b.b - 1_000_000_000_000 <= 1_000_000
}

/// A coefficient of a product of matrices is `expected` (in units of one), up to two parts in a
/// million.
pub open spec fn nearly(product: int, expected: int) -> bool {
    -2_000_000_000_000_000_000 <= product - expected * 1_000_000_000_000_000_000_000_000
        <= 2_000_000_000_000_000_000
}

/// The second matrix takes back what the first one does, up to the precision of the coefficients.
pub open spec fn undoes(first: Mat3, second: Mat3) -> bool {
    let (a, b) = (second, first);
    &&& nearly(a.r.r * b.r.r + a.r.g * b.g.r + a.r.b * b.b.r, 1)
    &&& nearly(a.r.r * b.r.g + a.r.g * b.g.g + a.r.b * b.b.g, 0)
    &&& nearly(a.r.r * b.r.b + a.r.g * b.g.b + a.r.b * b.b.b, 0)
    &&& nearly(a.g.r * b.r.r + a.g.g * b.g.r + a.g.b * b.b.r, 0)
    &&& nearly(a.g.r * b.r.g + a.g.g * b.g.g + a.g.b * b.b.g, 1)
    &&& nearly(a.g.r * b.r.b + a.g.g * b.g.b + a.g.b * b.b.b, 0)
    &&& nearly(a.b.r * b.r.r + a.b.g * b.g.r + a.b.b * b.b.r, 0)
    &&& nearly(a.b.r * b.r.g + a.b.g * b.g.g + a.b.b * b.b.g, 0)
    &&& nearly(a.b.r * b.r.b + a.b.g * b.g.b + a.b.b * b.b.b, 1)
}

/// Only a custom gamut needs a computed conversion: from its own primaries to those of the blend
/// space, BT.2020 on HDR outputs and BT.709 on SDR outputs.
pub proof fn law_custom_gamuts_are_converted_to_the_blend_space(
    gamut: ContentGamut,
    bt2020: bool,
    conversion: Option<(Chromaticities, Chromaticities)>,
)
    requires
        call_ensures(ContentGamut::custom_conversion, (gamut, bt2020), conversion),
    ensures
        match (gamut, conversion) {
            (ContentGamut::Custom(own), Some((from, to))) => {
                &&& from == own
                &&& to.white.x == 312_700 && to.white.y == 329_000
                &&& bt2020 ==> to.red.x == 708_000 && to.green.y == 797_000 && to.blue.x == 131_000
                &&& !bt2020 ==> to.red.x == 640_000 && to.green.y == 600_000 && to.blue.x == 150_000
            },
            (ContentGamut::Custom(_), None) => false,
            (_, conversion) => conversion is None,
        },
{
}

/// What a surface is blended as follows from its committed description, as the other laws say. A
/// surface without a description is plain sRGB content.
pub proof fn law_surfaces_are_classified_by_their_description(
    desc: Option<ImageDescription>,
    content: ContentColor,
    primaries: PrimariesOption,
    gamut: ContentGamut,
)
    requires
        call_ensures(ContentColor::from_description, (desc,), content),
        call_ensures(ContentGamut::from_primaries, (&primaries,), gamut),
    ensures
        content == ContentColor::from_description_spec(desc),
        desc is None ==> content == (ContentColor::Sdr { gamut: ContentGamut::Srgb }),
        desc matches Some(desc) && desc.primaries == primaries ==> gamut == match content {
            ContentColor::Sdr { gamut } => gamut,
            ContentColor::HdrPq { gamut, .. } => gamut,
            ContentColor::Linear { gamut, .. } => gamut,
        },
{
}

} // verus!
