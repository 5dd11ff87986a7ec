//! Chromaticities and gamut conversion matrices.
//!
//! Matrix coefficients are fixed-point numbers in units of 1e-12. That is finer than the 2^-32
//! resolution of plane color pipelines and than the floats that shaders compute with.

use vstd::prelude::*;

verus! {

/// A chromaticity coordinate in units of 1e-6.
#[derive(Debug, Clone, Copy, PartialEq, Eq, Structural)]
pub struct Coord {
    pub x: i32,
    pub y: i32,
}

/// A set of primaries with its white point.
#[derive(Debug, Clone, Copy, PartialEq, Eq, Structural)]
pub struct Chromaticities {
    pub red: Coord,
    pub green: Coord,
    pub blue: Coord,
    pub white: Coord,
}

impl Chromaticities {
    /// The sRGB / BT.709 primaries.
    pub open spec fn srgb_spec() -> Chromaticities {
        Chromaticities {
            red: Coord { x: 640_000, y: 330_000 },
            green: Coord { x: 300_000, y: 600_000 },
            blue: Coord { x: 150_000, y: 60_000 },
            white: Coord { x: 312_700, y: 329_000 },
        }
    }

    /// The BT.2020 primaries.
    pub open spec fn bt2020_spec() -> Chromaticities {
        Chromaticities {
            red: Coord { x: 708_000, y: 292_000 },
            green: Coord { x: 170_000, y: 797_000 },
            blue: Coord { x: 131_000, y: 46_000 },
            white: Coord { x: 312_700, y: 329_000 },
        }
    }

    pub fn srgb() -> (chroma: Self)
        ensures
            chroma == Chromaticities::srgb_spec(),
    {
        Chromaticities {
            red: Coord { x: 640_000, y: 330_000 },
            green: Coord { x: 300_000, y: 600_000 },
            blue: Coord { x: 150_000, y: 60_000 },
            white: Coord { x: 312_700, y: 329_000 },
        }
    }

    pub fn bt2020() -> (chroma: Self)
        ensures
            chroma == Chromaticities::bt2020_spec(),
    {
        Chromaticities {
            red: Coord { x: 708_000, y: 292_000 },
            green: Coord { x: 170_000, y: 797_000 },
            blue: Coord { x: 131_000, y: 46_000 },
            white: Coord { x: 312_700, y: 329_000 },
        }
    }

    /// Whether every coordinate has a tristimulus value: none has a zero y.
    pub open spec fn has_tristimulus(self) -> bool {
        self.red.y != 0 && self.green.y != 0 && self.blue.y != 0 && self.white.y != 0
    }
}

/// The chromatic adaptation between two white points: the identity if they are equal.
pub open spec fn adapted<M, FA: Fn(Coord, Coord) -> Option<M>>(
    src_white: Coord,
    dst_white: Coord,
    identity: M,
    adaptation: FA,
    matrix: Option<M>,
) -> bool {
    if src_white == dst_white {
        matrix == Some(identity)
    } else {
        call_ensures(adaptation, (src_white, dst_white), matrix)
    }
}

/// The matrix that leads from one RGB space to XYZ, adapts the white point, and leads from XYZ to
/// the other RGB space. Between equal spaces it is exactly the identity.
pub open spec fn chained<
    M,
    FI: Fn(&M) -> Option<M>,
    FA: Fn(Coord, Coord) -> Option<M>,
    FM: Fn(&M, &M) -> M,
>(
    src: Chromaticities,
    dst: Chromaticities,
    src_to_xyz: M,
    dst_to_xyz: M,
    identity: M,
    invert: FI,
    adaptation: FA,
    product: FM,
    matrix: Option<M>,
) -> bool {
    exists|xyz_to_dst: Option<M>, adapt: Option<M>|
        {
            &&& #[trigger] call_ensures(invert, (&dst_to_xyz,), xyz_to_dst)
            &&& #[trigger] adapted(src.white, dst.white, identity, adaptation, adapt)
            &&& match (xyz_to_dst, adapt) {
                (Some(_), Some(_)) if src == dst => matrix == Some(identity),
                (Some(xyz_to_dst), Some(adapt)) => exists|src_to_dst_white: M, out: M|
                    {
                        &&& #[trigger] call_ensures(product, (&adapt, &src_to_xyz), src_to_dst_white)
                        &&& #[trigger] call_ensures(product, (&xyz_to_dst, &src_to_dst_white), out)
                        &&& matrix == Some(out)
                    },
                _ => matrix is None,
            }
        }
}

/// The linear-light matrix converting content in the `src` container primaries into the `dst`
/// primaries, adapting the white point when they differ.
///
/// `rgb_to_xyz` gives the matrix of a set of primaries with its white point, `invert` the inverse of
/// a matrix, `adaptation` the chromatic adaptation between two white points, and `product` the product
/// of two matrices; there may be none for degenerate chromaticities.
pub open spec fn converts<
    M,
    FX: Fn(&Chromaticities) -> Option<M>,
    FI: Fn(&M) -> Option<M>,
    FA: Fn(Coord, Coord) -> Option<M>,
    FM: Fn(&M, &M) -> M,
>(
    src: Chromaticities,
    dst: Chromaticities,
    identity: M,
    rgb_to_xyz: FX,
    invert: FI,
    adaptation: FA,
    product: FM,
    matrix: Option<M>,
) -> bool {
    if !src.has_tristimulus() || !dst.has_tristimulus() {
        matrix is None
    } else {
        exists|src_to_xyz: Option<M>, dst_to_xyz: Option<M>|
            {
                &&& #[trigger] call_ensures(rgb_to_xyz, (&src,), src_to_xyz)
                &&& #[trigger] call_ensures(rgb_to_xyz, (&dst,), dst_to_xyz)
                &&& match (src_to_xyz, dst_to_xyz) {
                    (Some(src_to_xyz), Some(dst_to_xyz)) => chained(
                        src,
                        dst,
                        src_to_xyz,
                        dst_to_xyz,
                        identity,
                        invert,
                        adaptation,
                        product,
                        matrix,
                    ),
                    _ => matrix is None,
                }
            }
    }
}

/// Forms the linear-light matrix converting content in the `src` container primaries into the `dst`
/// primaries. The matrices themselves are computed by the given functions; see [`converts`].
///
/// Returns `None` for degenerate chromaticities (which a well-behaved client never sends); callers
/// should treat that as "no conversion".
pub fn gamut_matrix<
    M,
    FX: Fn(&Chromaticities) -> Option<M>,
    FI: Fn(&M) -> Option<M>,
    FA: Fn(Coord, Coord) -> Option<M>,
    FM: Fn(&M, &M) -> M,
>(
    src: &Chromaticities,
    dst: &Chromaticities,
    identity: M,
    rgb_to_xyz: FX,
    invert: FI,
    adaptation: FA,
    product: FM,
) -> (matrix: Option<M>)
    requires
        forall|c: &Chromaticities|
            c.has_tristimulus() ==> #[trigger] call_requires(rgb_to_xyz, (c,)),
        forall|m: &M| #[trigger] call_requires(invert, (m,)),
        forall|a: Coord, b: Coord|
            a.y != 0 && b.y != 0 ==> #[trigger] call_requires(adaptation, (a, b)),
        forall|a: &M, b: &M| #[trigger] call_requires(product, (a, b)),
    ensures
        converts(*src, *dst, identity, rgb_to_xyz, invert, adaptation, product, matrix),
{
    let src_degenerate: bool = src.red.y == 0 || src.green.y == 0 || src.blue.y == 0 || src.white.y
        == 0;
    let dst_degenerate: bool = dst.red.y == 0 || dst.green.y == 0 || dst.blue.y == 0 || dst.white.y
        == 0;
    if src_degenerate || dst_degenerate {
        return None;
    }
    match (rgb_to_xyz(src), rgb_to_xyz(dst)) {
        (Some(src_to_xyz), Some(dst_to_xyz)) => {
            let xyz_to_dst: Option<M> = invert(&dst_to_xyz);
            let ghost none = identity;
            let same: bool = *src == *dst;
            let adapt: Option<M> = if src.white == dst.white {
                Some(identity)
            } else {
                adaptation(src.white, dst.white)
            };
            assert(adapted(src.white, dst.white, none, adaptation, adapt));
            match (xyz_to_dst, adapt) {
                (Some(xyz_to_dst), Some(adapt)) => {
                    if same {
                        // The white points are equal, so there is nothing to adapt.
                        return Some(adapt);
                    }
                    let to_white: M = product(&adapt, &src_to_xyz);
                    Some(product(&xyz_to_dst, &to_white))
                },
                _ => None,
            }
        },
        _ => None,
    }
}

/// Degenerate chromaticities have no conversion matrix, not even to themselves: those with a
/// coordinate that has no tristimulus value, and those whose primaries have no matrix to XYZ.
pub proof fn law_degenerate_chromaticities_have_no_matrix<
    M,
    FX: Fn(&Chromaticities) -> Option<M>,
    FI: Fn(&M) -> Option<M>,
    FA: Fn(Coord, Coord) -> Option<M>,
    FM: Fn(&M, &M) -> M,
>(
    src: Chromaticities,
    dst: Chromaticities,
    identity: M,
    rgb_to_xyz: FX,
    invert: FI,
    adaptation: FA,
    product: FM,
    matrix: Option<M>,
)
    requires
        converts(src, dst, identity, rgb_to_xyz, invert, adaptation, product, matrix),
        !src.has_tristimulus() || !dst.has_tristimulus() || (forall|m: Option<M>| #[trigger]
            call_ensures(rgb_to_xyz, (&src,), m) ==> m is None) || (forall|m: Option<M>| #[trigger]
            call_ensures(rgb_to_xyz, (&dst,), m) ==> m is None),
    ensures
        matrix is None,
{
}

/// Content in the primaries of the target is not changed: the conversion matrix between equal
/// chromaticities is exactly the identity, unless they are degenerate.
pub proof fn law_same_primaries_is_identity<
    M,
    FX: Fn(&Chromaticities) -> Option<M>,
    FI: Fn(&M) -> Option<M>,
    FA: Fn(Coord, Coord) -> Option<M>,
    FM: Fn(&M, &M) -> M,
>(
    primaries: Chromaticities,
    identity: M,
    rgb_to_xyz: FX,
    invert: FI,
    adaptation: FA,
    product: FM,
    matrix: Option<M>,
)
    requires
        converts(
            primaries,
            primaries,
            identity,
            rgb_to_xyz,
            invert,
            adaptation,
            product,
            matrix,
        ),
    ensures
        matrix == Some(identity) || matrix is None,
        primaries.has_tristimulus() && (forall|m: Option<M>| #[trigger]
            call_ensures(rgb_to_xyz, (&primaries,), m) ==> m is Some) && (forall|
            m: &M,
            inverse: Option<M>,
        | #[trigger]
            call_ensures(invert, (m,), inverse) ==> inverse is Some) ==> matrix == Some(identity),
{
}

/// One row of a [`Mat3`]: the weights of the red, green and blue input.
#[derive(Debug, Clone, Copy, PartialEq, Eq, Structural)]
pub struct Row3 {
    pub r: i64,
    pub g: i64,
    pub b: i64,
}

/// A 3x3 matrix on linear-light RGB: the rows that produce red, green and blue.
#[derive(Debug, Clone, Copy, PartialEq, Eq, Structural)]
pub struct Mat3 {
    pub r: Row3,
    pub g: Row3,
    pub b: Row3,
}

impl Mat3 {
    pub open spec fn identity_spec() -> Mat3 {
        Mat3 {
            r: Row3 { r: 1_000_000_000_000, g: 0, b: 0 },
            g: Row3 { r: 0, g: 1_000_000_000_000, b: 0 },
            b: Row3 { r: 0, g: 0, b: 1_000_000_000_000 },
        }
    }

    pub open spec fn bt709_to_bt2020_spec() -> Mat3 {
        Mat3 {
            r: Row3 { r: 627_404_000_000, g: 329_283_000_000, b: 43_313_000_000 },
            g: Row3 { r: 69_097_000_000, g: 919_540_000_000, b: 11_362_000_000 },
            b: Row3 { r: 16_391_000_000, g: 88_013_000_000, b: 895_595_000_000 },
        }
    }

    pub open spec fn bt2020_to_bt709_spec() -> Mat3 {
        Mat3 {
            r: Row3 { r: 1_660_491_000_000, g: (-587_641_000_000) as i64, b: (-72_850_000_000) as i64 },
            g: Row3 { r: (-124_550_000_000) as i64, g: 1_132_900_000_000, b: (-8_349_000_000) as i64 },
            b: Row3 { r: (-18_151_000_000) as i64, g: (-100_579_000_000) as i64, b: 1_118_730_000_000 },
        }
    }

    pub open spec fn transposed_spec(self) -> Mat3 {
        Mat3 {
            r: Row3 { r: self.r.r, g: self.g.r, b: self.b.r },
            g: Row3 { r: self.r.g, g: self.g.g, b: self.b.g },
            b: Row3 { r: self.r.b, g: self.g.b, b: self.b.b },
        }
    }

    /// The identity matrix.
    pub fn identity() -> (matrix: Self)
        ensures
            matrix == Mat3::identity_spec(),
    {
        Mat3 {
            r: Row3 { r: 1_000_000_000_000, g: 0, b: 0 },
            g: Row3 { r: 0, g: 1_000_000_000_000, b: 0 },
            b: Row3 { r: 0, g: 0, b: 1_000_000_000_000 },
        }
    }

    /// BT.709 to BT.2020 primaries in linear light (D65), with the coefficients of the shaders'
    /// `to_bt2020`.
    pub fn bt709_to_bt2020() -> (matrix: Self)
        ensures
            matrix == Mat3::bt709_to_bt2020_spec(),
    {
        Mat3 {
            r: Row3 { r: 627_404_000_000, g: 329_283_000_000, b: 43_313_000_000 },
            g: Row3 { r: 69_097_000_000, g: 919_540_000_000, b: 11_362_000_000 },
            b: Row3 { r: 16_391_000_000, g: 88_013_000_000, b: 895_595_000_000 },
        }
    }

    /// BT.2020 to BT.709 primaries in linear light (D65), with the coefficients of the shaders'
    /// `to_bt709`.
    pub fn bt2020_to_bt709() -> (matrix: Self)
        ensures
            matrix == Mat3::bt2020_to_bt709_spec(),
    {
        Mat3 {
            r: Row3 { r: 1_660_491_000_000, g: -587_641_000_000, b: -72_850_000_000 },
            g: Row3 { r: -124_550_000_000, g: 1_132_900_000_000, b: -8_349_000_000 },
            b: Row3 { r: -18_151_000_000, g: -100_579_000_000, b: 1_118_730_000_000 },
        }
    }

    /// The matrix with rows and columns exchanged, which is its column-major order.
    pub fn transposed(&self) -> (matrix: Self)
        ensures
            matrix == self.transposed_spec(),
    {
        Mat3 {
            r: Row3 { r: self.r.r, g: self.g.r, b: self.b.r },
            g: Row3 { r: self.r.g, g: self.g.g, b: self.b.g },
            b: Row3 { r: self.r.b, g: self.g.b, b: self.b.b },
        }
    }
}

/// Content is converted from its own primaries to XYZ, from its own white point to that of the
/// target, and from XYZ to the primaries of the target, in this order. Between equal white points
/// there is no adaptation.
pub proof fn law_conversion_goes_through_xyz<
    M,
    FX: Fn(&Chromaticities) -> Option<M>,
    FI: Fn(&M) -> Option<M>,
    FA: Fn(Coord, Coord) -> Option<M>,
    FM: Fn(&M, &M) -> M,
>(
    src: Chromaticities,
    dst: Chromaticities,
    identity: M,
    rgb_to_xyz: FX,
    invert: FI,
    adaptation: FA,
    product: FM,
    matrix: Option<M>,
    to_xyz: spec_fn(Chromaticities) -> M,
    inverse: spec_fn(M) -> M,
    adapted_white: spec_fn(Coord, Coord) -> M,
    times: spec_fn(M, M) -> M,
)
    requires
        call_ensures(
            gamut_matrix::<M, FX, FI, FA, FM>,
            (&src, &dst, identity, rgb_to_xyz, invert, adaptation, product),
            matrix,
        ),
        src.red.y != 0 && src.green.y != 0 && src.blue.y != 0 && src.white.y != 0,
        dst.red.y != 0 && dst.green.y != 0 && dst.blue.y != 0 && dst.white.y != 0,
        src != dst,
        forall|c: Chromaticities, m: Option<M>| #[trigger]
            call_ensures(rgb_to_xyz, (&c,), m) ==> m == Some(to_xyz(c)),
        forall|m: M, i: Option<M>| #[trigger]
            call_ensures(invert, (&m,), i) ==> i == Some(inverse(m)),
        forall|a: Coord, b: Coord, m: Option<M>| #[trigger]
            call_ensures(adaptation, (a, b), m) ==> m == Some(adapted_white(a, b)),
        forall|a: M, b: M, m: M| #[trigger]
            call_ensures(product, (&a, &b), m) ==> m == times(a, b),
    ensures
        ({
            let adapt = if src.white.x == dst.white.x && src.white.y == dst.white.y {
                identity
            } else {
                adapted_white(src.white, dst.white)
            };
            matrix == Some(times(inverse(to_xyz(dst)), times(adapt, to_xyz(src))))
        }),
{
    assert(src.white == dst.white <==> src.white.x == dst.white.x && src.white.y == dst.white.y);
}

/// Transposing exchanges rows and columns, keeps the diagonal, and gives the matrix back when it is
/// done twice. The identity has ones on its diagonal, and zeros elsewhere.
pub proof fn law_transposing_exchanges_rows_and_columns(m: Mat3)
    ensures
        m.transposed_spec().r.g == m.g.r && m.transposed_spec().g.r == m.r.g,
        m.transposed_spec().r.b == m.b.r && m.transposed_spec().b.r == m.r.b,
        m.transposed_spec().g.b == m.b.g && m.transposed_spec().b.g == m.g.b,
        m.transposed_spec().r.r == m.r.r && m.transposed_spec().g.g == m.g.g
            && m.transposed_spec().b.b == m.b.b,
        m.transposed_spec().transposed_spec() == m,
        Mat3::identity_spec().transposed_spec() == Mat3::identity_spec(),
        Mat3::identity_spec().r.g == 0 && Mat3::identity_spec().r.b == 0
            && Mat3::identity_spec().g.b == 0,
        Mat3::identity_spec().r.r == 1_000_000_000_000 && Mat3::identity_spec().g.g
            == 1_000_000_000_000 && Mat3::identity_spec().b.b == 1_000_000_000_000,
{
}

/// Mixing the primaries by these parts gives a color of the chromaticity, up to 1e-6. `luminance`
/// are the luminances of the primaries in white.
pub open spec fn mixes_to(
    primaries: Chromaticities,
    luminance: (int, int, int),
    parts: (int, int, int),
    color: Coord,
) -> bool {
    let (r, g, b) = (parts.0 * luminance.0, parts.1 * luminance.1, parts.2 * luminance.2);
    let (yr, yg, yb) = (primaries.red.y, primaries.green.y, primaries.blue.y);
    let x = r * yg * yb * primaries.red.x + g * yr * yb * primaries.green.x + b * yr * yg
        * primaries.blue.x;
    let y = (r + g + b) * yr * yg * yb;
    let sum = r * yg * yb + g * yr * yb + b * yr * yg;
    &&& sum > 0
    &&& -sum <= x - color.x * sum <= sum
    &&& -sum <= y - color.y * sum <= sum
}

/// The matrices between the two known gamuts are those between their primaries: the columns of each
/// are the primaries of the one gamut as mixtures of the primaries of the other, and equal parts are
/// white in both.
pub proof fn law_known_matrices_convert_between_the_primaries()
    ensures
        ({
            let (srgb, bt2020) = (Chromaticities::srgb_spec(), Chromaticities::bt2020_spec());
            let luminance = (262_700int, 677_998int, 59_302int);
            let m = Mat3::bt709_to_bt2020_spec();
            &&& mixes_to(bt2020, luminance, (1, 1, 1), srgb.white)
            &&& mixes_to(bt2020, luminance, (m.r.r as int, m.g.r as int, m.b.r as int), srgb.red)
            &&& mixes_to(bt2020, luminance, (m.r.g as int, m.g.g as int, m.b.g as int), srgb.green)
            &&& mixes_to(bt2020, luminance, (m.r.b as int, m.g.b as int, m.b.b as int), srgb.blue)
        }),
        ({
            let (srgb, bt2020) = (Chromaticities::srgb_spec(), Chromaticities::bt2020_spec());
            let luminance = (212_639int, 715_169int, 72_192int);
            let m = Mat3::bt2020_to_bt709_spec();
            &&& mixes_to(srgb, luminance, (1, 1, 1), bt2020.white)
            &&& mixes_to(srgb, luminance, (m.r.r as int, m.g.r as int, m.b.r as int), bt2020.red)
            &&& mixes_to(srgb, luminance, (m.r.g as int, m.g.g as int, m.b.g as int), bt2020.green)
            &&& mixes_to(srgb, luminance, (m.r.b as int, m.g.b as int, m.b.b as int), bt2020.blue)
        }),
{
    let (srgb, bt2020) = (Chromaticities::srgb_spec(), Chromaticities::bt2020_spec());
    let luminance = (262_700int, 677_998int, 59_302int);
    let m = Mat3::bt709_to_bt2020_spec();
    assert(mixes_to(bt2020, luminance, (1, 1, 1), srgb.white)) by (nonlinear_arith)
        requires
            luminance == (262_700int, 677_998int, 59_302int),
            bt2020.red.x == 708_000 && bt2020.red.y == 292_000,
            bt2020.green.x == 170_000 && bt2020.green.y == 797_000,
            bt2020.blue.x == 131_000 && bt2020.blue.y == 46_000,
            srgb.white.x == 312_700 && srgb.white.y == 329_000,
    ;
    assert(mixes_to(bt2020, luminance, (m.r.r as int, m.g.r as int, m.b.r as int), srgb.red)) by (nonlinear_arith)
        requires
            luminance == (262_700int, 677_998int, 59_302int),
            bt2020.red.x == 708_000 && bt2020.red.y == 292_000,
            bt2020.green.x == 170_000 && bt2020.green.y == 797_000,
            bt2020.blue.x == 131_000 && bt2020.blue.y == 46_000,
            m.r.r == 627_404_000_000 && m.g.r == 69_097_000_000 && m.b.r == 16_391_000_000,
            srgb.red.x == 640_000 && srgb.red.y == 330_000,
    ;
    assert(mixes_to(bt2020, luminance, (m.r.g as int, m.g.g as int, m.b.g as int), srgb.green)) by (nonlinear_arith)
        requires
            luminance == (262_700int, 677_998int, 59_302int),
            bt2020.red.x == 708_000 && bt2020.red.y == 292_000,
            bt2020.green.x == 170_000 && bt2020.green.y == 797_000,
            bt2020.blue.x == 131_000 && bt2020.blue.y == 46_000,
            m.r.g == 329_283_000_000 && m.g.g == 919_540_000_000 && m.b.g == 88_013_000_000,
            srgb.green.x == 300_000 && srgb.green.y == 600_000,
    ;
    assert(mixes_to(bt2020, luminance, (m.r.b as int, m.g.b as int, m.b.b as int), srgb.blue)) by (nonlinear_arith)
        requires
            luminance == (262_700int, 677_998int, 59_302int),
            bt2020.red.x == 708_000 && bt2020.red.y == 292_000,
            bt2020.green.x == 170_000 && bt2020.green.y == 797_000,
            bt2020.blue.x == 131_000 && bt2020.blue.y == 46_000,
            m.r.b == 43_313_000_000 && m.g.b == 11_362_000_000 && m.b.b == 895_595_000_000,
            srgb.blue.x == 150_000 && srgb.blue.y == 60_000,
    ;
    let luminance = (212_639int, 715_169int, 72_192int);
    let m = Mat3::bt2020_to_bt709_spec();
    assert(mixes_to(srgb, luminance, (1, 1, 1), bt2020.white)) by (nonlinear_arith)
        requires
            luminance == (212_639int, 715_169int, 72_192int),
            srgb.red.x == 640_000 && srgb.red.y == 330_000,
            srgb.green.x == 300_000 && srgb.green.y == 600_000,
            srgb.blue.x == 150_000 && srgb.blue.y == 60_000,
            bt2020.white.x == 312_700 && bt2020.white.y == 329_000,
    ;
    assert(mixes_to(srgb, luminance, (m.r.r as int, m.g.r as int, m.b.r as int), bt2020.red)) by (nonlinear_arith)
        requires
            luminance == (212_639int, 715_169int, 72_192int),
            srgb.red.x == 640_000 && srgb.red.y == 330_000,
            srgb.green.x == 300_000 && srgb.green.y == 600_000,
            srgb.blue.x == 150_000 && srgb.blue.y == 60_000,
            m.r.r == 1_660_491_000_000 && m.g.r == -124_550_000_000 && m.b.r == -18_151_000_000,
            bt2020.red.x == 708_000 && bt2020.red.y == 292_000,
    ;
    assert(mixes_to(srgb, luminance, (m.r.g as int, m.g.g as int, m.b.g as int), bt2020.green)) by (nonlinear_arith)
        requires
            luminance == (212_639int, 715_169int, 72_192int),
            srgb.red.x == 640_000 && srgb.red.y == 330_000,
            srgb.green.x == 300_000 && srgb.green.y == 600_000,
            srgb.blue.x == 150_000 && srgb.blue.y == 60_000,
            m.r.g == -587_641_000_000 && m.g.g == 1_132_900_000_000 && m.b.g == -100_579_000_000,
            bt2020.green.x == 170_000 && bt2020.green.y == 797_000,
    ;
    assert(mixes_to(srgb, luminance, (m.r.b as int, m.g.b as int, m.b.b as int), bt2020.blue)) by (nonlinear_arith)
        requires
            luminance == (212_639int, 715_169int, 72_192int),
            srgb.red.x == 640_000 && srgb.red.y == 330_000,
            srgb.green.x == 300_000 && srgb.green.y == 600_000,
            srgb.blue.x == 150_000 && srgb.blue.y == 60_000,
            m.r.b == -72_850_000_000 && m.g.b == -8_349_000_000 && m.b.b == 1_118_730_000_000,
            bt2020.blue.x == 131_000 && bt2020.blue.y == 46_000,
    ;
}

} // verus!
