use std::cell::RefCell;

use niri::render_helpers::colorimetry::{self, Chromaticities, Coord};

/// A row-major 3x3 matrix.
type Mat3 = [f64; 9];

const IDENTITY: Mat3 = [
    1., 0., 0., //
    0., 1., 0., //
    0., 0., 1.,
];

const BRADFORD: Mat3 = [
    0.8951, 0.2664, -0.1614, //
    -0.7502, 1.7135, 0.0367, //
    0.0389, -0.0685, 1.0296,
];

fn product(a: &Mat3, b: &Mat3) -> Mat3 {
    let mut out = [0.; 9];
    for row in 0..3 {
        for col in 0..3 {
            out[row * 3 + col] = (0..3).map(|k| a[row * 3 + k] * b[k * 3 + col]).sum();
        }
    }
    out
}

fn mul_vec(m: &Mat3, v: [f64; 3]) -> [f64; 3] {
    [
        m[0] * v[0] + m[1] * v[1] + m[2] * v[2],
        m[3] * v[0] + m[4] * v[1] + m[5] * v[2],
        m[6] * v[0] + m[7] * v[1] + m[8] * v[2],
    ]
}

fn invert(m: &Mat3) -> Option<Mat3> {
    let cofactor = |r1: usize, c1: usize, r2: usize, c2: usize| {
        m[r1 * 3 + c1] * m[r2 * 3 + c2] - m[r1 * 3 + c2] * m[r2 * 3 + c1]
    };
    let c00 = cofactor(1, 1, 2, 2);
    let c01 = -cofactor(1, 0, 2, 2);
    let c02 = cofactor(1, 0, 2, 1);
    let det = m[0] * c00 + m[1] * c01 + m[2] * c02;
    if det.abs() < 1e-12 {
        return None;
    }
    let inv_det = 1. / det;
    Some([
        c00 * inv_det,
        -cofactor(0, 1, 2, 2) * inv_det,
        cofactor(0, 1, 1, 2) * inv_det,
        c01 * inv_det,
        cofactor(0, 0, 2, 2) * inv_det,
        -cofactor(0, 0, 1, 2) * inv_det,
        c02 * inv_det,
        -cofactor(0, 0, 2, 1) * inv_det,
        cofactor(0, 0, 1, 1) * inv_det,
    ])
}

fn xy_to_xyz(coord: Coord) -> [f64; 3] {
    let x = f64::from(coord.x) / 1e6;
    let y = f64::from(coord.y) / 1e6;
    [x / y, 1., (1. - x - y) / y]
}

fn rgb_to_xyz(c: &Chromaticities) -> Option<Mat3> {
    let r = xy_to_xyz(c.red);
    let g = xy_to_xyz(c.green);
    let b = xy_to_xyz(c.blue);
    let primaries = [
        r[0], g[0], b[0], //
        r[1], g[1], b[1], //
        r[2], g[2], b[2],
    ];
    let scale = mul_vec(&invert(&primaries)?, xy_to_xyz(c.white));
    let mut out = primaries;
    for row in 0..3 {
        for col in 0..3 {
            out[row * 3 + col] *= scale[col];
        }
    }
    Some(out)
}

fn adaptation(src_white: Coord, dst_white: Coord) -> Option<Mat3> {
    let src = mul_vec(&BRADFORD, xy_to_xyz(src_white));
    let dst = mul_vec(&BRADFORD, xy_to_xyz(dst_white));
    let mut gain = [0.; 9];
    for i in 0..3 {
        gain[i * 4] = dst[i] / src[i];
    }
    Some(product(&invert(&BRADFORD)?, &product(&gain, &BRADFORD)))
}

fn gamut_matrix(src: &Chromaticities, dst: &Chromaticities) -> Option<Mat3> {
    colorimetry::gamut_matrix(src, dst, IDENTITY, rgb_to_xyz, invert, adaptation, product)
}

fn coord(x: i32, y: i32) -> Coord {
    Coord { x, y }
}

fn display_p3() -> Chromaticities {
    Chromaticities {
        red: coord(680_000, 320_000),
        green: coord(265_000, 690_000),
        blue: coord(150_000, 60_000),
        white: coord(312_700, 329_000),
    }
}

fn dci_p3() -> Chromaticities {
    Chromaticities {
        white: coord(314_000, 351_000),
        ..display_p3()
    }
}

fn adobe_rgb() -> Chromaticities {
    Chromaticities {
        green: coord(210_000, 710_000),
        ..Chromaticities::srgb()
    }
}

fn assert_close(a: &Mat3, b: &Mat3, eps: f64) {
    for i in 0..9 {
        assert!((a[i] - b[i]).abs() < eps, "index {i}: {} vs {}", a[i], b[i]);
    }
}

#[test]
fn srgb_to_bt2020_matches_the_shader_constants() {
    // The blend shaders' to_bt2020/to_bt709 constants (BT.2087 / BT.2407 values, 6 dp).
    let to_bt2020 = [
        0.627404, 0.329283, 0.043313, //
        0.069097, 0.919540, 0.011362, //
        0.016391, 0.088013, 0.895595,
    ];
    let to_bt709 = [
        1.660491, -0.587641, -0.072850, //
        -0.124550, 1.132900, -0.008349, //
        -0.018151, -0.100579, 1.118730,
    ];
    let computed = gamut_matrix(&Chromaticities::srgb(), &Chromaticities::bt2020()).unwrap();
    assert_close(&computed, &to_bt2020, 1e-4);
    let computed = gamut_matrix(&Chromaticities::bt2020(), &Chromaticities::srgb()).unwrap();
    assert_close(&computed, &to_bt709, 1e-4);
}

#[test]
fn white_maps_to_white() {
    // RGB(1,1,1) in the source space must map to RGB(1,1,1) in the target space, even across
    // differing white points (DCI-P3's white is not D65).
    for (src, dst) in [
        (Chromaticities::srgb(), Chromaticities::bt2020()),
        (dci_p3(), Chromaticities::bt2020()),
        (display_p3(), Chromaticities::srgb()),
        (adobe_rgb(), Chromaticities::bt2020()),
    ] {
        let m = gamut_matrix(&src, &dst).unwrap();
        let white = mul_vec(&m, [1., 1., 1.]);
        for (i, v) in white.iter().enumerate() {
            assert!((v - 1.).abs() < 1e-6, "{src:?} -> {dst:?} channel {i}: {v}");
        }
    }
}

#[test]
fn round_trip_is_identity() {
    let forward = gamut_matrix(&display_p3(), &Chromaticities::bt2020()).unwrap();
    let back = gamut_matrix(&Chromaticities::bt2020(), &display_p3()).unwrap();
    assert_close(&product(&forward, &back), &IDENTITY, 1e-9);
}

#[test]
fn same_primaries_is_identity() {
    let m = gamut_matrix(&Chromaticities::srgb(), &Chromaticities::srgb()).unwrap();
    assert_eq!(m, IDENTITY);
}

/// The matrices as text, which shows how they are put together.
fn formula(src: &Chromaticities, dst: &Chromaticities) -> Option<String> {
    let seen = RefCell::new(Vec::new());
    let matrix = colorimetry::gamut_matrix(
        src,
        dst,
        "1".to_string(),
        |c: &Chromaticities| {
            seen.borrow_mut().push(*c);
            // Collinear primaries have no matrix.
            if c.red == c.green {
                None
            } else if c == dst {
                Some("dst".to_string())
            } else {
                Some("src".to_string())
            }
        },
        |m: &String| {
            if dst.blue.x == 1 {
                None
            } else {
                Some(format!("inv({m})"))
            }
        },
        |a: Coord, b: Coord| {
            assert_eq!((a, b), (src.white, dst.white));
            if a.x == 1 {
                None
            } else {
                Some("adapt".to_string())
            }
        },
        |a: &String, b: &String| format!("{a}*({b})"),
    );
    for c in seen.borrow().iter() {
        assert!(c == src || c == dst);
    }
    matrix
}

#[test]
fn conversion_goes_through_xyz() {
    let srgb = Chromaticities::srgb();
    let bt2020 = Chromaticities::bt2020();
    assert_eq!(formula(&srgb, &srgb).as_deref(), Some("1"));
    assert_eq!(formula(&srgb, &bt2020).as_deref(), Some("inv(dst)*(1*(src))"));
    assert_eq!(
        formula(&dci_p3(), &bt2020).as_deref(),
        Some("inv(dst)*(adapt*(src))")
    );

    // A coordinate without a tristimulus value.
    for i in 0..4 {
        let mut broken = display_p3();
        match i {
            0 => broken.red.y = 0,
            1 => broken.green.y = 0,
            2 => broken.blue.y = 0,
            _ => broken.white.y = 0,
        }
        assert_eq!(formula(&broken, &bt2020), None);
        assert_eq!(formula(&bt2020, &broken), None);
        assert_eq!(formula(&broken, &broken), None);
    }

    // Steps that fail.
    let mut collinear = srgb;
    collinear.red = collinear.green;
    assert_eq!(formula(&collinear, &bt2020), None);
    assert_eq!(formula(&bt2020, &collinear), None);
    assert_eq!(formula(&collinear, &collinear), None);
    let mut singular = bt2020;
    singular.blue.x = 1;
    assert_eq!(formula(&srgb, &singular), None);
    assert_eq!(formula(&singular, &singular), None);
    let mut dark = srgb;
    dark.white.x = 1;
    assert_eq!(formula(&dark, &bt2020), None);
}

#[test]
fn degenerate_chromaticities_have_no_matrix() {
    let zero = coord(0, 0);
    let nothing = Chromaticities {
        red: zero,
        green: zero,
        blue: zero,
        white: zero,
    };
    assert_eq!(gamut_matrix(&nothing, &nothing), None);
    assert_eq!(gamut_matrix(&nothing, &Chromaticities::srgb()), None);
    let point = Chromaticities {
        red: coord(300_000, 300_000),
        green: coord(300_000, 300_000),
        blue: coord(300_000, 300_000),
        white: coord(300_000, 300_000),
    };
    assert_eq!(gamut_matrix(&point, &point), None);
    assert_eq!(gamut_matrix(&display_p3(), &display_p3()), Some(IDENTITY));
}
