use jxl_core::color::{
    JxlColorEncodingRaw, JxlColorProfileRaw, JxlPrimariesRaw, JxlWhitePointRaw,
};
use jxl_core::luminance::{
    fallback_luminances, luminances_from_chromaticities, luminances_from_primaries,
    luminances_from_profile, white_point_chromaticity, Chromaticity, Luminances,
};
use jxl_core::types::{
    JxlColorEncodingTag, JxlColorProfileTag, JxlPrimariesTag, JxlWhitePointTag,
};

fn weights(l: &Luminances) -> [f32; 3] {
    [
        (l.r as f64 / l.den as f64) as f32,
        (l.g as f64 / l.den as f64) as f32,
        (l.b as f64 / l.den as f64) as f32,
    ]
}

fn millionths(x: i32, y: i32) -> Chromaticity {
    Chromaticity { x, y, den: 1_000_000 }
}

fn d65() -> Chromaticity {
    Chromaticity { x: 3127, y: 3290, den: 10000 }
}

fn named(tag: JxlPrimariesTag) -> JxlPrimariesRaw {
    JxlPrimariesRaw { Tag: tag, ..JxlPrimariesRaw::default() }
}

#[test]
fn test_bt2020_luminances() {
    let lum = weights(&luminances_from_primaries(&named(JxlPrimariesTag::Bt2100)));
    assert!((lum[0] - 0.2627).abs() < 1e-4);
    assert!((lum[1] - 0.6780).abs() < 1e-4);
    assert!((lum[2] - 0.0593).abs() < 1e-4);
}

#[test]
fn test_srgb_luminances_from_chromaticities() {
    let lum = weights(&luminances_from_chromaticities(
        millionths(640_000, 330_000),
        millionths(300_000, 600_000),
        millionths(150_000, 60_000),
        d65(),
    ));
    assert!((lum[0] - 0.2126).abs() < 0.002, "R: {}", lum[0]);
    assert!((lum[1] - 0.7152).abs() < 0.002, "G: {}", lum[1]);
    assert!((lum[2] - 0.0722).abs() < 0.002, "B: {}", lum[2]);
}

#[test]
fn named_primaries_have_their_tabulated_weights() {
    assert_eq!(
        luminances_from_primaries(&named(JxlPrimariesTag::Srgb)),
        Luminances { r: 2126, g: 7152, b: 722, den: 10000 }
    );
    assert_eq!(
        luminances_from_primaries(&named(JxlPrimariesTag::P3)),
        Luminances { r: 2290, g: 6917, b: 793, den: 10000 }
    );
    assert_eq!(
        luminances_from_primaries(&named(JxlPrimariesTag::Bt2100)),
        Luminances { r: 2627, g: 6780, b: 593, den: 10000 }
    );
    assert_eq!(fallback_luminances(), Luminances { r: 2627, g: 6780, b: 593, den: 10000 });
}

#[test]
fn derived_weights_are_the_exact_fractions() {
    // Primaries (1,0), (0,1), (0,0) and white (1/3, 1/3): every weight is a third.
    let lum = luminances_from_chromaticities(
        Chromaticity { x: 1, y: 1, den: 2 },
        Chromaticity { x: 1, y: 2, den: 4 },
        Chromaticity { x: 1, y: 1, den: 4 },
        Chromaticity { x: 1, y: 1, den: 3 },
    );
    assert!(lum.den > 0);
    assert_eq!(lum.r + lum.g + lum.b, lum.den);
    // r = (1/2,1/2,0), g = (1/4,1/2,1/4), b = (1/4,1/4,1/2), w = (1/3,1/3,1/3)
    // det3(r,g,b) = 1*(2*2-1*1) - 1*(1*2-1*0) + 1*(1*1-2*0) = 2
    assert_eq!(lum.den, 1 * 2);
    // det3(w,g,b) = 1*(2*2-1*1) - 1*(1*2-1*1) + 1*(1*1-2*1) = 1; times r.y = 1
    assert_eq!(lum.r, 1);
    // det3(r,w,b) = 1*(1*2-1*1) - 1*(1*2-1*0) + 1*(1*1-1*0) = 0; times g.y = 2
    assert_eq!(lum.g, 0);
    // det3(r,g,w) = 1*(2*1-1*1) - 1*(1*1-1*0) + 1*(1*1-2*0) = 1; times b.y = 1
    assert_eq!(lum.b, 1);
}

#[test]
fn bt2020_chromaticities_give_the_bt2020_weights() {
    let lum = weights(&luminances_from_chromaticities(
        millionths(708_000, 292_000),
        millionths(170_000, 797_000),
        millionths(131_000, 46_000),
        d65(),
    ));
    assert!((lum[0] - 0.2627).abs() < 1e-4, "R: {}", lum[0]);
    assert!((lum[1] - 0.6780).abs() < 1e-4, "G: {}", lum[1]);
    assert!((lum[2] - 0.0593).abs() < 1e-4, "B: {}", lum[2]);
}

#[test]
fn weights_sum_to_one() {
    let cases = [
        (millionths(640_000, 330_000), millionths(300_000, 600_000), millionths(150_000, 60_000)),
        (millionths(680_000, 320_000), millionths(265_000, 690_000), millionths(150_000, 60_000)),
        (millionths(708_000, 292_000), millionths(170_000, 797_000), millionths(131_000, 46_000)),
        (millionths(734_700, 265_300), millionths(0, 1_000_000), millionths(100, -77_000)),
    ];
    for (r, g, b) in cases {
        for w in [d65(), Chromaticity { x: 1, y: 1, den: 3 }, Chromaticity { x: 314, y: 351, den: 1000 }] {
            let lum = luminances_from_chromaticities(r, g, b, w);
            assert!(lum.den > 0);
            assert_eq!(lum.r + lum.g + lum.b, lum.den);
        }
    }
}

#[test]
fn degenerate_systems_fall_back_to_bt2020() {
    let fallback = fallback_luminances();
    // a primary on the x axis
    assert_eq!(
        luminances_from_chromaticities(
            millionths(640_000, 0),
            millionths(300_000, 600_000),
            millionths(150_000, 60_000),
            d65(),
        ),
        fallback
    );
    // white point on the x axis
    assert_eq!(
        luminances_from_chromaticities(
            millionths(640_000, 330_000),
            millionths(300_000, 600_000),
            millionths(150_000, 60_000),
            millionths(312_700, 0),
        ),
        fallback
    );
    // two primaries at one point: the determinant is zero
    assert_eq!(
        luminances_from_chromaticities(
            millionths(640_000, 330_000),
            millionths(640_000, 330_000),
            millionths(150_000, 60_000),
            d65(),
        ),
        fallback
    );
    // three primaries on one line
    assert_eq!(
        luminances_from_chromaticities(
            millionths(100_000, 100_000),
            millionths(200_000, 200_000),
            millionths(300_000, 300_000),
            d65(),
        ),
        fallback
    );
    // a coordinate beyond the limit, and a denominator that is not positive
    assert_eq!(
        luminances_from_chromaticities(
            millionths(0x100_0001, 330_000),
            millionths(300_000, 600_000),
            millionths(150_000, 60_000),
            d65(),
        ),
        fallback
    );
    assert_eq!(
        luminances_from_chromaticities(
            Chromaticity { x: 1, y: 1, den: 0 },
            millionths(300_000, 600_000),
            millionths(150_000, 60_000),
            d65(),
        ),
        fallback
    );
}

#[test]
fn a_determinant_just_below_the_threshold_counts_as_degenerate() {
    // Columns (x, y, z) over 2^24: the determinant D is 1 for the first set, and
    // |D| * 1e10 < r.y * g.y * b.y = 2^72 / 64 holds, so the set is degenerate.
    let l = 0x100_0000;
    let a = Chromaticity { x: 1, y: l / 4, den: l };
    let b = Chromaticity { x: 0, y: l / 4, den: l };
    let c = Chromaticity { x: 0, y: l / 4, den: l / 2 };
    // det3 = a.x*(b.y*c.z - c.y*b.z) - ... with b.x = c.x = 0
    let bz = (l - l / 4) as i128;
    let cz = (l / 2 - l / 4) as i128;
    let det = (l as i128 / 4) * cz - (l as i128 / 4) * bz;
    assert!(det.abs() * 10_000_000_000 >= ((l / 4) as i128).pow(3));
    let lum = luminances_from_chromaticities(a, b, c, d65());
    assert!(lum != fallback_luminances());
    // Scaling x down keeps y's product and shrinks the determinant below the threshold.
    let tiny = luminances_from_chromaticities(
        Chromaticity { x: 1, y: l, den: l },
        Chromaticity { x: 0, y: l, den: l },
        Chromaticity { x: 0, y: l - 1, den: l },
        d65(),
    );
    // det3 = 1 * (l * 1 - (l-1) * 0) = l, and l * 1e10 < l^2 * (l - 1)
    assert_eq!(tiny, fallback_luminances());
}

#[test]
fn white_points_have_their_chromaticities() {
    let wp = |tag| JxlWhitePointRaw { Tag: tag, Wx: 345_700, Wy: 358_500 };
    assert_eq!(white_point_chromaticity(&wp(JxlWhitePointTag::D65)), d65());
    assert_eq!(
        white_point_chromaticity(&wp(JxlWhitePointTag::E)),
        Chromaticity { x: 1, y: 1, den: 3 }
    );
    assert_eq!(
        white_point_chromaticity(&wp(JxlWhitePointTag::Dci)),
        Chromaticity { x: 314, y: 351, den: 1000 }
    );
    assert_eq!(
        white_point_chromaticity(&wp(JxlWhitePointTag::Chromaticity)),
        millionths(345_700, 358_500)
    );
}

fn srgb_custom() -> JxlPrimariesRaw {
    JxlPrimariesRaw {
        Tag: JxlPrimariesTag::Chromaticities,
        Rx: 640_000,
        Ry: 330_000,
        Gx: 300_000,
        Gy: 600_000,
        Bx: 150_000,
        By: 60_000,
    }
}

#[test]
fn profile_weights_follow_the_profile() {
    let mut profile = JxlColorProfileRaw::default();
    assert_eq!(profile.Tag, JxlColorProfileTag::Simple);
    assert_eq!(
        luminances_from_profile(&profile),
        Luminances { r: 2126, g: 7152, b: 722, den: 10000 }
    );
    profile.Encoding.Primaries = named(JxlPrimariesTag::P3);
    assert_eq!(
        luminances_from_profile(&profile),
        Luminances { r: 2290, g: 6917, b: 793, den: 10000 }
    );
    // custom primaries are taken under the white point of the profile
    profile.Encoding.Primaries = srgb_custom();
    profile.Encoding.WhitePoint =
        JxlWhitePointRaw { Tag: JxlWhitePointTag::E, Wx: 0, Wy: 0 };
    assert_eq!(
        luminances_from_profile(&profile),
        luminances_from_chromaticities(
            millionths(640_000, 330_000),
            millionths(300_000, 600_000),
            millionths(150_000, 60_000),
            Chromaticity { x: 1, y: 1, den: 3 },
        )
    );
    assert!(luminances_from_profile(&profile) != luminances_from_primaries(&srgb_custom()));
    // grayscale, XYB and ICC profiles get the BT.2020 weights
    for tag in [JxlColorEncodingTag::Grayscale, JxlColorEncodingTag::Xyb] {
        let p = JxlColorProfileRaw {
            Encoding: JxlColorEncodingRaw { Tag: tag, ..profile.Encoding },
            ..profile
        };
        assert_eq!(luminances_from_profile(&p), fallback_luminances());
    }
    let icc = JxlColorProfileRaw { Tag: JxlColorProfileTag::Icc, IccLength: 128, ..profile };
    assert_eq!(luminances_from_profile(&icc), fallback_luminances());
}
