//! The three weights with which red, green and blue add up to luminance,
//! derived exactly from the chromaticities of the primaries and the white
//! point.
//!
//! With columns `(x, y, z)` for the primaries, `z = 1 - x - y`, the weights
//! are the solution of a 3x3 linear system; by Cramer's rule each weight is
//! `y_i * D_i / (w_y * D)`, where `D` is the determinant of the primaries and
//! `D_i` the same determinant with column `i` replaced by the white point.
//! Everything is computed in integers, so the weights come out as exact
//! fractions over one denominator.

use crate::arith::lemma_product_bound;
use crate::color::{JxlColorProfileRaw, JxlPrimariesRaw, JxlWhitePointRaw};
use crate::types::{JxlColorEncodingTag, JxlColorProfileTag, JxlPrimariesTag, JxlWhitePointTag};
use vstd::prelude::*;

verus! {

/// Largest absolute value of a coordinate, and largest denominator, that
/// the derivation accepts: 2^24.
pub const COORDINATE_LIMIT: i32 = 0x100_0000;

/// Denominator of coordinates given in millionths.
pub const MILLIONTHS: i32 = 1_000_000;

/// The reciprocal of the smallest determinant that counts as regular.
pub const DEGENERACY_SCALE: i128 = 10_000_000_000;

/// The point `(x / den, y / den)` of the CIE xy diagram.
#[derive(Debug, Clone, Copy, PartialEq, Eq, Structural)]
pub struct Chromaticity {
    pub x: i32,
    pub y: i32,
    pub den: i32,
}

/// Luminance weights `r / den`, `g / den` and `b / den`.
#[derive(Debug, Clone, Copy, PartialEq, Eq, Structural)]
pub struct Luminances {
    pub r: i128,
    pub g: i128,
    pub b: i128,
    pub den: i128,
}

/// Weights of the BT.2100 (BT.2020) primaries: 0.2627, 0.6780, 0.0593. They
/// also stand in wherever no weights can be derived.
pub open spec fn bt2100_weights() -> Luminances {
    Luminances { r: 2627, g: 6780, b: 593, den: 10000 }
}

/// Weights of the sRGB (BT.709) primaries: 0.2126, 0.7152, 0.0722.
pub open spec fn srgb_weights() -> Luminances {
    Luminances { r: 2126, g: 7152, b: 722, den: 10000 }
}

/// Weights of the P3 primaries: 0.2290, 0.6917, 0.0793.
pub open spec fn p3_weights() -> Luminances {
    Luminances { r: 2290, g: 6917, b: 793, den: 10000 }
}

/// The D65 white point, (0.3127, 0.3290).
pub open spec fn d65() -> Chromaticity {
    Chromaticity { x: 3127, y: 3290, den: 10000 }
}

/// The equal-energy white point, (1/3, 1/3).
pub open spec fn equal_energy() -> Chromaticity {
    Chromaticity { x: 1, y: 1, den: 3 }
}

/// The DCI white point, (0.314, 0.351).
pub open spec fn dci_white() -> Chromaticity {
    Chromaticity { x: 314, y: 351, den: 1000 }
}

impl Chromaticity {
    /// The coordinates are within what the derivation computes with.
    pub open spec fn usable(self) -> bool {
        &&& 0 < self.den <= COORDINATE_LIMIT
        &&& -COORDINATE_LIMIT <= self.x <= COORDINATE_LIMIT
        &&& -COORDINATE_LIMIT <= self.y <= COORDINATE_LIMIT
    }

    /// The third coordinate, `1 - x - y`, over the same denominator.
    pub open spec fn z(self) -> int {
        self.den - self.x - self.y
    }
}

/// Determinant of the matrix whose columns are `(x, y, z)` of `a`, `b`, `c`.
pub open spec fn det3(a: Chromaticity, b: Chromaticity, c: Chromaticity) -> int {
    a.x * (b.y * c.z() - c.y * b.z()) - b.x * (a.y * c.z() - c.y * a.z()) + c.x * (a.y * b.z()
        - b.y * a.z())
}

pub open spec fn abs(v: int) -> int {
    if v < 0 {
        -v
    } else {
        v
    }
}

/// No weights can be derived: a coordinate is out of range, a `y` is zero,
/// or the determinant of the system, `D / (r_y * g_y * b_y)`, is smaller
/// than 1e-10 in absolute value.
pub open spec fn degenerate(r: Chromaticity, g: Chromaticity, b: Chromaticity, w: Chromaticity)
    -> bool {
    ||| !r.usable()
    ||| !g.usable()
    ||| !b.usable()
    ||| !w.usable()
    ||| r.y == 0
    ||| g.y == 0
    ||| b.y == 0
    ||| w.y == 0
    ||| abs(det3(r, g, b)) * DEGENERACY_SCALE < abs(r.y * g.y * b.y)
}

/// Numerators of the three weights over `weight_den`, before the sign of
/// the denominator is moved into them.
pub open spec fn weight_nums(r: Chromaticity, g: Chromaticity, b: Chromaticity, w: Chromaticity)
    -> (int, int, int) {
    (r.y * det3(w, g, b), g.y * det3(r, w, b), b.y * det3(r, g, w))
}

/// The common denominator of the three weights.
pub open spec fn weight_den(r: Chromaticity, g: Chromaticity, b: Chromaticity, w: Chromaticity)
    -> int {
    w.y * det3(r, g, b)
}

/// The weights that primaries `r`, `g`, `b` have under white point `w`,
/// over a positive denominator; the BT.2100 weights where none can be
/// derived.
pub open spec fn luminances_spec(
    r: Chromaticity,
    g: Chromaticity,
    b: Chromaticity,
    w: Chromaticity,
) -> Luminances {
    if degenerate(r, g, b, w) {
        bt2100_weights()
    } else {
        let n = weight_nums(r, g, b, w);
        let d = weight_den(r, g, b, w);
        if d < 0 {
            Luminances { r: (-n.0) as i128, g: (-n.1) as i128, b: (-n.2) as i128, den: (-d) as i128 }
        } else {
            Luminances { r: n.0 as i128, g: n.1 as i128, b: n.2 as i128, den: d as i128 }
        }
    }
}

/// The chromaticity that a white point stands for.
pub open spec fn white_point_spec(wp: JxlWhitePointRaw) -> Chromaticity {
    match wp.Tag {
        JxlWhitePointTag::D65 => d65(),
        JxlWhitePointTag::E => equal_energy(),
        JxlWhitePointTag::Dci => dci_white(),
        JxlWhitePointTag::Chromaticity => Chromaticity { x: wp.Wx, y: wp.Wy, den: MILLIONTHS },
    }
}

/// The weights of a set of primaries under the D65 white point.
pub open spec fn primaries_spec(p: JxlPrimariesRaw) -> Luminances {
    match p.Tag {
        JxlPrimariesTag::Bt2100 => bt2100_weights(),
        JxlPrimariesTag::Srgb => srgb_weights(),
        JxlPrimariesTag::P3 => p3_weights(),
        JxlPrimariesTag::Chromaticities => luminances_spec(
            Chromaticity { x: p.Rx, y: p.Ry, den: MILLIONTHS },
            Chromaticity { x: p.Gx, y: p.Gy, den: MILLIONTHS },
            Chromaticity { x: p.Bx, y: p.By, den: MILLIONTHS },
            d65(),
        ),
    }
}

/// The weights that belong to a colour profile: those of its primaries
/// where it is a structured RGB encoding (custom primaries under the
/// profile's own white point), else those of BT.2100.
pub open spec fn profile_spec(profile: JxlColorProfileRaw) -> Luminances {
    if profile.Tag == JxlColorProfileTag::Simple && profile.Encoding.Tag
        == JxlColorEncodingTag::Rgb {
        let p = profile.Encoding.Primaries;
        if p.Tag == JxlPrimariesTag::Chromaticities {
            luminances_spec(
                Chromaticity { x: p.Rx, y: p.Ry, den: MILLIONTHS },
                Chromaticity { x: p.Gx, y: p.Gy, den: MILLIONTHS },
                Chromaticity { x: p.Bx, y: p.By, den: MILLIONTHS },
                white_point_spec(profile.Encoding.WhitePoint),
            )
        } else {
            primaries_spec(p)
        }
    } else {
        bt2100_weights()
    }
}

/// `a * d - b * c` for entries of a chromaticity column.
fn minor(a: i128, d: i128, b: i128, c: i128) -> (r: i128)
    requires
        -0x100_0000 <= a <= 0x100_0000,
        -0x100_0000 <= b <= 0x100_0000,
        -0x300_0000 <= c <= 0x300_0000,
        -0x300_0000 <= d <= 0x300_0000,
    ensures
        r == a * d - b * c,
        -0x6_0000_0000_0000 <= r <= 0x6_0000_0000_0000,
{
    proof {
        lemma_product_bound(a as int, d as int, 0x100_0000, 0x300_0000);
        lemma_product_bound(b as int, c as int, 0x100_0000, 0x300_0000);
    }
    a * d - b * c
}

/// The determinant of three chromaticity columns.
fn determinant(a: Chromaticity, b: Chromaticity, c: Chromaticity) -> (r: i128)
    requires
        a.usable(),
        b.usable(),
        c.usable(),
    ensures
        r == det3(a, b, c),
        -0x12_0000_0000_0000_0000_0000 <= r <= 0x12_0000_0000_0000_0000_0000,
{
    let ax: i128 = a.x as i128;
    let ay: i128 = a.y as i128;
    let az: i128 = a.den as i128 - ax - ay;
    let bx: i128 = b.x as i128;
    let by: i128 = b.y as i128;
    let bz: i128 = b.den as i128 - bx - by;
    let cx: i128 = c.x as i128;
    let cy: i128 = c.y as i128;
    let cz: i128 = c.den as i128 - cx - cy;
    let m0: i128 = minor(by, cz, cy, bz);
    let m1: i128 = minor(ay, cz, cy, az);
    let m2: i128 = minor(ay, bz, by, az);
    proof {
        lemma_product_bound(ax as int, m0 as int, 0x100_0000, 0x6_0000_0000_0000);
        lemma_product_bound(bx as int, m1 as int, 0x100_0000, 0x6_0000_0000_0000);
        lemma_product_bound(cx as int, m2 as int, 0x100_0000, 0x6_0000_0000_0000);
    }
    ax * m0 - bx * m1 + cx * m2
}

fn in_range(c: Chromaticity) -> (r: bool)
    ensures
        r == c.usable(),
{
    0 < c.den && c.den <= COORDINATE_LIMIT && -COORDINATE_LIMIT <= c.x && c.x <= COORDINATE_LIMIT
        && -COORDINATE_LIMIT <= c.y && c.y <= COORDINATE_LIMIT
}

fn magnitude(v: i128) -> (r: i128)
    requires
        v > i128::MIN,
    ensures
        r == abs(v as int),
{
    if v < 0 {
        -v
    } else {
        v
    }
}

/// The BT.2100 weights.
pub fn fallback_luminances() -> (r: Luminances)
    ensures
        r == bt2100_weights(),
{
    Luminances { r: 2627, g: 6780, b: 593, den: 10000 }
}

/// Derives the luminance weights of the primaries `r`, `g`, `b` under the
/// white point `w`.
pub fn luminances_from_chromaticities(
    r: Chromaticity,
    g: Chromaticity,
    b: Chromaticity,
    w: Chromaticity,
) -> (lum: Luminances)
    ensures
        lum == luminances_spec(r, g, b, w),
        lum.den > 0,
        lum.r + lum.g + lum.b == lum.den,
{
    if !in_range(r) || !in_range(g) || !in_range(b) || !in_range(w) {
        return fallback_luminances();
    }
    if r.y == 0 || g.y == 0 || b.y == 0 || w.y == 0 {
        return fallback_luminances();
    }
    let ry: i128 = r.y as i128;
    let gy: i128 = g.y as i128;
    let by: i128 = b.y as i128;
    let wy: i128 = w.y as i128;
    let det: i128 = determinant(r, g, b);
    proof {
        lemma_product_bound(ry as int, gy as int, 0x100_0000, 0x100_0000);
        lemma_product_bound(ry * gy, by as int, 0x1_0000_0000_0000, 0x100_0000);
        lemma_product_bound(
            abs(det as int),
            DEGENERACY_SCALE as int,
            0x12_0000_0000_0000_0000_0000,
            10_000_000_000,
        );
        assert(ry * gy * by == r.y * g.y * b.y) by (nonlinear_arith)
            requires
                ry == r.y,
                gy == g.y,
                by == b.y,
        ;
    }
    let ys: i128 = ry * gy * by;
    if magnitude(det) * DEGENERACY_SCALE < magnitude(ys) {
        return fallback_luminances();
    }
    assert(!degenerate(r, g, b, w));
    let dr: i128 = determinant(w, g, b);
    let dg: i128 = determinant(r, w, b);
    let db: i128 = determinant(r, g, w);
    proof {
        lemma_product_bound(ry as int, dr as int, 0x100_0000, 0x12_0000_0000_0000_0000_0000);
        lemma_product_bound(gy as int, dg as int, 0x100_0000, 0x12_0000_0000_0000_0000_0000);
        lemma_product_bound(by as int, db as int, 0x100_0000, 0x12_0000_0000_0000_0000_0000);
        lemma_product_bound(wy as int, det as int, 0x100_0000, 0x12_0000_0000_0000_0000_0000);
        lemma_weights_sum(r, g, b, w);
        lemma_regular_denominator(r, g, b, w);
    }
    let nr: i128 = ry * dr;
    let ng: i128 = gy * dg;
    let nb: i128 = by * db;
    let den: i128 = wy * det;
    if den < 0 {
        Luminances { r: -nr, g: -ng, b: -nb, den: -den }
    } else {
        Luminances { r: nr, g: ng, b: nb, den }
    }
}

/// A factor moved into the second place of a product.
proof fn lemma_factor_inwards(k: int, x: int, m: int)
    ensures
        k * (x * m) == x * (k * m),
{
    assert(k * (x * m) == x * (k * m)) by (nonlinear_arith);
}

/// A factor distributed over `x1 * m1 - x2 * m2 + x3 * m3`, into the second
/// place of each product.
proof fn lemma_scaled_sum(k: int, x1: int, m1: int, x2: int, m2: int, x3: int, m3: int)
    ensures
        k * (x1 * m1 - x2 * m2 + x3 * m3) == x1 * (k * m1) - x2 * (k * m2) + x3 * (k * m3),
{
    let (p, q, r) = (x1 * m1, x2 * m2, x3 * m3);
    assert(k * (p - q + r) == k * p - k * q + k * r) by (nonlinear_arith);
    lemma_factor_inwards(k, x1, m1);
    lemma_factor_inwards(k, x2, m2);
    lemma_factor_inwards(k, x3, m3);
}

/// The three numerators add up to the denominator: the weights of any
/// primaries under any white point sum to one.
pub proof fn lemma_weights_sum(r: Chromaticity, g: Chromaticity, b: Chromaticity, w: Chromaticity)
    ensures
        weight_nums(r, g, b, w).0 + weight_nums(r, g, b, w).1 + weight_nums(r, g, b, w).2
            == weight_den(r, g, b, w),
{
    let (rx, ry, rz) = (r.x as int, r.y as int, r.z());
    let (gx, gy, gz) = (g.x as int, g.y as int, g.z());
    let (bx, by, bz) = (b.x as int, b.y as int, b.z());
    let (wx, wy, wz) = (w.x as int, w.y as int, w.z());
    // The 2x2 minors of the rows y and z.
    let m_gb = gy * bz - by * gz;
    let m_rb = ry * bz - by * rz;
    let m_rg = ry * gz - gy * rz;
    let m_wb = wy * bz - by * wz;
    let m_wg = wy * gz - gy * wz;
    let m_rw = ry * wz - wy * rz;
    // Expanding a determinant with two equal rows along the repeated row.
    assert(ry * m_gb - gy * m_rb + by * m_rg == 0) by (nonlinear_arith)
        requires
            m_gb == gy * bz - by * gz,
            m_rb == ry * bz - by * rz,
            m_rg == ry * gz - gy * rz,
    ;
    assert(gy * m_wb - by * m_wg == wy * m_gb) by (nonlinear_arith)
        requires
            m_gb == gy * bz - by * gz,
            m_wb == wy * bz - by * wz,
            m_wg == wy * gz - gy * wz,
    ;
    assert(ry * m_wb + by * m_rw == wy * m_rb) by (nonlinear_arith)
        requires
            m_rb == ry * bz - by * rz,
            m_wb == wy * bz - by * wz,
            m_rw == ry * wz - wy * rz,
    ;
    assert(ry * m_wg + gy * m_rw == wy * m_rg) by (nonlinear_arith)
        requires
            m_rg == ry * gz - gy * rz,
            m_wg == wy * gz - gy * wz,
            m_rw == ry * wz - wy * rz,
    ;
    let d_r = wx * m_gb - gx * m_wb + bx * m_wg;
    let d_g = rx * m_wb - wx * m_rb + bx * m_rw;
    let d_b = -(rx * m_wg) - gx * m_rw + wx * m_rg;
    let d = rx * m_gb - gx * m_rb + bx * m_rg;
    assert(det3(w, g, b) == d_r);
    assert(det3(r, w, b) == d_g);
    assert(det3(r, g, w) == d_b) by (nonlinear_arith)
        requires
            det3(r, g, w) == rx * (gy * wz - wy * gz) - gx * (ry * wz - wy * rz) + wx * (ry * gz
                - gy * rz),
            d_b == -(rx * m_wg) - gx * m_rw + wx * m_rg,
            m_rg == ry * gz - gy * rz,
            m_wg == wy * gz - gy * wz,
            m_rw == ry * wz - wy * rz,
    ;
    assert(det3(r, g, b) == d);
    // Each weighted determinant, written over the products of a `y` and a minor.
    let (a1, a2, a3) = (ry * m_gb, ry * m_wb, ry * m_wg);
    let (b1, b2, b3) = (gy * m_wb, gy * m_rb, gy * m_rw);
    let (c1, c2, c3) = (by * m_wg, by * m_rw, by * m_rg);
    lemma_scaled_sum(ry, wx, m_gb, gx, m_wb, bx, m_wg);
    assert(ry * d_r == wx * a1 - gx * a2 + bx * a3);
    lemma_scaled_sum(gy, rx, m_wb, wx, m_rb, bx, m_rw);
    assert(gy * d_g == rx * b1 - wx * b2 + bx * b3);
    lemma_scaled_sum(by, wx, m_rg, gx, m_rw, -rx, m_wg);
    assert((-rx) * m_wg == -(rx * m_wg)) by (nonlinear_arith);
    assert((-rx) * c1 == -(rx * c1)) by (nonlinear_arith);
    assert(by * d_b == -(rx * c1) - gx * c2 + wx * c3);
    // Collected by the x coordinate that each term holds.
    assert(wx * a1 - wx * b2 + wx * c3 == wx * (a1 - b2 + c3)) by (nonlinear_arith);
    assert(rx * b1 - rx * c1 == rx * (b1 - c1)) by (nonlinear_arith);
    assert(gx * a2 + gx * c2 == gx * (a2 + c2)) by (nonlinear_arith);
    assert(bx * a3 + bx * b3 == bx * (a3 + b3)) by (nonlinear_arith);
    assert(wx * (a1 - b2 + c3) == 0) by (nonlinear_arith)
        requires
            a1 - b2 + c3 == 0,
    ;
    let (e1, e2, e3) = (wy * m_gb, wy * m_rb, wy * m_rg);
    assert(rx * e1 == wy * (rx * m_gb)) by (nonlinear_arith)
        requires
            e1 == wy * m_gb,
    ;
    assert(gx * e2 == wy * (gx * m_rb)) by (nonlinear_arith)
        requires
            e2 == wy * m_rb,
    ;
    assert(bx * e3 == wy * (bx * m_rg)) by (nonlinear_arith)
        requires
            e3 == wy * m_rg,
    ;
    let (f1, f2, f3) = (rx * m_gb, gx * m_rb, bx * m_rg);
    assert(wy * f1 - wy * f2 + wy * f3 == wy * (f1 - f2 + f3)) by (nonlinear_arith);
    assert(ry * d_r + gy * d_g + by * d_b == wy * d);
}

/// Where the system is not degenerate its denominator is not zero.
proof fn lemma_regular_denominator(
    r: Chromaticity,
    g: Chromaticity,
    b: Chromaticity,
    w: Chromaticity,
)
    requires
        !degenerate(r, g, b, w),
    ensures
        weight_den(r, g, b, w) != 0,
{
    let ys = r.y * g.y * b.y;
    assert(ys != 0) by (nonlinear_arith)
        requires
            ys == r.y * g.y * b.y,
            r.y != 0,
            g.y != 0,
            b.y != 0,
    ;
    let d = det3(r, g, b);
    assert(d != 0) by {
        if d == 0 {
            assert(abs(d) * DEGENERACY_SCALE == 0);
        }
    }
    assert(w.y * d != 0) by (nonlinear_arith)
        requires
            w.y != 0,
            d != 0,
    ;
}

/// The chromaticity of a white point.
pub fn white_point_chromaticity(wp: &JxlWhitePointRaw) -> (r: Chromaticity)
    ensures
        r == white_point_spec(*wp),
{
    match wp.Tag {
        JxlWhitePointTag::D65 => Chromaticity { x: 3127, y: 3290, den: 10000 },
        JxlWhitePointTag::E => Chromaticity { x: 1, y: 1, den: 3 },
        JxlWhitePointTag::Dci => Chromaticity { x: 314, y: 351, den: 1000 },
        JxlWhitePointTag::Chromaticity => Chromaticity { x: wp.Wx, y: wp.Wy, den: MILLIONTHS },
    }
}

/// The luminance weights of a set of primaries; custom primaries are taken
/// under the D65 white point.
pub fn luminances_from_primaries(primaries: &JxlPrimariesRaw) -> (lum: Luminances)
    ensures
        lum == primaries_spec(*primaries),
        lum.den > 0,
        lum.r + lum.g + lum.b == lum.den,
{
    match primaries.Tag {
        JxlPrimariesTag::Bt2100 => Luminances { r: 2627, g: 6780, b: 593, den: 10000 },
        JxlPrimariesTag::Srgb => Luminances { r: 2126, g: 7152, b: 722, den: 10000 },
        JxlPrimariesTag::P3 => Luminances { r: 2290, g: 6917, b: 793, den: 10000 },
        JxlPrimariesTag::Chromaticities => luminances_from_chromaticities(
            Chromaticity { x: primaries.Rx, y: primaries.Ry, den: MILLIONTHS },
            Chromaticity { x: primaries.Gx, y: primaries.Gy, den: MILLIONTHS },
            Chromaticity { x: primaries.Bx, y: primaries.By, den: MILLIONTHS },
            Chromaticity { x: 3127, y: 3290, den: 10000 },
        ),
    }
}

/// The luminance weights that go with a colour profile. ICC profiles and
/// encodings that are not RGB get the BT.2100 weights.
pub fn luminances_from_profile(profile: &JxlColorProfileRaw) -> (lum: Luminances)
    ensures
        lum == profile_spec(*profile),
        lum.den > 0,
        lum.r + lum.g + lum.b == lum.den,
{
    match (profile.Tag, profile.Encoding.Tag) {
        (JxlColorProfileTag::Simple, JxlColorEncodingTag::Rgb) => {
            let p = profile.Encoding.Primaries;
            match p.Tag {
                JxlPrimariesTag::Chromaticities => {
                    let w = white_point_chromaticity(&profile.Encoding.WhitePoint);
                    luminances_from_chromaticities(
                        Chromaticity { x: p.Rx, y: p.Ry, den: MILLIONTHS },
                        Chromaticity { x: p.Gx, y: p.Gy, den: MILLIONTHS },
                        Chromaticity { x: p.Bx, y: p.By, den: MILLIONTHS },
                        w,
                    )
                },
                _ => luminances_from_primaries(&p),
            }
        },
        _ => fallback_luminances(),
    }
}

} // verus!
