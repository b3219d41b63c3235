//! 3x3 matrices and 3-vectors of exact fractions, and the matrices of the
//! IPTPQc4 colour space.
//!
//! A matrix holds integer numerators over one denominator, so products and
//! inverses are exact: the inverse of `M / d` is `d * adj(M) / det(M)`.

use crate::arith::lemma_product_bound;
use vstd::prelude::*;

verus! {

/// Largest absolute value of a numerator, and largest denominator, of a
/// matrix that can be inverted: 2^20.
pub const INVERTIBLE_LIMIT: i128 = 0x10_0000;

/// Largest absolute value of the numerators and of the denominator of a
/// matrix that can be multiplied with a vector: 2^63.
pub const MATRIX_LIMIT: i128 = 0x8000_0000_0000_0000;

/// Largest absolute value of the numerators and of the denominator of a
/// vector that can be multiplied with a matrix: 2^61.
pub const VECTOR_LIMIT: i128 = 0x2000_0000_0000_0000;

/// The matrix whose entry in row `i`, column `j` is `m[i][j] / den`.
#[derive(Debug, Clone, Copy)]
pub struct Matrix3 {
    pub m: [[i128; 3]; 3],
    pub den: i128,
}

/// The vector whose component `i` is `v[i] / den`.
#[derive(Debug, Clone, Copy)]
pub struct Vector3 {
    pub v: [i128; 3],
    pub den: i128,
}

/// The index that follows `i` in the cycle 0, 1, 2.
pub open spec fn after(i: int) -> int {
    if i == 2 {
        0
    } else {
        i + 1
    }
}

impl Matrix3 {
    /// The numerator in row `i`, column `j`.
    pub open spec fn at(self, i: int, j: int) -> int {
        self.m[i][j] as int
    }

    /// Every numerator and the denominator are at most `limit` in absolute
    /// value.
    pub open spec fn within(self, limit: int) -> bool {
        &&& -limit <= self.den <= limit
        &&& forall|i: int, j: int|
            0 <= i < 3 && 0 <= j < 3 ==> -limit <= #[trigger] self.at(i, j) <= limit
    }

    /// Determinant of the numerators.
    pub open spec fn det(self) -> int {
        self.at(0, 0) * (self.at(1, 1) * self.at(2, 2) - self.at(1, 2) * self.at(2, 1)) - self.at(
            0,
            1,
        ) * (self.at(1, 0) * self.at(2, 2) - self.at(1, 2) * self.at(2, 0)) + self.at(0, 2) * (
        self.at(1, 0) * self.at(2, 1) - self.at(1, 1) * self.at(2, 0))
    }

    /// Entry `(i, j)` of the adjugate of the numerators: the cofactor of
    /// entry `(j, i)`.
    pub open spec fn adj(self, i: int, j: int) -> int {
        let (i1, i2) = (after(i), after(after(i)));
        let (j1, j2) = (after(j), after(after(j)));
        self.at(j1, i1) * self.at(j2, i2) - self.at(j1, i2) * self.at(j2, i1)
    }

    /// The matrix can be inverted by `inv_3x3`: its numbers are small
    /// enough and its determinant is not zero.
    pub open spec fn invertible(self) -> bool {
        self.within(INVERTIBLE_LIMIT as int) && self.det() != 0
    }

    /// `self` is the inverse of `other`, numerators `d * adj` over the
    /// determinant.
    pub open spec fn is_inverse_of(self, other: Matrix3) -> bool {
        &&& self.den == other.det()
        &&& forall|i: int, j: int|
            0 <= i < 3 && 0 <= j < 3 ==> #[trigger] self.at(i, j) == other.den * other.adj(i, j)
    }
}

impl Vector3 {
    /// The numerator of component `i`.
    pub open spec fn at(self, i: int) -> int {
        self.v[i] as int
    }

    /// Every numerator and the denominator are at most `limit` in absolute
    /// value.
    pub open spec fn within(self, limit: int) -> bool {
        &&& -limit <= self.den <= limit
        &&& forall|i: int| 0 <= i < 3 ==> -limit <= #[trigger] self.at(i) <= limit
    }
}

/// Numerator of component `i` of the product of `m` and `v`.
pub open spec fn product_at(m: Matrix3, v: Vector3, i: int) -> int {
    m.at(i, 0) * v.at(0) + m.at(i, 1) * v.at(1) + m.at(i, 2) * v.at(2)
}

/// `r` is the product of `m` and `v`.
pub open spec fn is_product(r: Vector3, m: Matrix3, v: Vector3) -> bool {
    &&& r.den == m.den * v.den
    &&& forall|i: int| 0 <= i < 3 ==> #[trigger] r.at(i) == product_at(m, v, i)
}

/// Numerators of the matrix from linear BT.2020 RGB to LMS, in millionths.
pub open spec fn rgb_to_lms_spec() -> Matrix3 {
    Matrix3 {
        m: [[412109, 523925, 63965], [166748, 720459, 112793], [24170, 75440, 900390]],
        den: 1_000_000,
    }
}

/// Numerators of the matrix from PQ-encoded LMS to IPT, in 4096ths.
pub open spec fn lms_pq_to_ipt_spec() -> Matrix3 {
    Matrix3 {
        m: [[2048, 2048, 0], [6610, -13613i128, 7003], [17933, -17390i128, -543i128]],
        den: 4096,
    }
}

/// The matrix from linear BT.2020 RGB to LMS.
pub fn rgb_to_lms() -> (r: Matrix3)
    ensures
        r == rgb_to_lms_spec(),
        r.invertible(),
{
    let r = Matrix3 {
        m: [[412109, 523925, 63965], [166748, 720459, 112793], [24170, 75440, 900390]],
        den: 1_000_000,
    };
    assert(r.within(INVERTIBLE_LIMIT as int));
    assert(r.det() == 186283936345024910) by {
        assert(r.at(0, 0) == 412109 && r.at(0, 1) == 523925 && r.at(0, 2) == 63965);
        assert(r.at(1, 0) == 166748 && r.at(1, 1) == 720459 && r.at(1, 2) == 112793);
        assert(r.at(2, 0) == 24170 && r.at(2, 1) == 75440 && r.at(2, 2) == 900390);
        assert(r.at(1, 1) * r.at(2, 2) - r.at(1, 2) * r.at(2, 1) == 640184975090);
        assert(r.at(1, 0) * r.at(2, 2) - r.at(1, 2) * r.at(2, 0) == 147412024910);
        assert(r.at(1, 0) * r.at(2, 1) - r.at(1, 1) * r.at(2, 0) == -4834024910);
    }
    r
}

/// The matrix from PQ-encoded LMS to IPT.
pub fn lms_pq_to_ipt() -> (r: Matrix3)
    ensures
        r == lms_pq_to_ipt_spec(),
        r.invertible(),
{
    let r = Matrix3 {
        m: [[2048, 2048, 0], [6610, -13613, 7003], [17933, -17390, -543]],
        den: 4096,
    };
    assert(r.within(INVERTIBLE_LIMIT as int));
    assert(r.det() == 529096822784) by {
        assert(r.at(0, 0) == 2048 && r.at(0, 1) == 2048 && r.at(0, 2) == 0);
        assert(r.at(1, 0) == 6610 && r.at(1, 1) == -13613 && r.at(1, 2) == 7003);
        assert(r.at(2, 0) == 17933 && r.at(2, 1) == -17390 && r.at(2, 2) == -543);
        assert(r.at(1, 1) * r.at(2, 2) - r.at(1, 2) * r.at(2, 1) == 129174029);
        assert(r.at(1, 0) * r.at(2, 2) - r.at(1, 2) * r.at(2, 0) == -129174029);
        assert(r.at(1, 0) * r.at(2, 1) - r.at(1, 1) * r.at(2, 0) == 129174029);
    }
    r
}

/// `a * d - b * c` for numerators of an invertible matrix.
fn cofactor(a: i128, d: i128, b: i128, c: i128) -> (r: i128)
    requires
        -INVERTIBLE_LIMIT <= a <= INVERTIBLE_LIMIT,
        -INVERTIBLE_LIMIT <= b <= INVERTIBLE_LIMIT,
        -INVERTIBLE_LIMIT <= c <= INVERTIBLE_LIMIT,
        -INVERTIBLE_LIMIT <= d <= INVERTIBLE_LIMIT,
    ensures
        r == a * d - b * c,
        -0x200_0000_0000 <= r <= 0x200_0000_0000,
{
    proof {
        lemma_product_bound(a as int, d as int, 0x10_0000, 0x10_0000);
        lemma_product_bound(b as int, c as int, 0x10_0000, 0x10_0000);
    }
    a * d - b * c
}

/// `k * c` for a cofactor `c` and a denominator `k` of an invertible matrix.
fn scaled(k: i128, c: i128) -> (r: i128)
    requires
        -INVERTIBLE_LIMIT <= k <= INVERTIBLE_LIMIT,
        -0x200_0000_0000 <= c <= 0x200_0000_0000,
    ensures
        r == k * c,
        -0x2000_0000_0000_0000 <= r <= 0x2000_0000_0000_0000,
{
    proof {
        lemma_product_bound(k as int, c as int, 0x10_0000, 0x200_0000_0000);
    }
    k * c
}

/// Inverts a matrix by Cramer's rule. `None` where the matrix is singular.
pub fn inv_3x3(m: &Matrix3) -> (r: Option<Matrix3>)
    requires
        m.within(INVERTIBLE_LIMIT as int),
    ensures
        r.is_some() == (m.det() != 0),
        r matches Some(inv) ==> inv.is_inverse_of(*m) && inv.within(MATRIX_LIMIT as int),
{
    proof {
        assert(m.at(0, 0) == m.m[0][0] && m.at(0, 1) == m.m[0][1] && m.at(0, 2) == m.m[0][2]);
        assert(m.at(1, 0) == m.m[1][0] && m.at(1, 1) == m.m[1][1] && m.at(1, 2) == m.m[1][2]);
        assert(m.at(2, 0) == m.m[2][0] && m.at(2, 1) == m.m[2][1] && m.at(2, 2) == m.m[2][2]);
    }
    let a: i128 = m.m[0][0];
    let b: i128 = m.m[0][1];
    let c: i128 = m.m[0][2];
    let d: i128 = m.m[1][0];
    let e: i128 = m.m[1][1];
    let f: i128 = m.m[1][2];
    let g: i128 = m.m[2][0];
    let h: i128 = m.m[2][1];
    let k: i128 = m.m[2][2];
    let c00: i128 = cofactor(e, k, f, h);
    let c01: i128 = cofactor(c, h, b, k);
    let c02: i128 = cofactor(b, f, c, e);
    let c10: i128 = cofactor(f, g, d, k);
    let c11: i128 = cofactor(a, k, c, g);
    let c12: i128 = cofactor(c, d, a, f);
    let c20: i128 = cofactor(d, h, e, g);
    let c21: i128 = cofactor(b, g, a, h);
    let c22: i128 = cofactor(a, e, b, d);
    proof {
        lemma_product_bound(a as int, c00 as int, 0x10_0000, 0x200_0000_0000);
        lemma_product_bound(b as int, c10 as int, 0x10_0000, 0x200_0000_0000);
        lemma_product_bound(c as int, c20 as int, 0x10_0000, 0x200_0000_0000);
        assert(b * c10 == -(b * (d * k - f * g))) by (nonlinear_arith)
            requires
                c10 == f * g - d * k,
        ;
    }
    let det: i128 = a * c00 + b * c10 + c * c20;
    assert(det == m.det());
    if det == 0 {
        return None;
    }
    let n: i128 = m.den;
    let inv = Matrix3 {
        m: [
            [scaled(n, c00), scaled(n, c01), scaled(n, c02)],
            [scaled(n, c10), scaled(n, c11), scaled(n, c12)],
            [scaled(n, c20), scaled(n, c21), scaled(n, c22)],
        ],
        den: det,
    };
    proof {
        assert(m.adj(0, 0) == c00);
        assert(m.adj(0, 1) == c01) by (nonlinear_arith)
            requires
                m.adj(0, 1) == h * c - k * b,
                c01 == c * h - b * k,
        ;
        assert(m.adj(0, 2) == c02);
        assert(m.adj(1, 0) == c10) by (nonlinear_arith)
            requires
                m.adj(1, 0) == g * f - d * k,
                c10 == f * g - d * k,
        ;
        assert(m.adj(1, 1) == c11) by (nonlinear_arith)
            requires
                m.adj(1, 1) == k * a - g * c,
                c11 == a * k - c * g,
        ;
        assert(m.adj(1, 2) == c12) by (nonlinear_arith)
            requires
                m.adj(1, 2) == d * c - f * a,
                c12 == c * d - a * f,
        ;
        assert(m.adj(2, 0) == c20);
        assert(m.adj(2, 1) == c21) by (nonlinear_arith)
            requires
                m.adj(2, 1) == g * b - h * a,
                c21 == b * g - a * h,
        ;
        assert(m.adj(2, 2) == c22);
        assert forall|i: int, j: int| 0 <= i < 3 && 0 <= j < 3 implies #[trigger] inv.at(i, j)
            == m.den * m.adj(i, j) && -MATRIX_LIMIT <= inv.at(i, j) <= MATRIX_LIMIT by {
            if i == 0 {
                assert(inv.at(0, j) == inv.m[0][j]);
            } else if i == 1 {
                assert(inv.at(1, j) == inv.m[1][j]);
            } else {
                assert(inv.at(2, j) == inv.m[2][j]);
            }
        }
    }
    Some(inv)
}

/// `-limit <= value <= limit`.
fn bounded(value: i128, limit: i128) -> (r: bool)
    requires
        limit >= 0,
    ensures
        r == (-limit <= value <= limit),
{
    -limit <= value && value <= limit
}

impl Matrix3 {
    /// Whether every numerator and the denominator are at most `limit` in
    /// absolute value.
    pub fn is_within(&self, limit: i128) -> (r: bool)
        requires
            limit >= 0,
        ensures
            r == self.within(limit as int),
    {
        proof {
            assert(self.at(0, 0) == self.m[0][0] && self.at(0, 1) == self.m[0][1] && self.at(0, 2)
                == self.m[0][2]);
            assert(self.at(1, 0) == self.m[1][0] && self.at(1, 1) == self.m[1][1] && self.at(1, 2)
                == self.m[1][2]);
            assert(self.at(2, 0) == self.m[2][0] && self.at(2, 1) == self.m[2][1] && self.at(2, 2)
                == self.m[2][2]);
        }
        bounded(self.den, limit) && bounded(self.m[0][0], limit) && bounded(self.m[0][1], limit)
            && bounded(self.m[0][2], limit) && bounded(self.m[1][0], limit) && bounded(
            self.m[1][1],
            limit,
        ) && bounded(self.m[1][2], limit) && bounded(self.m[2][0], limit) && bounded(
            self.m[2][1],
            limit,
        ) && bounded(self.m[2][2], limit)
    }
}

impl Vector3 {
    /// Whether every numerator and the denominator are at most `limit` in
    /// absolute value.
    pub fn is_within(&self, limit: i128) -> (r: bool)
        requires
            limit >= 0,
        ensures
            r == self.within(limit as int),
    {
        proof {
            assert(self.at(0) == self.v[0] && self.at(1) == self.v[1] && self.at(2) == self.v[2]);
        }
        bounded(self.den, limit) && bounded(self.v[0], limit) && bounded(self.v[1], limit)
            && bounded(self.v[2], limit)
    }
}

/// One component of a matrix-vector product.
fn row_product(m0: i128, m1: i128, m2: i128, v: &Vector3) -> (r: i128)
    requires
        -MATRIX_LIMIT <= m0 <= MATRIX_LIMIT,
        -MATRIX_LIMIT <= m1 <= MATRIX_LIMIT,
        -MATRIX_LIMIT <= m2 <= MATRIX_LIMIT,
        v.within(VECTOR_LIMIT as int),
    ensures
        r == m0 * v.at(0) + m1 * v.at(1) + m2 * v.at(2),
{
    proof {
        assert(-VECTOR_LIMIT <= v.at(0) <= VECTOR_LIMIT);
        assert(-VECTOR_LIMIT <= v.at(1) <= VECTOR_LIMIT);
        assert(-VECTOR_LIMIT <= v.at(2) <= VECTOR_LIMIT);
        lemma_product_bound(
            m0 as int,
            v.at(0),
            0x8000_0000_0000_0000,
            0x2000_0000_0000_0000,
        );
        lemma_product_bound(
            m1 as int,
            v.at(1),
            0x8000_0000_0000_0000,
            0x2000_0000_0000_0000,
        );
        lemma_product_bound(
            m2 as int,
            v.at(2),
            0x8000_0000_0000_0000,
            0x2000_0000_0000_0000,
        );
    }
    m0 * v.v[0] + m1 * v.v[1] + m2 * v.v[2]
}

/// Multiplies a matrix with a vector.
pub fn mat_mul(m: &Matrix3, v: Vector3) -> (r: Vector3)
    requires
        m.within(MATRIX_LIMIT as int),
        v.within(VECTOR_LIMIT as int),
    ensures
        is_product(r, *m, v),
{
    proof {
        assert(m.at(0, 0) == m.m[0][0] && m.at(0, 1) == m.m[0][1] && m.at(0, 2) == m.m[0][2]);
        assert(m.at(1, 0) == m.m[1][0] && m.at(1, 1) == m.m[1][1] && m.at(1, 2) == m.m[1][2]);
        assert(m.at(2, 0) == m.m[2][0] && m.at(2, 1) == m.m[2][1] && m.at(2, 2) == m.m[2][2]);
        lemma_product_bound(
            m.den as int,
            v.den as int,
            0x8000_0000_0000_0000,
            0x2000_0000_0000_0000,
        );
    }
    let r = Vector3 {
        v: [
            row_product(m.m[0][0], m.m[0][1], m.m[0][2], &v),
            row_product(m.m[1][0], m.m[1][1], m.m[1][2], &v),
            row_product(m.m[2][0], m.m[2][1], m.m[2][2], &v),
        ],
        den: m.den * v.den,
    };
    assert(r.at(0) == product_at(*m, v, 0));
    assert(r.at(1) == product_at(*m, v, 1));
    assert(r.at(2) == product_at(*m, v, 2));
    r
}

/// The matrix from IPT to PQ-encoded LMS, the inverse of `lms_pq_to_ipt`.
pub fn ipt_to_lms_pq() -> (r: Matrix3)
    ensures
        r.is_inverse_of(lms_pq_to_ipt_spec()),
        r.den != 0,
        r.within(MATRIX_LIMIT as int),
{
    let m = lms_pq_to_ipt();
    match inv_3x3(&m) {
        Some(inv) => inv,
        None => m,
    }
}

/// The matrix from LMS to linear BT.2020 RGB, the inverse of `rgb_to_lms`.
pub fn lms_to_rgb() -> (r: Matrix3)
    ensures
        r.is_inverse_of(rgb_to_lms_spec()),
        r.den != 0,
        r.within(MATRIX_LIMIT as int),
{
    let m = rgb_to_lms();
    match inv_3x3(&m) {
        Some(inv) => inv,
        None => m,
    }
}

/// Row `i` of the adjugate times column `k` of the matrix is the
/// determinant where `i == k`, and zero elsewhere.
proof fn lemma_adjugate(m: Matrix3, i: int, k: int)
    requires
        0 <= i < 3,
        0 <= k < 3,
    ensures
        m.adj(i, 0) * m.at(0, k) + m.adj(i, 1) * m.at(1, k) + m.adj(i, 2) * m.at(2, k) == if i
            == k {
            m.det()
        } else {
            0
        },
{
    let (a, b, c) = (m.at(0, 0), m.at(0, 1), m.at(0, 2));
    let (d, e, f) = (m.at(1, 0), m.at(1, 1), m.at(1, 2));
    let (g, h, n) = (m.at(2, 0), m.at(2, 1), m.at(2, 2));
    let det = a * (e * n - f * h) - b * (d * n - f * g) + c * (d * h - e * g);
    assert(m.det() == det);
    assert(a * (e * n - f * h) == a * e * n - a * f * h) by (nonlinear_arith);
    assert(b * (d * n - f * g) == b * d * n - b * f * g) by (nonlinear_arith);
    assert(c * (d * h - e * g) == c * d * h - c * e * g) by (nonlinear_arith);
    assert(det == a * e * n - a * f * h - b * d * n + b * f * g + c * d * h - c * e * g);
    if i == 0 {
        assert(m.adj(0, 0) == e * n - f * h);
        assert(m.adj(0, 1) == h * c - n * b);
        assert(m.adj(0, 2) == b * f - c * e);
        if k == 0 {
            assert((e * n - f * h) * a == a * e * n - a * f * h) by (nonlinear_arith);
            assert((h * c - n * b) * d == c * d * h - b * d * n) by (nonlinear_arith);
            assert((b * f - c * e) * g == b * f * g - c * e * g) by (nonlinear_arith);
            assert((e * n - f * h) * a + (h * c - n * b) * d + (b * f - c * e) * g == det);
        } else if k == 1 {
            assert((e * n - f * h) * b + (h * c - n * b) * e + (b * f - c * e) * h == 0)
                by (nonlinear_arith);
        } else {
            assert((e * n - f * h) * c + (h * c - n * b) * f + (b * f - c * e) * n == 0)
                by (nonlinear_arith);
        }
    } else if i == 1 {
        assert(m.adj(1, 0) == m.at(1, 2) * m.at(2, 0) - m.at(1, 0) * m.at(2, 2));
        assert(m.adj(1, 0) == f * g - n * d) by (nonlinear_arith)
            requires
                m.adj(1, 0) == f * g - d * n,
        ;
        assert(m.adj(1, 1) == n * a - g * c);
        assert(m.adj(1, 2) == c * d - a * f);
        if k == 0 {
            assert((f * g - n * d) * a + (n * a - g * c) * d + (c * d - a * f) * g == 0)
                by (nonlinear_arith);
        } else if k == 1 {
            assert((f * g - n * d) * b == b * f * g - b * d * n) by (nonlinear_arith);
            assert((n * a - g * c) * e == a * e * n - c * e * g) by (nonlinear_arith);
            assert((c * d - a * f) * h == c * d * h - a * f * h) by (nonlinear_arith);
            assert((f * g - n * d) * b + (n * a - g * c) * e + (c * d - a * f) * h == det);
        } else {
            assert((f * g - n * d) * c + (n * a - g * c) * f + (c * d - a * f) * n == 0)
                by (nonlinear_arith);
        }
    } else {
        assert(m.adj(2, 0) == d * h - e * g);
        assert(m.adj(2, 1) == g * b - h * a);
        assert(m.adj(2, 2) == a * e - b * d);
        if k == 0 {
            assert((d * h - e * g) * a + (g * b - h * a) * d + (a * e - b * d) * g == 0)
                by (nonlinear_arith);
        } else if k == 1 {
            assert((d * h - e * g) * b + (g * b - h * a) * e + (a * e - b * d) * h == 0)
                by (nonlinear_arith);
        } else {
            assert((d * h - e * g) * c == c * d * h - c * e * g) by (nonlinear_arith);
            assert((g * b - h * a) * f == b * f * g - a * f * h) by (nonlinear_arith);
            assert((a * e - b * d) * n == a * e * n - b * d * n) by (nonlinear_arith);
            assert((d * h - e * g) * c + (g * b - h * a) * f + (a * e - b * d) * n == det);
        }
    }
}

/// A vector taken through a matrix and then through the inverse of that
/// matrix comes back as the same fractions: each numerator of the result,
/// over the result's denominator, equals the numerator it started from over
/// the denominator it started from.
pub proof fn lemma_inverse_round_trip(
    m: Matrix3,
    inv: Matrix3,
    v: Vector3,
    mid: Vector3,
    back: Vector3,
)
    requires
        inv.is_inverse_of(m),
        is_product(mid, m, v),
        is_product(back, inv, mid),
    ensures
        back.den == m.det() * (m.den * v.den),
        forall|i: int| 0 <= i < 3 ==> #[trigger] back.at(i) * v.den == v.at(i) * back.den,
        m.det() != 0 && m.den != 0 && v.den != 0 ==> back.den != 0,
{
    let det = m.det();
    let n = m.den as int;
    assert forall|i: int| 0 <= i < 3 implies #[trigger] back.at(i) == n * (det * v.at(i)) by {
        lemma_round_trip_component(m, inv, v, mid, back, i);
    }
    assert forall|i: int| 0 <= i < 3 implies #[trigger] back.at(i) * v.den == v.at(i)
        * back.den by {
        let x = v.at(i);
        let vd = v.den as int;
        assert((n * (det * x)) * vd == x * (det * (n * vd))) by (nonlinear_arith);
    }
    if det != 0 && n != 0 && v.den != 0 {
        let vd = v.den as int;
        assert(det * (n * vd) != 0) by (nonlinear_arith)
            requires
                det != 0,
                n != 0,
                vd != 0,
        ;
    }
}

/// Component `i` of a vector after the round trip is the component it
/// started from, times the determinant and the denominator of the matrix.
proof fn lemma_round_trip_component(
    m: Matrix3,
    inv: Matrix3,
    v: Vector3,
    mid: Vector3,
    back: Vector3,
    i: int,
)
    requires
        inv.is_inverse_of(m),
        is_product(mid, m, v),
        is_product(back, inv, mid),
        0 <= i < 3,
    ensures
        back.at(i) == m.den * (m.det() * v.at(i)),
{
    let n = m.den as int;
    let (k0, k1, k2) = (m.adj(i, 0), m.adj(i, 1), m.adj(i, 2));
    let (v0, v1, v2) = (v.at(0), v.at(1), v.at(2));
    let (w0, w1, w2) = (mid.at(0), mid.at(1), mid.at(2));
    assert(w0 == product_at(m, v, 0) && w1 == product_at(m, v, 1) && w2 == product_at(m, v, 2));
    assert(back.at(i) == product_at(inv, mid, i));
    assert(inv.at(i, 0) == n * k0 && inv.at(i, 1) == n * k1 && inv.at(i, 2) == n * k2);
    // The sum over the rows of the matrix, for each column.
    let s0 = k0 * m.at(0, 0) + k1 * m.at(1, 0) + k2 * m.at(2, 0);
    let s1 = k0 * m.at(0, 1) + k1 * m.at(1, 1) + k2 * m.at(2, 1);
    let s2 = k0 * m.at(0, 2) + k1 * m.at(1, 2) + k2 * m.at(2, 2);
    lemma_adjugate(m, i, 0);
    lemma_adjugate(m, i, 1);
    lemma_adjugate(m, i, 2);
    lemma_row_times_product(k0, m.at(0, 0), m.at(0, 1), m.at(0, 2), v0, v1, v2);
    lemma_row_times_product(k1, m.at(1, 0), m.at(1, 1), m.at(1, 2), v0, v1, v2);
    lemma_row_times_product(k2, m.at(2, 0), m.at(2, 1), m.at(2, 2), v0, v1, v2);
    let (q00, q01, q02) = (k0 * m.at(0, 0), k0 * m.at(0, 1), k0 * m.at(0, 2));
    let (q10, q11, q12) = (k1 * m.at(1, 0), k1 * m.at(1, 1), k1 * m.at(1, 2));
    let (q20, q21, q22) = (k2 * m.at(2, 0), k2 * m.at(2, 1), k2 * m.at(2, 2));
    assert(s0 * v0 == q00 * v0 + q10 * v0 + q20 * v0) by (nonlinear_arith)
        requires
            s0 == q00 + q10 + q20,
    ;
    assert(s1 * v1 == q01 * v1 + q11 * v1 + q21 * v1) by (nonlinear_arith)
        requires
            s1 == q01 + q11 + q21,
    ;
    assert(s2 * v2 == q02 * v2 + q12 * v2 + q22 * v2) by (nonlinear_arith)
        requires
            s2 == q02 + q12 + q22,
    ;
    assert(k0 * w0 + k1 * w1 + k2 * w2 == s0 * v0 + s1 * v1 + s2 * v2);
    assert(0 * v0 == 0 && 0 * v1 == 0 && 0 * v2 == 0);
    assert(s0 * v0 + s1 * v1 + s2 * v2 == m.det() * v.at(i));
    let (kw0, kw1, kw2) = (k0 * w0, k1 * w1, k2 * w2);
    assert((n * k0) * w0 == n * kw0) by (nonlinear_arith)
        requires
            kw0 == k0 * w0,
    ;
    assert((n * k1) * w1 == n * kw1) by (nonlinear_arith)
        requires
            kw1 == k1 * w1,
    ;
    assert((n * k2) * w2 == n * kw2) by (nonlinear_arith)
        requires
            kw2 == k2 * w2,
    ;
    assert(n * kw0 + n * kw1 + n * kw2 == n * (kw0 + kw1 + kw2)) by (nonlinear_arith);
}

/// `p * (a * x + b * y + c * z)` with `p` moved into each product.
proof fn lemma_row_times_product(p: int, a: int, b: int, c: int, x: int, y: int, z: int)
    ensures
        p * (a * x + b * y + c * z) == (p * a) * x + (p * b) * y + (p * c) * z,
{
    let (t0, t1, t2) = (a * x, b * y, c * z);
    assert(p * (t0 + t1 + t2) == p * t0 + p * t1 + p * t2) by (nonlinear_arith);
    assert(p * (a * x) == (p * a) * x) by (nonlinear_arith);
    assert(p * (b * y) == (p * b) * y) by (nonlinear_arith);
    assert(p * (c * z) == (p * c) * z) by (nonlinear_arith);
}

} // verus!
