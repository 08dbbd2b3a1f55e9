//! Inverting a paint placement into a GPU sampling matrix.
//!
//! A gradient or bitmap paint is authored in its own space and placed into
//! shape space by an affine transform. A shader samples the paint the other
//! way around, so it needs the algebraic inverse of that placement,
//! renormalized so the paint's native coordinate convention lands in the
//! unit UV square. The inversion and renormalization are carried out in
//! exact rational arithmetic; a degenerate placement (zero determinant) is
//! reported instead of silently producing unusable values.

use vstd::prelude::*;

verus! {

use crate::rational::{
    frac_add, frac_eq, frac_mul, lemma_frac_add_congruence, lemma_frac_eq_trans,
    lemma_frac_mul_congruence, lemma_mul_in_range, lemma_nonzero_mul, lemma_pos_mul_pos, Frac,
    Rational,
};
use crate::units::{Fixed16, Twips};

/// A 2D affine placement of paint space into shape space: 16.16 fixed-point
/// linear components and a twips translation, mapping a paint-space point
/// `(x, y)` to `(scale_x * x + rotate_skew_1 * y + tx, rotate_skew_0 * x +
/// scale_y * y + ty)` in twips.
#[derive(Clone, Copy, PartialEq, Eq, Structural, Debug)]
pub struct AffineTransform {
    pub scale_x: Fixed16,
    pub scale_y: Fixed16,
    pub rotate_skew_0: Fixed16,
    pub rotate_skew_1: Fixed16,
    pub translate_x: Twips,
    pub translate_y: Twips,
}

impl AffineTransform {
    pub open spec fn sx(self) -> int {
        self.scale_x.raw as int
    }

    pub open spec fn sy(self) -> int {
        self.scale_y.raw as int
    }

    pub open spec fn r0(self) -> int {
        self.rotate_skew_0.raw as int
    }

    pub open spec fn r1(self) -> int {
        self.rotate_skew_1.raw as int
    }

    pub open spec fn tx(self) -> int {
        self.translate_x.raw as int
    }

    pub open spec fn ty(self) -> int {
        self.translate_y.raw as int
    }

    /// Determinant of the linear part, over the raw fixed-point integers.
    /// The real determinant is this value divided by `65536 * 65536`; in
    /// particular it is zero exactly when this value is zero.
    pub open spec fn det(self) -> int {
        self.sx() * self.sy() - self.r1() * self.r0()
    }

    /// Raw numerator of the inverse image of the translation, x component:
    /// the inverse map sends a shape-space point to paint space with
    /// translation `65536 * inv_tx_num / det` (before renormalization).
    pub open spec fn inv_tx_num(self) -> int {
        -(self.tx() * self.sy() - self.r1() * self.ty())
    }

    /// Raw numerator of the inverse image of the translation, y component.
    pub open spec fn inv_ty_num(self) -> int {
        self.tx() * self.r0() - self.sx() * self.ty()
    }
}

/// The placement is not invertible: its linear part has determinant zero,
/// as when a paint is scaled to zero on an axis. The caller chooses a
/// fallback (skip the fill, or substitute an identity placement).
#[derive(Clone, Copy, PartialEq, Eq, Structural, Debug)]
pub struct DegenerateTransform;

/// The exact inverse of a placement, before renormalization: the inverse
/// map sends a shape-space point `(px, py)` (in twips) to the paint-space
/// point `(a * px + b * py + c, d * px + e * py + f)`.
pub struct LinearInverse {
    pub a: Rational,
    pub b: Rational,
    pub c: Rational,
    pub d: Rational,
    pub e: Rational,
    pub f: Rational,
}

impl LinearInverse {
    /// The six cells hold the exact inverse of `t`.
    pub open spec fn is_inverse_of(self, t: AffineTransform) -> bool {
        &&& self.a.wf() && self.a.is_frac(65536 * t.sy(), t.det())
        &&& self.b.wf() && self.b.is_frac(-65536 * t.r1(), t.det())
        &&& self.c.wf() && self.c.is_frac(65536 * t.inv_tx_num(), t.det())
        &&& self.d.wf() && self.d.is_frac(-65536 * t.r0(), t.det())
        &&& self.e.wf() && self.e.is_frac(65536 * t.sx(), t.det())
        &&& self.f.wf() && self.f.is_frac(65536 * t.inv_ty_num(), t.det())
    }

    /// Magnitude envelopes that renormalization relies on to stay inside
    /// `i128`.
    pub open spec fn bounded(self) -> bool {
        &&& in_cell_range(self.a)
        &&& in_cell_range(self.b)
        &&& in_cell_range(self.c)
        &&& in_cell_range(self.d)
        &&& in_cell_range(self.e)
        &&& in_cell_range(self.f)
    }
}

/// Envelope for a pre-renormalization cell.
pub open spec fn in_cell_range(r: Rational) -> bool {
    &&& -0x1_0000_0000_0000_0000_0000 <= r.num <= 0x1_0000_0000_0000_0000_0000
    &&& 0 < r.den <= 0x8000_0000_0000_0000
}

/// Inverts the linear part of a placement and carries the translation
/// through, exactly. Fails exactly on a degenerate placement.
pub fn invert_linear(t: &AffineTransform) -> (r: Option<LinearInverse>)
    ensures
        r is Some <==> t.det() != 0,
        r matches Some(inv) ==> inv.is_inverse_of(*t) && inv.bounded(),
{
    let sx: i128 = t.scale_x.raw as i128;
    let sy: i128 = t.scale_y.raw as i128;
    let r0: i128 = t.rotate_skew_0.raw as i128;
    let r1: i128 = t.rotate_skew_1.raw as i128;
    let tx: i128 = t.translate_x.raw as i128;
    let ty: i128 = t.translate_y.raw as i128;
    proof {
        lemma_mul_in_range(sx as int, sy as int, 0x8000_0000, 0x8000_0000);
        lemma_mul_in_range(r1 as int, r0 as int, 0x8000_0000, 0x8000_0000);
        lemma_mul_in_range(tx as int, sy as int, 0x8000_0000, 0x8000_0000);
        lemma_mul_in_range(r1 as int, ty as int, 0x8000_0000, 0x8000_0000);
        lemma_mul_in_range(tx as int, r0 as int, 0x8000_0000, 0x8000_0000);
        lemma_mul_in_range(sx as int, ty as int, 0x8000_0000, 0x8000_0000);
    }
    let det: i128 = sx * sy - r1 * r0;
    if det == 0 {
        None
    } else {
        let neg_w: i128 = -(tx * sy - r1 * ty);
        let v: i128 = tx * r0 - sx * ty;
        let inv = LinearInverse {
            a: Rational::new(65536 * sy, det),
            b: Rational::new(65536 * (-r1), det),
            c: Rational::new(65536 * neg_w, det),
            d: Rational::new(65536 * (-r0), det),
            e: Rational::new(65536 * sx, det),
            f: Rational::new(65536 * v, det),
        };
        Some(inv)
    }
}

/// The 4x4 carrier for the GPU uniform layout, column-major: columns hold
/// `[a, d, 0, 0]`, `[b, e, 0, 0]`, `[c, f, 1, 0]`, `[0, 0, 0, 0]`, where
/// `(a, b, d, e)` is the renormalized inverse linear part and `(c, f)` the
/// renormalized inverse translation. The bottom row is fixed at zero: the
/// matrix is a 2D-affine carrier, not a projective transform.
#[derive(Clone, Copy, PartialEq, Eq, Debug)]
pub struct RenderMatrix {
    pub cols: [[Rational; 4]; 4],
}

impl RenderMatrix {
    /// The structural cells have their fixed values.
    pub open spec fn carrier_wf(self) -> bool {
        &&& self.cols[0][2] == (Rational { num: 0, den: 1 })
        &&& self.cols[0][3] == (Rational { num: 0, den: 1 })
        &&& self.cols[1][2] == (Rational { num: 0, den: 1 })
        &&& self.cols[1][3] == (Rational { num: 0, den: 1 })
        &&& self.cols[2][2] == (Rational { num: 1, den: 1 })
        &&& self.cols[2][3] == (Rational { num: 0, den: 1 })
        &&& self.cols[3][0] == (Rational { num: 0, den: 1 })
        &&& self.cols[3][1] == (Rational { num: 0, den: 1 })
        &&& self.cols[3][2] == (Rational { num: 0, den: 1 })
        &&& self.cols[3][3] == (Rational { num: 0, den: 1 })
    }

    /// The matrix samples a gradient paint: it is the inverse of `t`,
    /// rescaled by `20 / 32768` on the linear part, and with the
    /// translation divided by `32768` and recentred by one half, so the
    /// symmetric gradient square lands on the unit UV square.
    pub open spec fn is_gradient_inverse_of(self, t: AffineTransform) -> bool {
        &&& self.carrier_wf()
        &&& self.cols[0][0].wf() && self.cols[0][0].is_frac(40 * t.sy(), t.det())
        &&& self.cols[1][0].wf() && self.cols[1][0].is_frac(-40 * t.r1(), t.det())
        &&& self.cols[0][1].wf() && self.cols[0][1].is_frac(-40 * t.r0(), t.det())
        &&& self.cols[1][1].wf() && self.cols[1][1].is_frac(40 * t.sx(), t.det())
        &&& self.cols[2][0].wf() && self.cols[2][0].is_frac(
            t.det() + 4 * t.inv_tx_num(),
            2 * t.det(),
        )
        &&& self.cols[2][1].wf() && self.cols[2][1].is_frac(
            t.det() + 4 * t.inv_ty_num(),
            2 * t.det(),
        )
    }

    /// The matrix samples a bitmap paint of the given pixel dimensions: it
    /// is the inverse of `t` with the x row divided by the width and the y
    /// row divided by the height (each after the twips-to-pixels factor of
    /// twenty), with no recentring.
    pub open spec fn is_bitmap_inverse_of(self, t: AffineTransform, width: u32, height: u32) -> bool {
        &&& self.carrier_wf()
        &&& self.cols[0][0].wf() && self.cols[0][0].is_frac(
            20 * 65536 * t.sy(),
            t.det() * width,
        )
        &&& self.cols[1][0].wf() && self.cols[1][0].is_frac(
            -20 * 65536 * t.r1(),
            t.det() * width,
        )
        &&& self.cols[0][1].wf() && self.cols[0][1].is_frac(
            -20 * 65536 * t.r0(),
            t.det() * height,
        )
        &&& self.cols[1][1].wf() && self.cols[1][1].is_frac(
            20 * 65536 * t.sx(),
            t.det() * height,
        )
        &&& self.cols[2][0].wf() && self.cols[2][0].is_frac(
            65536 * t.inv_tx_num(),
            t.det() * width,
        )
        &&& self.cols[2][1].wf() && self.cols[2][1].is_frac(
            65536 * t.inv_ty_num(),
            t.det() * height,
        )
    }
}

/// How an inverse placement is renormalized for a particular paint
/// convention: the linear cells of each row are rescaled by `linear_num`
/// over the row's divisor, and the translation cells are divided by their
/// divisor and shifted by the recentring offset.
pub struct NormalizationPolicy {
    pub linear_num: i128,
    pub linear_den_x: i128,
    pub linear_den_y: i128,
    pub translate_den_x: i128,
    pub translate_den_y: i128,
    pub offset_num: i128,
    pub offset_den: i128,
}

impl NormalizationPolicy {
    pub open spec fn wf(self) -> bool {
        &&& 0 <= self.linear_num <= 0x1_0000_0000
        &&& 1 <= self.linear_den_x <= 0x1_0000_0000
        &&& 1 <= self.linear_den_y <= 0x1_0000_0000
        &&& 1 <= self.translate_den_x <= 0x1_0000_0000
        &&& 1 <= self.translate_den_y <= 0x1_0000_0000
        &&& 0 <= self.offset_num <= 1
        &&& 1 <= self.offset_den <= 2
    }
}

/// Applies a normalization policy to an inverse placement and assembles the
/// 4x4 carrier.
pub fn renormalize(inv: &LinearInverse, pol: &NormalizationPolicy) -> (m: RenderMatrix)
    requires
        inv.bounded(),
        pol.wf(),
    ensures
        m.carrier_wf(),
        m.cols[0][0].wf() && m.cols[0][0].num == inv.a.num * pol.linear_num && m.cols[0][0].den
            == inv.a.den * pol.linear_den_x,
        m.cols[1][0].wf() && m.cols[1][0].num == inv.b.num * pol.linear_num && m.cols[1][0].den
            == inv.b.den * pol.linear_den_x,
        m.cols[0][1].wf() && m.cols[0][1].num == inv.d.num * pol.linear_num && m.cols[0][1].den
            == inv.d.den * pol.linear_den_y,
        m.cols[1][1].wf() && m.cols[1][1].num == inv.e.num * pol.linear_num && m.cols[1][1].den
            == inv.e.den * pol.linear_den_y,
        m.cols[2][0].wf() && m.cols[2][0].num == inv.c.num * pol.offset_den + pol.offset_num * (
        inv.c.den * pol.translate_den_x) && m.cols[2][0].den == (inv.c.den * pol.translate_den_x)
            * pol.offset_den,
        m.cols[2][1].wf() && m.cols[2][1].num == inv.f.num * pol.offset_den + pol.offset_num * (
        inv.f.den * pol.translate_den_y) && m.cols[2][1].den == (inv.f.den * pol.translate_den_y)
            * pol.offset_den,
{
    let zero = Rational::zero();
    let one = Rational::one();
    let a = inv.a.scaled(pol.linear_num, pol.linear_den_x);
    let b = inv.b.scaled(pol.linear_num, pol.linear_den_x);
    let d = inv.d.scaled(pol.linear_num, pol.linear_den_y);
    let e = inv.e.scaled(pol.linear_num, pol.linear_den_y);
    let c = inv.c.div_offset(pol.translate_den_x, pol.offset_num, pol.offset_den);
    let f = inv.f.div_offset(pol.translate_den_y, pol.offset_num, pol.offset_den);
    RenderMatrix {
        cols: [
            [a, d, zero, zero],
            [b, e, zero, zero],
            [c, f, one, zero],
            [zero, zero, zero, zero],
        ],
    }
}

/// Rescaling a linear cell by `20 / 32768` turns the exact inverse value
/// `65536 * s / det` into `40 * s / det`.
proof fn lemma_gradient_linear(rn: int, rd: int, s: int, det: int)
    by (nonlinear_arith)
    requires
        det != 0,
        rn * det == (65536 * s) * rd,
    ensures
        (rn * 20) * det == (40 * s) * (rd * 32768),
{
}

/// Dividing a translation cell by `32768` and recentring by one half turns
/// the exact inverse value `65536 * wv / det` into
/// `(det + 4 * wv) / (2 * det)`.
proof fn lemma_gradient_translate(cn: int, cd: int, wv: int, det: int)
    by (nonlinear_arith)
    requires
        det != 0,
        cn * det == (65536 * wv) * cd,
    ensures
        (cn * 2 + cd * 32768) * (2 * det) == (det + 4 * wv) * ((cd * 32768) * 2),
{
}

/// Rescaling a linear cell by `20 / dim` turns the exact inverse value
/// `65536 * s / det` into `20 * 65536 * s / (det * dim)`.
proof fn lemma_bitmap_linear_neg(rn: int, rd: int, s: int, det: int, dim: int)
    by (nonlinear_arith)
    requires
        det != 0,
        dim >= 1,
        rn * det == (-65536 * s) * rd,
    ensures
        (rn * 20) * (det * dim) == (-20 * 65536 * s) * (rd * dim),
        det * dim != 0,
{
}

/// The same rescaling for a cell whose exact value is negated.
proof fn lemma_bitmap_linear(rn: int, rd: int, s: int, det: int, dim: int)
    by (nonlinear_arith)
    requires
        det != 0,
        dim >= 1,
        rn * det == (65536 * s) * rd,
    ensures
        (rn * 20) * (det * dim) == ((20 * 65536) * s) * (rd * dim),
        det * dim != 0,
{
}

/// Dividing a translation cell by `dim` turns the exact inverse value
/// `65536 * wv / det` into `65536 * wv / (det * dim)`.
proof fn lemma_bitmap_translate(cn: int, cd: int, wv: int, det: int, dim: int)
    by (nonlinear_arith)
    requires
        det != 0,
        dim >= 1,
        cn * det == (65536 * wv) * cd,
    ensures
        cn * (det * dim) == (65536 * wv) * (cd * dim),
        det * dim != 0,
{
}

/// Produces the matrix a shader uses to sample a gradient paint placed by
/// `transform`: the inverse of the placement, renormalized so the gradient
/// square (a symmetric square of half-size 16384 twips in paint space)
/// lands on the unit UV square. Fails exactly when the placement is
/// degenerate.
pub fn invert_paint_transform_fixed(transform: &AffineTransform) -> (r: Result<
    RenderMatrix,
    DegenerateTransform,
>)
    ensures
        r is Ok <==> transform.det() != 0,
        r matches Ok(m) ==> m.is_gradient_inverse_of(*transform),
{
    match invert_linear(transform) {
        None => Err(DegenerateTransform),
        Some(inv) => {
            let pol = NormalizationPolicy {
                linear_num: 20,
                linear_den_x: 32768,
                linear_den_y: 32768,
                translate_den_x: 32768,
                translate_den_y: 32768,
                offset_num: 1,
                offset_den: 2,
            };
            let m = renormalize(&inv, &pol);
            proof {
                let t = *transform;
                lemma_gradient_linear(inv.a.num as int, inv.a.den as int, t.sy(), t.det());
                lemma_gradient_linear(inv.b.num as int, inv.b.den as int, -t.r1(), t.det());
                lemma_gradient_linear(inv.d.num as int, inv.d.den as int, -t.r0(), t.det());
                lemma_gradient_linear(inv.e.num as int, inv.e.den as int, t.sx(), t.det());
                lemma_gradient_translate(
                    inv.c.num as int,
                    inv.c.den as int,
                    t.inv_tx_num(),
                    t.det(),
                );
                lemma_gradient_translate(
                    inv.f.num as int,
                    inv.f.den as int,
                    t.inv_ty_num(),
                    t.det(),
                );
            }
            Ok(m)
        },
    }
}

/// Produces the matrix a shader uses to sample a bitmap paint of the given
/// pixel dimensions placed by `transform`: the inverse of the placement,
/// renormalized per axis so the bitmap's `[0, width] x [0, height]` pixel
/// space lands on the unit UV square. Fails exactly when the placement is
/// degenerate.
pub fn invert_paint_transform_bitmap(
    transform: &AffineTransform,
    bitmap_width: u32,
    bitmap_height: u32,
) -> (r: Result<RenderMatrix, DegenerateTransform>)
    requires
        bitmap_width >= 1,
        bitmap_height >= 1,
    ensures
        r is Ok <==> transform.det() != 0,
        r matches Ok(m) ==> m.is_bitmap_inverse_of(*transform, bitmap_width, bitmap_height),
{
    match invert_linear(transform) {
        None => Err(DegenerateTransform),
        Some(inv) => {
            let pol = NormalizationPolicy {
                linear_num: 20,
                linear_den_x: bitmap_width as i128,
                linear_den_y: bitmap_height as i128,
                translate_den_x: bitmap_width as i128,
                translate_den_y: bitmap_height as i128,
                offset_num: 0,
                offset_den: 1,
            };
            let m = renormalize(&inv, &pol);
            proof {
                let t = *transform;
                let w = bitmap_width as int;
                let h = bitmap_height as int;
                lemma_bitmap_linear(inv.a.num as int, inv.a.den as int, t.sy(), t.det(), w);
                lemma_bitmap_linear_neg(inv.b.num as int, inv.b.den as int, t.r1(), t.det(), w);
                lemma_bitmap_linear_neg(inv.d.num as int, inv.d.den as int, t.r0(), t.det(), h);
                lemma_bitmap_linear(inv.e.num as int, inv.e.den as int, t.sx(), t.det(), h);
                lemma_bitmap_translate(
                    inv.c.num as int,
                    inv.c.den as int,
                    t.inv_tx_num(),
                    t.det(),
                    w,
                );
                lemma_bitmap_translate(
                    inv.f.num as int,
                    inv.f.den as int,
                    t.inv_ty_num(),
                    t.det(),
                    h,
                );
            }
            Ok(m)
        },
    }
}

/// A linear sampling cell with its renormalization undone: scaled back by
/// `dim / 20`.
pub open spec fn denormalized_linear(cell: Rational, dim: int) -> Frac {
    Frac { num: cell.num * dim, den: cell.den * 20 }
}

/// A translation sampling cell with its renormalization undone: scaled back
/// by `dim`.
pub open spec fn denormalized_translate(cell: Rational, dim: int) -> Frac {
    Frac { num: cell.num * dim, den: cell.den as int }
}

/// Composing a denormalized row of the sampling matrix with a column of the
/// forward linear part: cells `a, b` holding `20 * 65536 * ua / (det * dim)`
/// and `20 * 65536 * ub / (det * dim)` give
/// `a * (p / 65536) + b * (q / 65536) == res` whenever
/// `ua * p + ub * q == det * res`.
proof fn lemma_compose_linear_pair(
    a: Rational,
    b: Rational,
    ua: int,
    ub: int,
    p: int,
    q: int,
    det: int,
    dim: int,
    res: int,
)
    requires
        det != 0,
        dim >= 1,
        a.wf() && a.is_frac(20 * 65536 * ua, det * dim),
        b.wf() && b.is_frac(20 * 65536 * ub, det * dim),
        ua * p + ub * q == det * res,
    ensures
        frac_eq(
            frac_add(
                frac_mul(denormalized_linear(a, dim), (Frac { num: p, den: 65536 })),
                frac_mul(denormalized_linear(b, dim), (Frac { num: q, den: 65536 })),
            ),
            (Frac { num: res, den: 1 }),
        ),
{
    let axc = denormalized_linear(a, dim);
    let bxc = denormalized_linear(b, dim);
    let ax0 = Frac { num: 65536 * ua, den: det };
    let bx0 = Frac { num: 65536 * ub, den: det };
    let fp = Frac { num: p, den: 65536 };
    let fq = Frac { num: q, den: 65536 };

    // Each denormalized cell equals the exact inverse entry over `det`.
    assert((a.num * dim) * det == (65536 * ua) * (a.den * 20)) by (nonlinear_arith)
        requires
            a.num * (det * dim) == (20 * 65536 * ua) * a.den,
    ;
    assert((b.num * dim) * det == (65536 * ub) * (b.den * 20)) by (nonlinear_arith)
        requires
            b.num * (det * dim) == (20 * 65536 * ub) * b.den,
    ;

    lemma_frac_mul_congruence(axc.num, axc.den, ax0.num, ax0.den, fp.num, fp.den, fp.num, fp.den);
    lemma_frac_mul_congruence(bxc.num, bxc.den, bx0.num, bx0.den, fq.num, fq.den, fq.num, fq.den);
    let m1 = frac_mul(axc, fp);
    let m2 = frac_mul(bxc, fq);
    let m1x = frac_mul(ax0, fp);
    let m2x = frac_mul(bx0, fq);
    lemma_frac_add_congruence(m1.num, m1.den, m1x.num, m1x.den, m2.num, m2.den, m2x.num, m2x.den);
    let s = frac_add(m1, m2);
    let s0 = frac_add(m1x, m2x);

    // The exact entries compose to the target value.
    assert(((65536 * ua) * p) * (det * 65536) == (65536 * 65536) * ((ua * p) * det))
        by (nonlinear_arith);
    assert(((65536 * ub) * q) * (det * 65536) == (65536 * 65536) * ((ub * q) * det))
        by (nonlinear_arith);
    assert((65536 * 65536) * ((ua * p) * det) + (65536 * 65536) * ((ub * q) * det) == (65536
        * 65536) * ((ua * p + ub * q) * det)) by (nonlinear_arith);
    assert((65536 * 65536) * ((det * res) * det) == res * ((det * 65536) * (det * 65536)))
        by (nonlinear_arith);
    assert(s0.num == res * s0.den);

    // Denominators along the way are nonzero.
    lemma_pos_mul_pos(a.den as int, 20);
    lemma_pos_mul_pos(b.den as int, 20);
    lemma_pos_mul_pos(axc.den, fp.den);
    lemma_pos_mul_pos(bxc.den, fq.den);
    lemma_pos_mul_pos(m1.den, m2.den);
    lemma_nonzero_mul(det, 65536);
    lemma_nonzero_mul(m1x.den, m2x.den);

    lemma_frac_eq_trans(s.num, s.den, s0.num, s0.den, res, 1);
}

/// Composing a denormalized row with the forward translation `(p, q)` in
/// twips and adding the row's denormalized translation cell gives zero
/// whenever `ua * p + ub * q + g == 0`.
proof fn lemma_compose_translate(
    a: Rational,
    b: Rational,
    c: Rational,
    ua: int,
    ub: int,
    g: int,
    p: int,
    q: int,
    det: int,
    dim: int,
)
    requires
        det != 0,
        dim >= 1,
        a.wf() && a.is_frac(20 * 65536 * ua, det * dim),
        b.wf() && b.is_frac(20 * 65536 * ub, det * dim),
        c.wf() && c.is_frac(65536 * g, det * dim),
        ua * p + ub * q + g == 0,
    ensures
        frac_eq(
            frac_add(
                frac_add(
                    frac_mul(denormalized_linear(a, dim), (Frac { num: p, den: 1 })),
                    frac_mul(denormalized_linear(b, dim), (Frac { num: q, den: 1 })),
                ),
                denormalized_translate(c, dim),
            ),
            (Frac { num: 0, den: 1 }),
        ),
{
    let axc = denormalized_linear(a, dim);
    let bxc = denormalized_linear(b, dim);
    let cxc = denormalized_translate(c, dim);
    let ax0 = Frac { num: 65536 * ua, den: det };
    let bx0 = Frac { num: 65536 * ub, den: det };
    let cx0 = Frac { num: 65536 * g, den: det };
    let fp = Frac { num: p, den: 1 };
    let fq = Frac { num: q, den: 1 };

    // Each denormalized cell equals the exact inverse entry over `det`.
    assert((a.num * dim) * det == (65536 * ua) * (a.den * 20)) by (nonlinear_arith)
        requires
            a.num * (det * dim) == (20 * 65536 * ua) * a.den,
    ;
    assert((b.num * dim) * det == (65536 * ub) * (b.den * 20)) by (nonlinear_arith)
        requires
            b.num * (det * dim) == (20 * 65536 * ub) * b.den,
    ;
    assert((c.num * dim) * det == (65536 * g) * (c.den as int)) by (nonlinear_arith)
        requires
            c.num * (det * dim) == (65536 * g) * c.den,
    ;

    lemma_frac_mul_congruence(axc.num, axc.den, ax0.num, ax0.den, fp.num, fp.den, fp.num, fp.den);
    lemma_frac_mul_congruence(bxc.num, bxc.den, bx0.num, bx0.den, fq.num, fq.den, fq.num, fq.den);
    let m1 = frac_mul(axc, fp);
    let m2 = frac_mul(bxc, fq);
    let m1x = frac_mul(ax0, fp);
    let m2x = frac_mul(bx0, fq);
    lemma_frac_add_congruence(m1.num, m1.den, m1x.num, m1x.den, m2.num, m2.den, m2x.num, m2x.den);
    let s = frac_add(m1, m2);
    let s0 = frac_add(m1x, m2x);
    lemma_frac_add_congruence(s.num, s.den, s0.num, s0.den, cxc.num, cxc.den, cx0.num, cx0.den);
    let u = frac_add(s, cxc);
    let u0 = frac_add(s0, cx0);

    // The exact row maps the forward translation back to zero.
    assert(((65536 * ua) * p) * (det * 1) == 65536 * ((ua * p) * det)) by (nonlinear_arith);
    assert(((65536 * ub) * q) * (det * 1) == 65536 * ((ub * q) * det)) by (nonlinear_arith);
    assert(65536 * ((ua * p) * det) + 65536 * ((ub * q) * det) == 65536 * ((ua * p + ub * q)
        * det)) by (nonlinear_arith);
    assert((ua * p + ub * q) * det == (-g) * det);
    assert(s0.num == 65536 * ((-g) * det));
    assert(s0.den == (det * 1) * (det * 1));
    assert((65536 * ((-g) * det)) * det + (65536 * g) * ((det * 1) * (det * 1)) == 0)
        by (nonlinear_arith);
    assert(u0.num == 0);

    // Denominators along the way are nonzero.
    lemma_pos_mul_pos(a.den as int, 20);
    lemma_pos_mul_pos(b.den as int, 20);
    lemma_pos_mul_pos(axc.den, fp.den);
    lemma_pos_mul_pos(bxc.den, fq.den);
    lemma_pos_mul_pos(m1.den, m2.den);
    lemma_pos_mul_pos(s.den, cxc.den);
    lemma_nonzero_mul(det, 1);
    lemma_nonzero_mul(m1x.den, m2x.den);
    lemma_nonzero_mul(s0.den, cx0.den);

    lemma_frac_eq_trans(u.num, u.den, u0.num, u0.den, 0, 1);
}

/// Law: the matrix produced for a bitmap paint inverts the placement. Undo
/// the renormalization (scale the x row of the sampling matrix back by
/// `width / 20`, the y row by `height / 20`, and each translation cell by
/// its row's dimension): then composing the result with the forward
/// placement is the identity map. The first four clauses say the composed
/// linear part is the identity matrix; the last two say the forward
/// translation `(tx, ty)` is mapped back to zero, so every paint-space
/// point returns to itself.
pub proof fn lemma_bitmap_inverse_round_trip(
    t: AffineTransform,
    m: RenderMatrix,
    width: u32,
    height: u32,
)
    requires
        t.det() != 0,
        width >= 1,
        height >= 1,
        m.is_bitmap_inverse_of(t, width, height),
    ensures
        frac_eq(
            frac_add(
                frac_mul(
                    denormalized_linear(m.cols[0][0], width as int),
                    (Frac { num: t.sx(), den: 65536 }),
                ),
                frac_mul(
                    denormalized_linear(m.cols[1][0], width as int),
                    (Frac { num: t.r0(), den: 65536 }),
                ),
            ),
            (Frac { num: 1, den: 1 }),
        ),
        frac_eq(
            frac_add(
                frac_mul(
                    denormalized_linear(m.cols[0][0], width as int),
                    (Frac { num: t.r1(), den: 65536 }),
                ),
                frac_mul(
                    denormalized_linear(m.cols[1][0], width as int),
                    (Frac { num: t.sy(), den: 65536 }),
                ),
            ),
            (Frac { num: 0, den: 1 }),
        ),
        frac_eq(
            frac_add(
                frac_mul(
                    denormalized_linear(m.cols[0][1], height as int),
                    (Frac { num: t.sx(), den: 65536 }),
                ),
                frac_mul(
                    denormalized_linear(m.cols[1][1], height as int),
                    (Frac { num: t.r0(), den: 65536 }),
                ),
            ),
            (Frac { num: 0, den: 1 }),
        ),
        frac_eq(
            frac_add(
                frac_mul(
                    denormalized_linear(m.cols[0][1], height as int),
                    (Frac { num: t.r1(), den: 65536 }),
                ),
                frac_mul(
                    denormalized_linear(m.cols[1][1], height as int),
                    (Frac { num: t.sy(), den: 65536 }),
                ),
            ),
            (Frac { num: 1, den: 1 }),
        ),
        frac_eq(
            frac_add(
                frac_add(
                    frac_mul(
                        denormalized_linear(m.cols[0][0], width as int),
                        (Frac { num: t.tx(), den: 1 }),
                    ),
                    frac_mul(
                        denormalized_linear(m.cols[1][0], width as int),
                        (Frac { num: t.ty(), den: 1 }),
                    ),
                ),
                denormalized_translate(m.cols[2][0], width as int),
            ),
            (Frac { num: 0, den: 1 }),
        ),
        frac_eq(
            frac_add(
                frac_add(
                    frac_mul(
                        denormalized_linear(m.cols[0][1], height as int),
                        (Frac { num: t.tx(), den: 1 }),
                    ),
                    frac_mul(
                        denormalized_linear(m.cols[1][1], height as int),
                        (Frac { num: t.ty(), den: 1 }),
                    ),
                ),
                denormalized_translate(m.cols[2][1], height as int),
            ),
            (Frac { num: 0, den: 1 }),
        ),
{
    let w = width as int;
    let h = height as int;

    // The negated cells match the generic row shape.
    assert((20 * 65536 * (-t.r1())) * m.cols[1][0].den == (-20 * 65536 * t.r1())
        * m.cols[1][0].den) by (nonlinear_arith);
    assert((20 * 65536 * (-t.r0())) * m.cols[0][1].den == (-20 * 65536 * t.r0())
        * m.cols[0][1].den) by (nonlinear_arith);

    // The algebraic identities behind each composition.
    assert(t.sy() * t.sx() + (-t.r1()) * t.r0() == t.det() * 1) by (nonlinear_arith)
        requires
            t.det() == t.sx() * t.sy() - t.r1() * t.r0(),
    ;
    assert(t.sy() * t.r1() + (-t.r1()) * t.sy() == t.det() * 0) by (nonlinear_arith);
    assert((-t.r0()) * t.sx() + t.sx() * t.r0() == t.det() * 0) by (nonlinear_arith);
    assert((-t.r0()) * t.r1() + t.sx() * t.sy() == t.det() * 1) by (nonlinear_arith)
        requires
            t.det() == t.sx() * t.sy() - t.r1() * t.r0(),
    ;
    assert(t.sy() * t.tx() + (-t.r1()) * t.ty() + t.inv_tx_num() == 0) by (nonlinear_arith)
        requires
            t.inv_tx_num() == -(t.tx() * t.sy() - t.r1() * t.ty()),
    ;
    assert((-t.r0()) * t.tx() + t.sx() * t.ty() + t.inv_ty_num() == 0) by (nonlinear_arith)
        requires
            t.inv_ty_num() == t.tx() * t.r0() - t.sx() * t.ty(),
    ;

    lemma_compose_linear_pair(
        m.cols[0][0],
        m.cols[1][0],
        t.sy(),
        -t.r1(),
        t.sx(),
        t.r0(),
        t.det(),
        w,
        1,
    );
    lemma_compose_linear_pair(
        m.cols[0][0],
        m.cols[1][0],
        t.sy(),
        -t.r1(),
        t.r1(),
        t.sy(),
        t.det(),
        w,
        0,
    );
    lemma_compose_linear_pair(
        m.cols[0][1],
        m.cols[1][1],
        -t.r0(),
        t.sx(),
        t.sx(),
        t.r0(),
        t.det(),
        h,
        0,
    );
    lemma_compose_linear_pair(
        m.cols[0][1],
        m.cols[1][1],
        -t.r0(),
        t.sx(),
        t.r1(),
        t.sy(),
        t.det(),
        h,
        1,
    );
    lemma_compose_translate(
        m.cols[0][0],
        m.cols[1][0],
        m.cols[2][0],
        t.sy(),
        -t.r1(),
        t.inv_tx_num(),
        t.tx(),
        t.ty(),
        t.det(),
        w,
    );
    lemma_compose_translate(
        m.cols[0][1],
        m.cols[1][1],
        m.cols[2][1],
        -t.r0(),
        t.sx(),
        t.inv_ty_num(),
        t.tx(),
        t.ty(),
        t.det(),
        h,
    );
}

} // verus!
