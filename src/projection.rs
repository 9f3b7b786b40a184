//! The orthographic projection from surface pixels to device coordinates.
//!
//! The surface's pixel `(0, 0)` is its top-left corner; x grows to the right
//! and y downwards. Device coordinates run from -1 to 1 with y upwards.
use vstd::prelude::*;

verus! {

/// The rational number `num / den`.
#[derive(Clone, Copy, Debug, PartialEq, Eq, Structural)]
pub struct Ratio {
    pub num: i64,
    pub den: u32,
}

pub open spec fn ratio(num: int, den: int) -> Ratio {
    Ratio { num: num as i64, den: den as u32 }
}

/// The projection of a `width` by `height` surface, row by row: the
/// orthographic matrix for left 0, right `width`, top 0 and bottom
/// `height`, which the shader gets transposed.
pub open spec fn projection_of(width: u32, height: u32) -> Seq<Ratio> {
    seq![
        ratio(2, width as int), ratio(0, 1), ratio(0, 1), ratio(0 - width, width as int),
        ratio(0, 1), ratio(-2, height as int), ratio(0, 1), ratio(height as int, height as int),
        ratio(0, 1), ratio(0, 1), ratio(-1, 1), ratio(0, 1),
        ratio(0, 1), ratio(0, 1), ratio(0, 1), ratio(1, 1),
    ]
}

/// Returns the projection for a surface of `width` by `height` pixels.
pub fn orthographic_projection(width: u32, height: u32) -> (r: Vec<Ratio>)
    ensures
        r@ == projection_of(width, height),
{
    let zero = Ratio { num: 0, den: 1 };
    let minus_w = 0 - width as i64;
    let h = height as i64;
    let r = vec![
        Ratio { num: 2, den: width },
        zero,
        zero,
        Ratio { num: minus_w, den: width },
        zero,
        Ratio { num: -2, den: height },
        zero,
        Ratio { num: h, den: height },
        zero,
        zero,
        Ratio { num: -1, den: 1 },
        zero,
        zero,
        zero,
        zero,
        Ratio { num: 1, den: 1 },
    ];
    assert(r@ =~= projection_of(width, height));
    r
}

/// `scale * p + shift`, as a numerator over a denominator.
pub open spec fn affine_at(scale: Ratio, shift: Ratio, p: int) -> (int, int) {
    (scale.num * p * shift.den + shift.num * scale.den, scale.den * shift.den)
}

/// The projection maps the surface onto the device square: the left edge
/// to -1 and the right edge to 1, the top edge to 1 and the bottom edge to
/// -1 (a numerator equal to minus, or to, its denominator).
pub proof fn lemma_projection_maps_surface(width: u32, height: u32)
    requires
        width > 0,
        height > 0,
    ensures
        ({
            let m = projection_of(width, height);
            &&& affine_at(m[0], m[3], 0).0 == -affine_at(m[0], m[3], 0).1
            &&& affine_at(m[0], m[3], width as int).0 == affine_at(m[0], m[3], width as int).1
            &&& affine_at(m[5], m[7], 0).0 == affine_at(m[5], m[7], 0).1
            &&& affine_at(m[5], m[7], height as int).0 == -affine_at(m[5], m[7], height as int).1
            &&& affine_at(m[0], m[3], 0).1 > 0
            &&& affine_at(m[5], m[7], 0).1 > 0
        }),
{
    let w = width as int;
    let h = height as int;
    let m = projection_of(width, height);
    assert(m[0] == ratio(2, w) && m[3] == ratio(-w, w));
    assert(m[5] == ratio(-2, h) && m[7] == ratio(h, h));
    assert(2 * 0 * w + (-w) * w == -(w * w)) by (nonlinear_arith);
    assert(2 * w * w + (-w) * w == w * w) by (nonlinear_arith);
    assert((-2) * 0 * h + h * h == h * h) by (nonlinear_arith);
    assert((-2) * h * h + h * h == -(h * h)) by (nonlinear_arith);
    assert(w * w > 0) by (nonlinear_arith) requires w > 0;
    assert(h * h > 0) by (nonlinear_arith) requires h > 0;
}

} // verus!
