//! Geometry of the drawing primitives.
//!
//! A quad (a filled rectangle or a textured image) is six vertices, two
//! triangles, each vertex a corner of the unit square: the corner `(ux, uy)`
//! of the rectangle at `(x, y)` with extents `(w, h)` lies at
//! `(x + ux * w, y + uy * h)`, and its texture coordinate is `(ux, uy)`.
//!
//! A fan (a circle, a polygon, a quarter circle) is an apex followed by
//! samples on a circle of the given radius around the apex; each sample is an
//! angle, given exactly as a fraction of a full turn.
use vstd::prelude::*;
use vstd::arithmetic::mul::{lemma_mul_inequality, lemma_mul_inequality_converse};

verus! {

/// A corner of the unit square; each coordinate is 0 or 1.
#[derive(Clone, Copy, Debug, PartialEq, Eq, Structural)]
pub struct UnitCorner {
    pub ux: u8,
    pub uy: u8,
}

/// An angle of `num / den` full turns, that is `2 * pi * num / den` radians.
#[derive(Clone, Copy, Debug, PartialEq, Eq, Structural)]
pub struct Turn {
    pub num: u64,
    pub den: u64,
}

/// The corner of a rectangle that a quarter circle rounds.
#[derive(Clone, Copy, Debug, PartialEq, Eq, Structural)]
pub enum Corner {
    TopLeft,
    TopRight,
    BottomLeft,
    BottomRight,
}

pub open spec fn corner(ux: u8, uy: u8) -> UnitCorner {
    UnitCorner { ux, uy }
}

/// The six corners of a quad, in drawing order: the triangles
/// (0,0) (1,0) (0,1) and (1,0) (1,1) (0,1).
pub open spec fn quad_layout() -> Seq<UnitCorner> {
    seq![corner(0, 0), corner(1, 0), corner(0, 1), corner(1, 0), corner(1, 1), corner(0, 1)]
}

/// Returns the corners of a quad, in the order in which they are drawn.
pub fn quad_corners() -> (r: Vec<UnitCorner>)
    ensures
        r@ == quad_layout(),
{
    let r = vec![
        UnitCorner { ux: 0, uy: 0 },
        UnitCorner { ux: 1, uy: 0 },
        UnitCorner { ux: 0, uy: 1 },
        UnitCorner { ux: 1, uy: 0 },
        UnitCorner { ux: 1, uy: 1 },
        UnitCorner { ux: 0, uy: 1 },
    ];
    assert(r@ =~= quad_layout());
    r
}


/// A quad corner placed on the rectangle at `(x, y)` with extents `(w, h)`.
pub open spec fn place(c: UnitCorner, x: int, y: int, w: int, h: int) -> (int, int) {
    (x + c.ux * w, y + c.uy * h)
}

/// Twice the signed area of the triangle `o a b`: positive when the turn from
/// `o a` to `o b` is counter-clockwise.
pub open spec fn cross(o: (int, int), a: (int, int), b: (int, int)) -> int {
    (a.0 - o.0) * (b.1 - o.1) - (a.1 - o.1) * (b.0 - o.0)
}

/// The point `p` lies in the counter-clockwise triangle `a b c` or on its edges.
pub open spec fn ccw_contains(a: (int, int), b: (int, int), c: (int, int), p: (int, int)) -> bool {
    cross(a, b, p) >= 0 && cross(b, c, p) >= 0 && cross(c, a, p) >= 0
}

/// The `k`-th triangle (0 or 1) of the quad on the rectangle `(x, y, w, h)`
/// contains `p`.
pub open spec fn quad_triangle_contains(k: int, x: int, y: int, w: int, h: int, p: (int, int)) -> bool {
    ccw_contains(
        place(quad_layout()[3 * k], x, y, w, h),
        place(quad_layout()[3 * k + 1], x, y, w, h),
        place(quad_layout()[3 * k + 2], x, y, w, h),
        p,
    )
}

/// The point `p` lies strictly inside the counter-clockwise triangle `a b c`.
pub open spec fn ccw_strictly_contains(a: (int, int), b: (int, int), c: (int, int), p: (int, int)) -> bool {
    cross(a, b, p) > 0 && cross(b, c, p) > 0 && cross(c, a, p) > 0
}

/// The `k`-th triangle (0 or 1) of the quad on the rectangle `(x, y, w, h)`
/// holds `p` in its interior.
pub open spec fn quad_triangle_strictly_contains(k: int, x: int, y: int, w: int, h: int, p: (int, int)) -> bool {
    ccw_strictly_contains(
        place(quad_layout()[3 * k], x, y, w, h),
        place(quad_layout()[3 * k + 1], x, y, w, h),
        place(quad_layout()[3 * k + 2], x, y, w, h),
        p,
    )
}

pub open spec fn in_box(x: int, y: int, w: int, h: int, p: (int, int)) -> bool {
    x <= p.0 <= x + w && y <= p.1 <= y + h
}

/// The two triangles of a quad are both counter-clockwise, and together they
/// cover exactly the rectangle `[x, x + w] x [y, y + h]`: a point lies in one
/// of them if and only if it lies in the rectangle. Their interiors are
/// disjoint: no point lies strictly inside both. Coordinates are integers
/// here; any rational rectangle and point scale to such.
pub proof fn lemma_quad_covers_box(x: int, y: int, w: int, h: int, p: (int, int))
    requires
        w > 0,
        h > 0,
    ensures
        cross(place(quad_layout()[0], x, y, w, h), place(quad_layout()[1], x, y, w, h),
            place(quad_layout()[2], x, y, w, h)) > 0,
        cross(place(quad_layout()[3], x, y, w, h), place(quad_layout()[4], x, y, w, h),
            place(quad_layout()[5], x, y, w, h)) > 0,
        in_box(x, y, w, h, p) <==> (quad_triangle_contains(0, x, y, w, h, p)
            || quad_triangle_contains(1, x, y, w, h, p)),
        !(quad_triangle_strictly_contains(0, x, y, w, h, p)
            && quad_triangle_strictly_contains(1, x, y, w, h, p)),
{
    let dx = p.0 - x;
    let dy = p.1 - y;
    assert(quad_layout()[0] == corner(0, 0));
    assert(quad_layout()[1] == corner(1, 0));
    assert(quad_layout()[2] == corner(0, 1));
    assert(quad_layout()[3] == corner(1, 0));
    assert(quad_layout()[4] == corner(1, 1));
    assert(quad_layout()[5] == corner(0, 1));
    assert(w * h > 0) by (nonlinear_arith)
        requires w > 0, h > 0;
    assert(0 * w == 0 && 1 * w == w && 0 * h == 0 && 1 * h == h) by (nonlinear_arith);
    assert((x + w - x) * (y + h - y) - (y - y) * (x - x) == w * h) by (nonlinear_arith);
    assert((x + w - (x + w)) * (y + h - y) - (y + h - y) * (x - (x + w)) == w * h)
        by (nonlinear_arith);
    assert(place(corner(0, 0), x, y, w, h) == (x, y));
    assert(place(corner(1, 0), x, y, w, h) == (x + w, y));
    assert(place(corner(0, 1), x, y, w, h) == (x, y + h));
    assert(place(corner(1, 1), x, y, w, h) == (x + w, y + h));
    assert((x + w - x) * (p.1 - y) - (y - y) * (p.0 - x) == w * dy) by (nonlinear_arith)
        requires dy == p.1 - y;
    assert((x - (x + w)) * (p.1 - y) - (y + h - y) * (p.0 - (x + w)) == w * h - h * dx - w * dy)
        by (nonlinear_arith)
        requires dx == p.0 - x, dy == p.1 - y;
    assert((x - x) * (p.1 - (y + h)) - (y - (y + h)) * (p.0 - x) == h * dx) by (nonlinear_arith)
        requires dx == p.0 - x;
    assert((x + w - (x + w)) * (p.1 - y) - (y + h - y) * (p.0 - (x + w)) == h * (w - dx))
        by (nonlinear_arith)
        requires dx == p.0 - x;
    assert((x - (x + w)) * (p.1 - (y + h)) - (y + h - (y + h)) * (p.0 - (x + w)) == w * (h - dy))
        by (nonlinear_arith)
        requires dy == p.1 - y;
    assert((x + w - x) * (p.1 - (y + h)) - (y - (y + h)) * (p.0 - x) == h * dx + w * dy - w * h)
        by (nonlinear_arith)
        requires dx == p.0 - x, dy == p.1 - y;
    // the first triangle: dy >= 0, h * dx + w * dy <= w * h, dx >= 0
    assert(quad_triangle_contains(0, x, y, w, h, p) <==> (dx >= 0 && dy >= 0 && h * dx + w * dy
        <= w * h)) by (nonlinear_arith)
        requires
            w > 0, h > 0, dx == p.0 - x, dy == p.1 - y,
            cross((x, y), (x + w, y), p) == w * dy,
            cross((x + w, y), (x, y + h), p) == w * h - h * dx - w * dy,
            cross((x, y + h), (x, y), p) == h * dx,
            quad_triangle_contains(0, x, y, w, h, p) <==> ccw_contains((x, y), (x + w, y), (x, y + h), p),
    {
        assert(w * dy >= 0 <==> dy >= 0) by (nonlinear_arith) requires w > 0;
        assert(h * dx >= 0 <==> dx >= 0) by (nonlinear_arith) requires h > 0;
    }
    // the second triangle: dx <= w, dy <= h, h * dx + w * dy >= w * h
    assert(quad_triangle_contains(1, x, y, w, h, p) <==> (dx <= w && dy <= h && h * dx + w * dy
        >= w * h)) by (nonlinear_arith)
        requires
            w > 0, h > 0, dx == p.0 - x, dy == p.1 - y,
            cross((x + w, y), (x + w, y + h), p) == h * (w - dx),
            cross((x + w, y + h), (x, y + h), p) == w * (h - dy),
            cross((x, y + h), (x + w, y), p) == h * dx + w * dy - w * h,
            quad_triangle_contains(1, x, y, w, h, p) <==> ccw_contains((x + w, y), (x + w, y + h), (x, y + h), p),
    {
        assert(h * (w - dx) >= 0 <==> dx <= w) by (nonlinear_arith) requires h > 0;
        assert(w * (h - dy) >= 0 <==> dy <= h) by (nonlinear_arith) requires w > 0;
    }
    if in_box(x, y, w, h, p) {
        assert(h * dx <= h * w) by (nonlinear_arith) requires h > 0, dx <= w;
        assert(w * dy <= w * h) by (nonlinear_arith) requires w > 0, dy <= h;
    }
    if quad_triangle_contains(0, x, y, w, h, p) {
        lemma_mul_inequality(0, dy, w);
        lemma_mul_inequality(0, dx, h);
        assert(dx * h <= w * h);
        lemma_mul_inequality_converse(dx, w, h);
        assert(dy * w <= h * w);
        lemma_mul_inequality_converse(dy, h, w);
    }
    if quad_triangle_contains(1, x, y, w, h, p) {
        lemma_mul_inequality(dy, h, w);
        lemma_mul_inequality(dx, w, h);
        assert(0 * h <= dx * h);
        lemma_mul_inequality_converse(0, dx, h);
        assert(0 * w <= dy * w);
        lemma_mul_inequality_converse(0, dy, w);
    }
}


/// The number of parts a turn (or a quarter turn) is cut into for `n`
/// segments: `n`, and 1 where there are none, so that every sample is an
/// angle.
pub open spec fn parts(n: int) -> int {
    if n == 0 {
        1
    } else {
        n
    }
}

/// The samples of a full circle cut into `n` segments: `n + 1` angles, the
/// `i`-th at `i / n` turns, the last one closing the loop. With no segment
/// the one sample is at angle 0.
pub open spec fn circle_samples(n: nat) -> Seq<Turn> {
    Seq::new(n + 1, |i: int| Turn { num: i as u64, den: parts(n as int) as u64 })
}

/// A circle cut into `n` segments has `n + 1` samples after its centre, so
/// `n + 2` vertices, and each sample lies one `n`-th of a turn past the one
/// before it.
pub proof fn lemma_circle_evenly_spaced(n: nat, i: int)
    requires
        n > 0,
        0 <= i < n,
        n < u64::MAX,
    ensures
        circle_samples(n).len() + 1 == n + 2,
        circle_samples(n)[i + 1].den == circle_samples(n)[i].den,
        circle_samples(n)[i].den == n,
        circle_samples(n)[i + 1].num == circle_samples(n)[i].num + 1,
{
}

/// Returns the sample angles of a circle, or of a regular polygon with
/// `segments` sides: `segments + 1` angles evenly spread over one turn.
pub fn circle_turns(segments: u32) -> (r: Vec<Turn>)
    ensures
        r@ == circle_samples(segments as nat),
{
    let mut r: Vec<Turn> = Vec::new();
    let den: u64 = if segments == 0 { 1 } else { segments as u64 };
    let mut i: u64 = 0;
    while i <= segments as u64
        invariant
            i <= segments as u64 + 1,
            den == parts(segments as int),
            r@ =~= circle_samples(segments as nat).take(i as int),
        decreases segments as u64 + 1 - i,
    {
        r.push(Turn { num: i, den });
        i = i + 1;
    }
    r
}

/// The quarter of the turn at which the arc of a corner starts: the arc runs
/// from `q / 4` to `(q + 1) / 4` turns.
pub open spec fn start_quarter(c: Corner) -> nat {
    match c {
        Corner::BottomRight => 0,
        Corner::BottomLeft => 1,
        Corner::TopLeft => 2,
        Corner::TopRight => 3,
    }
}

/// The samples of a quarter circle cut into `n` segments: `n + 1` angles, the
/// `i`-th at `start + (end - start) * i / n`, that is `(q * n + i) / (4 * n)`
/// turns. With no segment the one sample is at the start angle, `q / 4`
/// turns; a negative segment count gives no sample.
pub open spec fn arc_samples(c: Corner, n: int) -> Seq<Turn> {
    if n < 0 {
        Seq::empty()
    } else {
        Seq::new(
            (n + 1) as nat,
            |i: int|
                Turn {
                    num: (start_quarter(c) * parts(n) + i) as u64,
                    den: (4 * parts(n)) as u64,
                },
        )
    }
}

/// A quarter circle cut into `n` segments has `n + 2` vertices; its samples
/// run from the corner's start angle to a quarter turn further, each one
/// `n`-th of that quarter past the one before.
pub proof fn lemma_arc_evenly_spaced(c: Corner, n: int, i: int)
    requires
        0 < n <= i32::MAX,
        0 <= i < n,
    ensures
        arc_samples(c, n).len() + 1 == n + 2,
        arc_samples(c, n)[0].num == start_quarter(c) * n,
        arc_samples(c, n)[n].num == (start_quarter(c) + 1) * n,
        arc_samples(c, n)[i].den == 4 * n,
        arc_samples(c, n)[i + 1].den == 4 * n,
        arc_samples(c, n)[i + 1].num == arc_samples(c, n)[i].num + 1,
{
    assert(start_quarter(c) <= 3);
    assert(start_quarter(c) * n <= 3 * n) by (nonlinear_arith)
        requires start_quarter(c) <= 3, n > 0;
    assert((start_quarter(c) + 1) * n == start_quarter(c) * n + n) by (nonlinear_arith);
}

/// Returns the sample angles of the quarter circle that rounds `corner`.
pub fn arc_turns(corner: Corner, segments: i32) -> (r: Vec<Turn>)
    ensures
        r@ == arc_samples(corner, segments as int),
{
    let mut r: Vec<Turn> = Vec::new();
    if segments < 0 {
        assert(r@ =~= arc_samples(corner, segments as int));
        return r;
    }
    let n = segments as u64;
    let m: u64 = if n == 0 { 1 } else { n };
    let q: u64 = match corner {
        Corner::BottomRight => 0,
        Corner::BottomLeft => 1,
        Corner::TopLeft => 2,
        Corner::TopRight => 3,
    };
    let mut i: u64 = 0;
    while i <= n
        invariant
            n == segments as int,
            q == start_quarter(corner),
            n <= i32::MAX,
            m == parts(n as int),
            i <= n + 1,
            r@ =~= arc_samples(corner, n as int).take(i as int),
        decreases n + 1 - i,
    {
        r.push(Turn { num: q * m + i, den: 4 * m });
        i = i + 1;
    }
    r
}

/// The corner that a selector names: "top-left", "top-right",
/// "bottom-left" or "bottom-right"; any other text names none.
pub open spec fn corner_named(s: Seq<char>) -> Option<Corner> {
    if s == "top-left"@ {
        Some(Corner::TopLeft)
    } else if s == "top-right"@ {
        Some(Corner::TopRight)
    } else if s == "bottom-left"@ {
        Some(Corner::BottomLeft)
    } else if s == "bottom-right"@ {
        Some(Corner::BottomRight)
    } else {
        None
    }
}

/// Reads a corner selector.
pub fn parse_corner(selector: &str) -> (r: Option<Corner>)
    ensures
        r == corner_named(selector@),
{
    let s = selector.to_owned();
    if s == String::from_str("top-left") {
        Some(Corner::TopLeft)
    } else if s == String::from_str("top-right") {
        Some(Corner::TopRight)
    } else if s == String::from_str("bottom-left") {
        Some(Corner::BottomLeft)
    } else if s == String::from_str("bottom-right") {
        Some(Corner::BottomRight)
    } else {
        None
    }
}

/// A fan: its apex, then samples on the circle of the shape's radius.
/// The samples' circle is centred on the apex: a sample at angle `t` lies at
/// `centre - radius * offset + radius * (cos t, sin t)` with
/// `centre = apex + radius * offset`, which is the apex plus a vector of
/// length `radius`.
#[derive(Debug)]
pub struct Fan {
    pub offset_x: i8,
    pub offset_y: i8,
    pub samples: Vec<Turn>,
}

impl Fan {
    /// The number of vertices of the fan: the apex and its samples.
    pub open spec fn vertex_count(&self) -> nat {
        self.samples@.len() + 1
    }
}

/// The offset from a quarter circle's pivot to the centre that the arc is
/// drawn around before it is moved back onto the pivot.
pub open spec fn corner_offset(c: Corner) -> (i8, i8) {
    match c {
        Corner::TopLeft => (1i8, 1i8),
        Corner::TopRight => (-1i8, 1i8),
        Corner::BottomLeft => (1i8, -1i8),
        Corner::BottomRight => (-1i8, -1i8),
    }
}

/// Returns the fan of a circle or regular polygon around its centre.
pub fn circle_fan(segments: u32) -> (r: Fan)
    ensures
        r.offset_x == 0 && r.offset_y == 0,
        r.samples@ == circle_samples(segments as nat),
        r.vertex_count() == segments + 2,
{
    Fan { offset_x: 0, offset_y: 0, samples: circle_turns(segments) }
}

/// Returns the fan of the quarter circle that rounds `corner`, its apex on
/// the corner's pivot.
pub fn arc_fan(corner: Corner, segments: i32) -> (r: Fan)
    ensures
        (r.offset_x, r.offset_y) == corner_offset(corner),
        r.samples@ == arc_samples(corner, segments as int),
        segments >= 0 ==> r.vertex_count() == segments + 2,
        segments < 0 ==> r.vertex_count() == 1,
{
    let (offset_x, offset_y): (i8, i8) = match corner {
        Corner::TopLeft => (1, 1),
        Corner::TopRight => (-1, 1),
        Corner::BottomLeft => (1, -1),
        Corner::BottomRight => (-1, -1),
    };
    Fan { offset_x, offset_y, samples: arc_turns(corner, segments) }
}

/// Returns the fan of the quarter circle that a selector names, or `None`
/// where the selector names no corner.
pub fn arc_fan_for(selector: &str, segments: i32) -> (r: Option<Fan>)
    ensures
        corner_named(selector@) is None <==> r is None,
        r matches Some(f) ==> (f.offset_x, f.offset_y) == corner_offset(
            corner_named(selector@)->0,
        ) && f.samples@ == arc_samples(corner_named(selector@)->0, segments as int),
{
    match parse_corner(selector) {
        Some(c) => Some(arc_fan(c, segments)),
        None => None,
    }
}

} // verus!
