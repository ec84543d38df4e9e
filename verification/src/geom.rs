//! Rotated-rectangle geometry.
//!
//! `PhysRect` is an oriented bounding quadrilateral: a reference top-left
//! position `(x, y)`, a size `(w, h)`, an orientation angle, and the four
//! corner points in clockwise order starting from the original top-left.
//! Positions are clamped to half the `i32` range and corner coordinates
//! saturate at `COORD_LIMIT`, so offset arithmetic never overflows; sizes
//! are clamped to at least one so the geometry stays well-defined.  The
//! corners always form a parallelogram: the fourth corner is derived from
//! the other three, which rotation and resizing preserve exactly.

use vstd::prelude::*;

use crate::fixed::ANGLE_LIMIT;
use crate::fixed::FP_ONE;
use crate::fixed::TWO_PI_FP;
use crate::fixed::cos_fp;
use crate::fixed::cos_fp_of;
use crate::fixed::iabs;
use crate::fixed::norm_angle;
use crate::fixed::norm_angle_fp;
use crate::fixed::sin_fp;
use crate::fixed::sin_fp_of;
use crate::fixed::tdiv;
use crate::fixed::tdiv_i128;
use crate::fixed::tdiv_i64;

verus! {

/// Largest magnitude a stored corner coordinate can reach.
pub const COORD_LIMIT: i64 = 0x8_0000_0000;

/// The maximal integer value that can be used for rectangle sizes and
/// positions.  Smaller than strictly needed, so that sizes never have to
/// be truncated when clamping.
pub fn max_int_value() -> (r: u32)
    ensures
        r == 0x3fff_ffff,
{
    i32::MAX as u32 / 2
}

/// The minimal integer value that can be used for rectangle positions and
/// points, half the representable range for the same reason.
pub fn min_int_value() -> (r: i32)
    ensures
        r == -0x4000_0000,
{
    i32::MIN / 2
}

/// A position clamped into `[min_int_value(), max_int_value()]`.
pub open spec fn cpos(v: int) -> int {
    if v > 0x3fff_ffff {
        0x3fff_ffff
    } else if v < -0x4000_0000 {
        -0x4000_0000
    } else {
        v
    }
}

/// A size clamped into `[1, max_int_value()]`.
pub open spec fn csize(v: int) -> int {
    if v == 0 {
        1
    } else if v > 0x3fff_ffff {
        0x3fff_ffff
    } else {
        v
    }
}

/// A corner coordinate saturated at `COORD_LIMIT`.
pub open spec fn ccoord(v: int) -> int {
    if v > COORD_LIMIT {
        COORD_LIMIT as int
    } else if v < -COORD_LIMIT {
        -COORD_LIMIT as int
    } else {
        v
    }
}

/// Both components of a point saturated at `COORD_LIMIT`.
pub open spec fn cpt(p: (int, int)) -> (int, int) {
    (ccoord(p.0), ccoord(p.1))
}

/// Clamps a position component into the safe range.
pub fn clamp_position(val: i32) -> (r: i32)
    ensures
        r == cpos(val as int),
{
    if val > 0x3fff_ffff {
        0x3fff_ffff
    } else if val < -0x4000_0000 {
        -0x4000_0000
    } else {
        val
    }
}

/// Clamps a size into the safe range; a zero size becomes one.
pub fn clamp_size(val: u32) -> (r: u32)
    ensures
        r == csize(val as int),
{
    if val == 0 {
        1
    } else if val > 0x3fff_ffff {
        0x3fff_ffff
    } else {
        val
    }
}

/// Saturates a corner coordinate.
fn clamp_coord(v: i64) -> (r: i64)
    ensures
        r == ccoord(v as int),
{
    if v > COORD_LIMIT {
        COORD_LIMIT
    } else if v < -COORD_LIMIT {
        -COORD_LIMIT
    } else {
        v
    }
}

/// The corners of a shape as a sequence of coordinate pairs, in order.
pub open spec fn corner(s: RectShape, i: int) -> (int, int) {
    if i == 0 {
        s.c0
    } else if i == 1 {
        s.c1
    } else if i == 2 {
        s.c2
    } else {
        s.c3
    }
}

/// The leftmost corner, the latest in corner order among equals.
pub open spec fn pick_left(s: RectShape) -> (int, int) {
    let a = if s.c1.0 <= s.c0.0 {
        s.c1
    } else {
        s.c0
    };
    let b = if s.c2.0 <= a.0 {
        s.c2
    } else {
        a
    };
    if s.c3.0 <= b.0 {
        s.c3
    } else {
        b
    }
}

/// The rightmost corner, the latest in corner order among equals.
pub open spec fn pick_right(s: RectShape) -> (int, int) {
    let a = if s.c1.0 >= s.c0.0 {
        s.c1
    } else {
        s.c0
    };
    let b = if s.c2.0 >= a.0 {
        s.c2
    } else {
        a
    };
    if s.c3.0 >= b.0 {
        s.c3
    } else {
        b
    }
}

/// The topmost corner, the latest in corner order among equals.
pub open spec fn pick_top(s: RectShape) -> (int, int) {
    let a = if s.c1.1 <= s.c0.1 {
        s.c1
    } else {
        s.c0
    };
    let b = if s.c2.1 <= a.1 {
        s.c2
    } else {
        a
    };
    if s.c3.1 <= b.1 {
        s.c3
    } else {
        b
    }
}

/// The bottom-most corner, the latest in corner order among equals.
pub open spec fn pick_bottom(s: RectShape) -> (int, int) {
    let a = if s.c1.1 >= s.c0.1 {
        s.c1
    } else {
        s.c0
    };
    let b = if s.c2.1 >= a.1 {
        s.c2
    } else {
        a
    };
    if s.c3.1 >= b.1 {
        s.c3
    } else {
        b
    }
}

/// Clamps a wide position value into the safe `i32` position range.
fn clamp_position_wide(val: i64) -> (r: i32)
    ensures
        r == cpos(val as int),
{
    if val > 0x3fff_ffff {
        0x3fff_ffff
    } else if val < -0x4000_0000 {
        -0x4000_0000
    } else {
        val as i32
    }
}

/// A point of the plane, in pixel coordinates.
#[derive(Clone, Copy, Debug, PartialEq, Eq, Structural)]
pub struct Point {
    pub x: i64,
    pub y: i64,
}

impl Point {
    /// A point from its two coordinates.
    pub fn new(x: i64, y: i64) -> (r: Point)
        ensures
            r.x == x,
            r.y == y,
    {
        Point { x, y }
    }

    /// The horizontal coordinate.
    pub fn x(&self) -> (r: i64)
        ensures
            r == self.x,
    {
        self.x
    }

    /// The vertical coordinate.
    pub fn y(&self) -> (r: i64)
        ensures
            r == self.y,
    {
        self.y
    }

    /// This point translated by the given deltas.
    pub fn offset(self, dx: i64, dy: i64) -> (r: Point)
        requires
            i64::MIN <= self.x + dx <= i64::MAX,
            i64::MIN <= self.y + dy <= i64::MAX,
        ensures
            r.x == self.x + dx,
            r.y == self.y + dy,
    {
        Point { x: self.x + dx, y: self.y + dy }
    }
}

/// A point rotated about a center by an angle whose sine and cosine
/// (scaled by `FP_ONE`) are given: the standard rotation matrix, with
/// the products truncated back to whole coordinates.
pub open spec fn rot_pt(p: (int, int), c: (int, int), s: int, co: int) -> (int, int) {
    (
        tdiv(co * (p.0 - c.0) - s * (p.1 - c.1), FP_ONE as int) + c.0,
        tdiv(s * (p.0 - c.0) + co * (p.1 - c.1), FP_ONE as int) + c.1,
    )
}

/// The shape after rotating every corner about the rectangle's center by
/// `d`: the first three corners are rotated and saturated, the fourth
/// completes the parallelogram, the stored angle advances by `d`
/// modulo a full turn, and the reference position follows the first
/// corner.
pub open spec fn spec_rotated(sh: RectShape, d: int) -> RectShape {
    let c = (tdiv(sh.c0.0 + sh.c2.0, 2), tdiv(sh.c0.1 + sh.c2.1, 2));
    let s = sin_fp_of(d);
    let co = cos_fp_of(d);
    let n0 = cpt(rot_pt(sh.c0, c, s, co));
    let n1 = cpt(rot_pt(sh.c1, c, s, co));
    let n2 = cpt(rot_pt(sh.c2, c, s, co));
    RectShape {
        x: cpos(n0.0),
        y: cpos(n0.1),
        w: sh.w,
        h: sh.h,
        theta: norm_angle(sh.theta + d),
        c0: n0,
        c1: n1,
        c2: n2,
        c3: (n0.0 + n2.0 - n1.0, n0.1 + n2.1 - n1.1),
    }
}

/// The shape after its horizontal reference position is set to `x`:
/// the position is clamped, and every corner is translated by the
/// delta between the new (clamped) and old reference coordinate, so
/// the corners stay consistent with the reference.
pub open spec fn shape_set_x(s: RectShape, x: int) -> RectShape {
    let n0 = cpt(((s.c0.0 + cpos(x) - s.x), s.c0.1));
    let n1 = cpt(((s.c1.0 + cpos(x) - s.x), s.c1.1));
    let n2 = cpt(((s.c2.0 + cpos(x) - s.x), s.c2.1));
    RectShape {
        x: cpos(x),
        c0: n0,
        c1: n1,
        c2: n2,
        c3: (n0.0 + n2.0 - n1.0, n0.1 + n2.1 - n1.1),
        ..s
    }
}

/// The shape after its vertical reference position is set to `y`,
/// analogously to `shape_set_x`.
pub open spec fn shape_set_y(s: RectShape, y: int) -> RectShape {
    let n0 = cpt((s.c0.0, (s.c0.1 + cpos(y) - s.y)));
    let n1 = cpt((s.c1.0, (s.c1.1 + cpos(y) - s.y)));
    let n2 = cpt((s.c2.0, (s.c2.1 + cpos(y) - s.y)));
    RectShape {
        y: cpos(y),
        c0: n0,
        c1: n1,
        c2: n2,
        c3: (n0.0 + n2.0 - n1.0, n0.1 + n2.1 - n1.1),
        ..s
    }
}

/// The shape after resizing to the clamped `width` and `height`: the
/// first corner stays, the second and third are rebuilt from it along
/// the current rotation direction, and the fourth completes the
/// parallelogram.
pub open spec fn spec_resized(sh: RectShape, width: int, height: int) -> RectShape {
    let w = csize(width);
    let h = csize(height);
    let dirx = cos_fp_of(sh.theta);
    let diry = sin_fp_of(sh.theta);
    let wx = tdiv(w * dirx, FP_ONE as int);
    let wy = tdiv(w * diry, FP_ONE as int);
    let hx = tdiv(-(h * diry), FP_ONE as int);
    let hy = tdiv(h * dirx, FP_ONE as int);
    let n1 = cpt(((sh.c0.0 + wx), (sh.c0.1 + wy)));
    let n2 = cpt(((sh.c0.0 + wx + hx), (sh.c0.1 + wy + hy)));
    RectShape {
        w: w,
        h: h,
        c1: n1,
        c2: n2,
        c3: (sh.c0.0 + n2.0 - n1.0, sh.c0.1 + n2.1 - n1.1),
        ..sh
    }
}

/// The ray-cast edge test of the even-odd containment rule: whether a
/// horizontal ray from `(px, py)` toward negative infinity crosses the
/// edge from `ci` to `cj`.  The quotient truncates toward zero, as the
/// executable division does.
pub open spec fn edge_crosses(ci: (int, int), cj: (int, int), px: int, py: int) -> bool {
    ((ci.1 > py) != (cj.1 > py)) && px < tdiv((cj.0 - ci.0) * (py - ci.1), cj.1 - ci.1) + ci.0
}

/// Even-odd rule point-in-polygon test over the four corners: the point
/// is inside when an odd number of edges cross the ray.
pub open spec fn rect_contains(s: RectShape, px: int, py: int) -> bool {
    ((edge_crosses(s.c0, s.c3, px, py) != edge_crosses(s.c1, s.c0, px, py)) != edge_crosses(
        s.c2,
        s.c1,
        px,
        py,
    )) != edge_crosses(s.c3, s.c2, px, py)
}

/// Two oriented rectangles are taken to intersect when a corner of one
/// lies inside the other, tested both ways.  (Edge crossings in which
/// neither rectangle holds a corner of the other are not detected; for
/// small, similarly sized bodies the approximation is adequate.)
pub open spec fn rect_intersects(a: RectShape, b: RectShape) -> bool {
    ||| rect_contains(a, b.c0.0, b.c0.1)
    ||| rect_contains(a, b.c1.0, b.c1.1)
    ||| rect_contains(a, b.c2.0, b.c2.1)
    ||| rect_contains(a, b.c3.0, b.c3.1)
    ||| rect_contains(b, a.c0.0, a.c0.1)
    ||| rect_contains(b, a.c1.0, a.c1.1)
    ||| rect_contains(b, a.c2.0, a.c2.1)
    ||| rect_contains(b, a.c3.0, a.c3.1)
}

/// A square.
pub open spec fn sq(a: int) -> int {
    a * a
}

/// The smaller of two values.
pub open spec fn min2(a: int, b: int) -> int {
    if a <= b {
        a
    } else {
        b
    }
}

/// The midpoint of two points, each coordinate truncated toward zero.
pub open spec fn mid_pt(a: (int, int), b: (int, int)) -> (int, int) {
    (tdiv(a.0 + b.0, 2), tdiv(a.1 + b.1, 2))
}

/// The midpoint of the `k`-th side of a shape, sides taken between
/// consecutive corners ending at corner `k`.
pub open spec fn side_mid(o: RectShape, k: int) -> (int, int) {
    if k == 0 {
        mid_pt(o.c0, o.c3)
    } else if k == 1 {
        mid_pt(o.c1, o.c0)
    } else if k == 2 {
        mid_pt(o.c2, o.c1)
    } else {
        mid_pt(o.c3, o.c2)
    }
}

/// Squared distance from corner `i` of `s` to the midpoint of side `k`
/// of `o`.
pub open spec fn corner_mid_d2(s: RectShape, o: RectShape, i: int, k: int) -> int {
    let c = corner(s, i);
    let m = side_mid(o, k);
    sq(c.0 - m.0) + sq(c.1 - m.1)
}

/// The least squared distance from corner `i` of `s` to any side
/// midpoint of `o`.
pub open spec fn corner_best_d2(s: RectShape, o: RectShape, i: int) -> int {
    min2(
        min2(corner_mid_d2(s, o, i, 0), corner_mid_d2(s, o, i, 1)),
        min2(corner_mid_d2(s, o, i, 2), corner_mid_d2(s, o, i, 3)),
    )
}

/// The corner index `nearest_side` returns: the highest index whose
/// best squared distance to a side midpoint attains the overall
/// minimum.
pub open spec fn spec_nearest_side(s: RectShape, o: RectShape) -> int {
    let g = min2(
        min2(corner_best_d2(s, o, 0), corner_best_d2(s, o, 1)),
        min2(corner_best_d2(s, o, 2), corner_best_d2(s, o, 3)),
    );
    if corner_best_d2(s, o, 3) == g {
        3
    } else if corner_best_d2(s, o, 2) == g {
        2
    } else if corner_best_d2(s, o, 1) == g {
        1
    } else {
        0
    }
}

/// Squared distance between two points, in wide arithmetic.
fn dist2(a: Point, m: Point) -> (r: i128)
    requires
        -4 * COORD_LIMIT <= a.x <= 4 * COORD_LIMIT,
        -4 * COORD_LIMIT <= a.y <= 4 * COORD_LIMIT,
        -4 * COORD_LIMIT <= m.x <= 4 * COORD_LIMIT,
        -4 * COORD_LIMIT <= m.y <= 4 * COORD_LIMIT,
    ensures
        r == sq(a.x - m.x) + sq(a.y - m.y),
        r >= 0,
{
    let dx = a.x as i128 - m.x as i128;
    let dy = a.y as i128 - m.y as i128;
    proof {
        lemma_small_product(dx as int, dx as int, 8 * COORD_LIMIT as int, 8 * COORD_LIMIT as int);
        lemma_small_product(dy as int, dy as int, 8 * COORD_LIMIT as int, 8 * COORD_LIMIT as int);
        assert(dx as int * dx as int >= 0) by (nonlinear_arith);
        assert(dy as int * dy as int >= 0) by (nonlinear_arith);
    }
    dx * dx + dy * dy
}

/// The midpoint of two corner points, truncated toward zero.
fn mid_corner(a: Point, b: Point) -> (r: Point)
    requires
        -4 * COORD_LIMIT <= a.x <= 4 * COORD_LIMIT,
        -4 * COORD_LIMIT <= a.y <= 4 * COORD_LIMIT,
        -4 * COORD_LIMIT <= b.x <= 4 * COORD_LIMIT,
        -4 * COORD_LIMIT <= b.y <= 4 * COORD_LIMIT,
    ensures
        (r.x as int, r.y as int) == mid_pt((a.x as int, a.y as int), (b.x as int, b.y as int)),
        -4 * COORD_LIMIT <= r.x <= 4 * COORD_LIMIT,
        -4 * COORD_LIMIT <= r.y <= 4 * COORD_LIMIT,
    {
    proof {
        lemma_half_bound((a.x + b.x) as int, 4 * COORD_LIMIT as int);
        lemma_half_bound((a.y + b.y) as int, 4 * COORD_LIMIT as int);
    }
    Point { x: tdiv_i64(a.x + b.x, 2), y: tdiv_i64(a.y + b.y, 2) }
}

/// Halving a value within twice a bound lands within the bound.
pub proof fn lemma_half_bound(a: int, bound: int)
    requires
        iabs(a) <= 2 * bound,
        bound >= 0,
    ensures
        iabs(tdiv(a, 2)) <= bound,
{
    assert(iabs(a) / 2 <= bound) by (nonlinear_arith)
        requires
            iabs(a) <= 2 * bound && bound >= 0 && iabs(a) >= 0,
    ;
}

/// The smaller of two wide values.
fn min_i128(a: i128, b: i128) -> (r: i128)
    ensures
        r == min2(a as int, b as int),
{
    if a <= b {
        a
    } else {
        b
    }
}

/// Evaluates one ray-cast edge test in wide arithmetic.
fn edge_test(ci: Point, cj: Point, px: i64, py: i64) -> (r: bool)
    requires
        -4 * COORD_LIMIT <= ci.x <= 4 * COORD_LIMIT,
        -4 * COORD_LIMIT <= ci.y <= 4 * COORD_LIMIT,
        -4 * COORD_LIMIT <= cj.x <= 4 * COORD_LIMIT,
        -4 * COORD_LIMIT <= cj.y <= 4 * COORD_LIMIT,
    ensures
        r == edge_crosses((ci.x as int, ci.y as int), (cj.x as int, cj.y as int), px as int, py as int),
{
    if (ci.y > py) != (cj.y > py) {
        let dx = cj.x as i128 - ci.x as i128;
        let dy = cj.y as i128 - ci.y as i128;
        let rise = py as i128 - ci.y as i128;
        proof {
            lemma_small_product(dx as int, rise as int, 0x10_0000_0000_0000, 0x2_0000_0000_0000_0000);
        }
        let q = tdiv_i128(dx * rise, dy);
        (px as i128) < q + ci.x as i128
    } else {
        false
    }
}

/// A product of two factors within the given magnitudes stays within
/// their product.
pub proof fn lemma_small_product(a: int, b: int, ba: int, bb: int)
    requires
        iabs(a) <= ba,
        iabs(b) <= bb,
        ba >= 0,
        bb >= 0,
    ensures
        -(ba * bb) <= a * b <= ba * bb,
{
    assert(-(ba * bb) <= a * b <= ba * bb) by (nonlinear_arith)
        requires
            iabs(a) <= ba && iabs(b) <= bb && ba >= 0 && bb >= 0,
    ;
}

/// Rotates one corner about the given center, with the sine and cosine
/// of the turn supplied, saturating the result.
fn rot_corner(p: Point, cx: i64, cy: i64, s: i64, co: i64) -> (r: Point)
    requires
        -COORD_LIMIT <= p.x <= COORD_LIMIT,
        -COORD_LIMIT <= p.y <= COORD_LIMIT,
        -2 * COORD_LIMIT <= cx <= 2 * COORD_LIMIT,
        -2 * COORD_LIMIT <= cy <= 2 * COORD_LIMIT,
        -FP_ONE <= s <= FP_ONE,
        -FP_ONE <= co <= FP_ONE,
    ensures
        (r.x as int, r.y as int) == cpt(rot_pt((p.x as int, p.y as int), (cx as int, cy as int), s as int, co as int)),
{
    let dx = p.x - cx;
    let dy = p.y - cy;
    proof {
        lemma_small_product(co as int, dx as int, FP_ONE as int, 3 * COORD_LIMIT as int);
        lemma_small_product(s as int, dy as int, FP_ONE as int, 3 * COORD_LIMIT as int);
        lemma_small_product(s as int, dx as int, FP_ONE as int, 3 * COORD_LIMIT as int);
        lemma_small_product(co as int, dy as int, FP_ONE as int, 3 * COORD_LIMIT as int);
    }
    let nx = tdiv_i64(co * dx - s * dy, FP_ONE) + cx;
    let ny = tdiv_i64(s * dx + co * dy, FP_ONE) + cy;
    Point { x: clamp_coord(nx), y: clamp_coord(ny) }
}

/// Translates a corner point and saturates the result.
fn shift_pt(p: Point, dx: i64, dy: i64) -> (r: Point)
    requires
        -3 * COORD_LIMIT <= p.x <= 3 * COORD_LIMIT,
        -3 * COORD_LIMIT <= p.y <= 3 * COORD_LIMIT,
        -0x100_0000_0000 <= dx <= 0x100_0000_0000,
        -0x100_0000_0000 <= dy <= 0x100_0000_0000,
    ensures
        (r.x as int, r.y as int) == cpt(((p.x + dx), (p.y + dy))),
{
    Point { x: clamp_coord(p.x + dx), y: clamp_coord(p.y + dy) }
}

/// The fourth corner completing the parallelogram of the other three.
fn derive_c3(c0: Point, c1: Point, c2: Point) -> (r: Point)
    requires
        -COORD_LIMIT <= c0.x <= COORD_LIMIT,
        -COORD_LIMIT <= c0.y <= COORD_LIMIT,
        -COORD_LIMIT <= c1.x <= COORD_LIMIT,
        -COORD_LIMIT <= c1.y <= COORD_LIMIT,
        -COORD_LIMIT <= c2.x <= COORD_LIMIT,
        -COORD_LIMIT <= c2.y <= COORD_LIMIT,
    ensures
        r.x == c0.x + c2.x - c1.x,
        r.y == c0.y + c2.y - c1.y,
{
    Point { x: c0.x + c2.x - c1.x, y: c0.y + c2.y - c1.y }
}

/// The mathematical shape of a `PhysRect`.
#[verifier::ext_equal]
pub ghost struct RectShape {
    pub x: int,
    pub y: int,
    pub w: int,
    pub h: int,
    pub theta: int,
    pub c0: (int, int),
    pub c1: (int, int),
    pub c2: (int, int),
    pub c3: (int, int),
}

/// A coordinate pair within the saturation bound.
pub open spec fn in_coord(p: (int, int)) -> bool {
    -COORD_LIMIT <= p.0 <= COORD_LIMIT && -COORD_LIMIT <= p.1 <= COORD_LIMIT
}

/// Well-formedness of a rectangle shape: clamped position and size, a
/// normalized angle, bounded corners, and the fourth corner completing
/// the parallelogram of the other three.
pub open spec fn rect_wf(s: RectShape) -> bool {
    &&& 1 <= s.w <= 0x3fff_ffff
    &&& 1 <= s.h <= 0x3fff_ffff
    &&& -0x4000_0000 <= s.x <= 0x3fff_ffff
    &&& -0x4000_0000 <= s.y <= 0x3fff_ffff
    &&& 0 <= s.theta < TWO_PI_FP
    &&& in_coord(s.c0)
    &&& in_coord(s.c1)
    &&& in_coord(s.c2)
    &&& s.c3.0 == s.c0.0 + s.c2.0 - s.c1.0
    &&& s.c3.1 == s.c0.1 + s.c2.1 - s.c1.1
}

/// A rotated rectangle: reference position, size, orientation and the
/// four corners in clockwise order from the original top-left.  The
/// fields are public so that specifications can speak of whole values;
/// the operations require and preserve `wf`.
#[derive(Clone, Copy, Debug, PartialEq, Eq, Structural)]
pub struct PhysRect {
    pub x: i32,
    pub y: i32,
    pub w: i32,
    pub h: i32,
    pub theta: i64,
    pub c0: Point,
    pub c1: Point,
    pub c2: Point,
    pub c3: Point,
}

/// The stored rectangle whose view is the given shape (which must be
/// within the machine ranges for the view to be faithful).
pub open spec fn rect_of_shape(s: RectShape) -> PhysRect {
    PhysRect {
        x: s.x as i32,
        y: s.y as i32,
        w: s.w as i32,
        h: s.h as i32,
        theta: s.theta as i64,
        c0: Point { x: s.c0.0 as i64, y: s.c0.1 as i64 },
        c1: Point { x: s.c1.0 as i64, y: s.c1.1 as i64 },
        c2: Point { x: s.c2.0 as i64, y: s.c2.1 as i64 },
        c3: Point { x: s.c3.0 as i64, y: s.c3.1 as i64 },
    }
}

/// The view determines the stored rectangle: equal views mean equal
/// values.
pub proof fn lemma_rect_view_injective(a: PhysRect, b: PhysRect)
    requires
        a@ == b@,
    ensures
        a == b,
{
    assert(a.x == b.x && a.y == b.y && a.w == b.w && a.h == b.h && a.theta == b.theta);
    assert(a.c0 == b.c0 && a.c1 == b.c1 && a.c2 == b.c2 && a.c3 == b.c3);
}

impl View for PhysRect {
    type V = RectShape;

    open spec fn view(&self) -> RectShape {
        RectShape {
            x: self.x as int,
            y: self.y as int,
            w: self.w as int,
            h: self.h as int,
            theta: self.theta as int,
            c0: (self.c0.x as int, self.c0.y as int),
            c1: (self.c1.x as int, self.c1.y as int),
            c2: (self.c2.x as int, self.c2.y as int),
            c3: (self.c3.x as int, self.c3.y as int),
        }
    }
}

/// The corners of an axis-aligned rectangle with the given position and
/// size: top-left, top-right, bottom-right, bottom-left.
pub open spec fn axis_corners(x: int, y: int, w: int, h: int) -> ((int, int), (int, int), (int, int), (int, int)) {
    ((x, y), (x + w, y), (x + w, y + h), (x, y + h))
}

/// An axis-aligned shape: angle zero and the four standard corners.
pub open spec fn is_axis_aligned(s: RectShape) -> bool {
    &&& s.theta == 0
    &&& s.c0 == (s.x, s.y)
    &&& s.c1 == (s.x + s.w, s.y)
    &&& s.c2 == (s.x + s.w, s.y + s.h)
    &&& s.c3 == (s.x, s.y + s.h)
}

impl PhysRect {
    /// Whether the stored representation is well-formed.
    pub open spec fn wf(&self) -> bool {
        rect_wf(self@)
    }

    /// An axis-aligned rectangle with no rotation applied.  A zero size
    /// is clamped to one and positions beyond the safe range are clamped
    /// to its bounds.
    pub fn new(x: i32, y: i32, width: u32, height: u32) -> (r: PhysRect)
        ensures
            r.wf(),
            r@.x == cpos(x as int),
            r@.y == cpos(y as int),
            r@.w == csize(width as int),
            r@.h == csize(height as int),
            r@.theta == 0,
            is_axis_aligned(r@),
    {
        let cx = clamp_position(x);
        let cy = clamp_position(y);
        let cw = clamp_size(width) as i32;
        let ch = clamp_size(height) as i32;
        PhysRect {
            x: cx,
            y: cy,
            w: cw,
            h: ch,
            theta: 0,
            c0: Point { x: cx as i64, y: cy as i64 },
            c1: Point { x: cx as i64 + cw as i64, y: cy as i64 },
            c2: Point { x: cx as i64 + cw as i64, y: cy as i64 + ch as i64 },
            c3: Point { x: cx as i64, y: cy as i64 + ch as i64 },
        }
    }

    /// A rectangle of the clamped size, rotated by `theta` about its
    /// upper-left corner, which sits at the clamped position.
    pub fn new_rot(x: i32, y: i32, width: u32, height: u32, theta: i64) -> (r: PhysRect)
        requires
            -ANGLE_LIMIT <= theta <= ANGLE_LIMIT,
        ensures
            r.wf(),
            r@.x == cpos(x as int),
            r@.y == cpos(y as int),
            r@.w == csize(width as int),
            r@.h == csize(height as int),
            r@.theta == norm_angle(theta as int),
            r@.c0 == (cpos(x as int), cpos(y as int)),
            r@ == spec_resized(
                RectShape {
                    x: cpos(x as int),
                    y: cpos(y as int),
                    w: csize(width as int),
                    h: csize(height as int),
                    theta: norm_angle(theta as int),
                    c0: (cpos(x as int), cpos(y as int)),
                    c1: (cpos(x as int), cpos(y as int)),
                    c2: (cpos(x as int), cpos(y as int)),
                    c3: (cpos(x as int), cpos(y as int)),
                },
                width as int,
                height as int,
            ),
    {
        let cx = clamp_position(x);
        let cy = clamp_position(y);
        let ct = norm_angle_fp(theta);
        let mut r = PhysRect {
            x: cx,
            y: cy,
            w: 1,
            h: 1,
            theta: ct,
            c0: Point { x: cx as i64, y: cy as i64 },
            c1: Point { x: cx as i64, y: cy as i64 },
            c2: Point { x: cx as i64, y: cy as i64 },
            c3: Point { x: cx as i64, y: cy as i64 },
        };
        r.resize(width, height);
        r
    }

    /// Constructs an axis-aligned rectangle of the clamped size and then
    /// recenters it on the given point.
    pub fn from_center(center_x: i32, center_y: i32, width: u32, height: u32) -> (r: PhysRect)
        ensures
            r.wf(),
            r@.w == csize(width as int),
            r@.h == csize(height as int),
            r@.theta == 0,
            r@.c0 == (cpos(center_x as int) - tdiv(csize(width as int), 2), cpos(center_y as int)
                - tdiv(csize(height as int), 2)),
            r@.c1 == (r@.c0.0 + r@.w, r@.c0.1),
            r@.c2 == (r@.c0.0 + r@.w, r@.c0.1 + r@.h),
            r@.c3 == (r@.c0.0, r@.c0.1 + r@.h),
    {
        let mut r = PhysRect::new(0, 0, width, height);
        r.center_on(center_x, center_y);
        r
    }

    /// The horizontal position of the original top-left corner.
    pub fn x(&self) -> (r: i32)
        ensures
            r == self@.x,
    {
        self.x
    }

    /// The vertical position of the original top-left corner.
    pub fn y(&self) -> (r: i32)
        ensures
            r == self@.y,
    {
        self.y
    }

    /// The width of this rectangle.
    pub fn width(&self) -> (r: u32)
        requires
            self.wf(),
        ensures
            r == self@.w,
    {
        self.w as u32
    }

    /// The height of this rectangle.
    pub fn height(&self) -> (r: u32)
        requires
            self.wf(),
        ensures
            r == self@.h,
    {
        self.h as u32
    }

    /// The rotation angle of this rectangle.
    pub fn angle(&self) -> (r: i64)
        ensures
            r == self@.theta,
    {
        self.theta
    }

    /// Sets the horizontal position of this rectangle to the given value,
    /// clamped to the safe range, translating all four corners by the
    /// delta between the new (clamped) and old reference coordinate.
    pub fn set_x(&mut self, x: i32)
        requires
            old(self).wf(),
        ensures
            final(self).wf(),
            final(self)@ == shape_set_x(old(self)@, x as int),
    {
        let nx = clamp_position(x);
        let d = nx as i64 - self.x as i64;
        self.x = nx;
        self.c0 = shift_pt(self.c0, d, 0);
        self.c1 = shift_pt(self.c1, d, 0);
        self.c2 = shift_pt(self.c2, d, 0);
        self.c3 = derive_c3(self.c0, self.c1, self.c2);
    }

    /// Sets the vertical position of this rectangle to the given value,
    /// clamped to the safe range, translating all four corners by the
    /// delta between the new (clamped) and old reference coordinate.
    pub fn set_y(&mut self, y: i32)
        requires
            old(self).wf(),
        ensures
            final(self).wf(),
            final(self)@ == shape_set_y(old(self)@, y as int),
    {
        let ny = clamp_position(y);
        let d = ny as i64 - self.y as i64;
        self.y = ny;
        self.c0 = shift_pt(self.c0, 0, d);
        self.c1 = shift_pt(self.c1, 0, d);
        self.c2 = shift_pt(self.c2, 0, d);
        self.c3 = derive_c3(self.c0, self.c1, self.c2);
    }

    /// Sets the height of this rectangle, clamped to the safe range.  The
    /// stored corners are left as they are; `resize` adjusts them.
    pub fn set_height(&mut self, height: u32)
        requires
            old(self).wf(),
        ensures
            final(self).wf(),
            final(self)@ == (RectShape { h: csize(height as int), ..old(self)@ }),
    {
        self.h = clamp_size(height) as i32;
    }

    /// Moves this rectangle by the given deltas, clamping the reference
    /// position to the safe range and translating the corners by the
    /// clamped movement actually applied.
    pub fn offset(&mut self, x: i32, y: i32)
        requires
            old(self).wf(),
        ensures
            final(self).wf(),
            final(self)@.x == cpos(old(self)@.x + x),
            final(self)@.y == cpos(old(self)@.y + y),
            final(self)@.w == old(self)@.w,
            final(self)@.h == old(self)@.h,
            final(self)@.theta == old(self)@.theta,
            final(self)@.c0 == cpt(((old(self)@.c0.0 + cpos(old(self)@.x + x) - old(self)@.x), (
            old(self)@.c0.1 + cpos(old(self)@.y + y) - old(self)@.y))),
            final(self)@.c1 == cpt(((old(self)@.c1.0 + cpos(old(self)@.x + x) - old(self)@.x), (
            old(self)@.c1.1 + cpos(old(self)@.y + y) - old(self)@.y))),
            final(self)@.c2 == cpt(((old(self)@.c2.0 + cpos(old(self)@.x + x) - old(self)@.x), (
            old(self)@.c2.1 + cpos(old(self)@.y + y) - old(self)@.y))),
    {
        let old_x = self.x as i64;
        let old_y = self.y as i64;
        let nx = clamp_position_wide(old_x + x as i64);
        let ny = clamp_position_wide(old_y + y as i64);
        self.x = nx;
        self.y = ny;
        let dx = nx as i64 - old_x;
        let dy = ny as i64 - old_y;
        self.c0 = shift_pt(self.c0, dx, dy);
        self.c1 = shift_pt(self.c1, dx, dy);
        self.c2 = shift_pt(self.c2, dx, dy);
        self.c3 = derive_c3(self.c0, self.c1, self.c2);
    }

    /// Moves this rectangle to the given position after clamping it,
    /// translating the corners by the movement actually applied.
    pub fn reposition(&mut self, x: i32, y: i32)
        requires
            old(self).wf(),
        ensures
            final(self).wf(),
            final(self)@.x == cpos(x as int),
            final(self)@.y == cpos(y as int),
            final(self)@.w == old(self)@.w,
            final(self)@.h == old(self)@.h,
            final(self)@.theta == old(self)@.theta,
            final(self)@.c0 == cpt(((old(self)@.c0.0 + cpos(x as int) - old(self)@.x), (old(
            self)@.c0.1 + cpos(y as int) - old(self)@.y))),
            final(self)@.c1 == cpt(((old(self)@.c1.0 + cpos(x as int) - old(self)@.x), (old(
            self)@.c1.1 + cpos(y as int) - old(self)@.y))),
            final(self)@.c2 == cpt(((old(self)@.c2.0 + cpos(x as int) - old(self)@.x), (old(
            self)@.c2.1 + cpos(y as int) - old(self)@.y))),
    {
        let old_x = self.x as i64;
        let old_y = self.y as i64;
        self.x = clamp_position(x);
        self.y = clamp_position(y);
        let dx = self.x as i64 - old_x;
        let dy = self.y as i64 - old_y;
        self.c0 = shift_pt(self.c0, dx, dy);
        self.c1 = shift_pt(self.c1, dx, dy);
        self.c2 = shift_pt(self.c2, dx, dy);
        self.c3 = derive_c3(self.c0, self.c1, self.c2);
    }

    /// The rectangle's center point: the midpoint of the diagonal from
    /// the original top-left corner to the opposite corner.
    pub fn center(&self) -> (r: Point)
        requires
            self.wf(),
        ensures
            r.x == tdiv(self@.c0.0 + self@.c2.0, 2),
            r.y == tdiv(self@.c0.1 + self@.c2.1, 2),
    {
        Point {
            x: tdiv_i64(self.c0.x + self.c2.x, 2),
            y: tdiv_i64(self.c0.y + self.c2.y, 2),
        }
    }

    /// Centers the rectangle on the given point, whose coordinates are
    /// clamped to the safe range first.
    pub fn center_on(&mut self, x: i32, y: i32)
        requires
            old(self).wf(),
        ensures
            final(self).wf(),
            final(self)@.w == old(self)@.w,
            final(self)@.h == old(self)@.h,
            final(self)@.theta == old(self)@.theta,
            final(self)@.c0 == cpt(((old(self)@.c0.0 + cpos(x as int) - tdiv(old(self)@.c0.0 + old(
            self)@.c2.0, 2)), (old(self)@.c0.1 + cpos(y as int) - tdiv(old(self)@.c0.1 + old(
            self)@.c2.1, 2)))),
            final(self)@.c1 == cpt(((old(self)@.c1.0 + cpos(x as int) - tdiv(old(self)@.c0.0 + old(
            self)@.c2.0, 2)), (old(self)@.c1.1 + cpos(y as int) - tdiv(old(self)@.c0.1 + old(
            self)@.c2.1, 2)))),
            final(self)@.c2 == cpt(((old(self)@.c2.0 + cpos(x as int) - tdiv(old(self)@.c0.0 + old(
            self)@.c2.0, 2)), (old(self)@.c2.1 + cpos(y as int) - tdiv(old(self)@.c0.1 + old(
            self)@.c2.1, 2)))),
            final(self)@.x == cpos(final(self)@.c0.0),
            final(self)@.y == cpos(final(self)@.c0.1),
    {
        let c = self.center();
        let dx = clamp_position(x) as i64 - c.x;
        let dy = clamp_position(y) as i64 - c.y;
        self.c0 = shift_pt(self.c0, dx, dy);
        self.c1 = shift_pt(self.c1, dx, dy);
        self.c2 = shift_pt(self.c2, dx, dy);
        self.c3 = derive_c3(self.c0, self.c1, self.c2);
        self.x = clamp_position_wide(self.c0.x);
        self.y = clamp_position_wide(self.c0.y);
    }

    /// The rectangle's current leftmost corner; among equals, the latest
    /// in corner order.
    pub fn left(&self) -> (r: Point)
        requires
            self.wf(),
        ensures
            (r.x as int, r.y as int) == pick_left(self@),
    {
        let mut best = self.c0;
        if self.c1.x <= best.x {
            best = self.c1;
        }
        if self.c2.x <= best.x {
            best = self.c2;
        }
        if self.c3.x <= best.x {
            best = self.c3;
        }
        best
    }

    /// The rectangle's current rightmost corner; among equals, the latest
    /// in corner order.
    pub fn right(&self) -> (r: Point)
        requires
            self.wf(),
        ensures
            (r.x as int, r.y as int) == pick_right(self@),
    {
        let mut best = self.c0;
        if self.c1.x >= best.x {
            best = self.c1;
        }
        if self.c2.x >= best.x {
            best = self.c2;
        }
        if self.c3.x >= best.x {
            best = self.c3;
        }
        best
    }

    /// The rectangle's current topmost corner (least vertical
    /// coordinate); among equals, the latest in corner order.
    pub fn top(&self) -> (r: Point)
        requires
            self.wf(),
        ensures
            (r.x as int, r.y as int) == pick_top(self@),
    {
        let mut best = self.c0;
        if self.c1.y <= best.y {
            best = self.c1;
        }
        if self.c2.y <= best.y {
            best = self.c2;
        }
        if self.c3.y <= best.y {
            best = self.c3;
        }
        best
    }

    /// The rectangle's current bottom-most corner (greatest vertical
    /// coordinate); among equals, the latest in corner order.
    pub fn bottom(&self) -> (r: Point)
        requires
            self.wf(),
        ensures
            (r.x as int, r.y as int) == pick_bottom(self@),
    {
        let mut best = self.c0;
        if self.c1.y >= best.y {
            best = self.c1;
        }
        if self.c2.y >= best.y {
            best = self.c2;
        }
        if self.c3.y >= best.y {
            best = self.c3;
        }
        best
    }

    /// Rotates all four corners about the rectangle's current center by
    /// `theta_delta` (standard 2D rotation matrix), advances the stored
    /// angle by the delta modulo a full turn, and recomputes the
    /// reference position from the first corner.
    pub fn rotate(&mut self, theta_delta: i64)
        requires
            old(self).wf(),
            -ANGLE_LIMIT <= theta_delta <= ANGLE_LIMIT,
        ensures
            final(self).wf(),
            final(self)@ == spec_rotated(old(self)@, theta_delta as int),
    {
        let cx = tdiv_i64(self.c0.x + self.c2.x, 2);
        let cy = tdiv_i64(self.c0.y + self.c2.y, 2);
        let s = sin_fp(theta_delta);
        let co = cos_fp(theta_delta);
        self.c0 = rot_corner(self.c0, cx, cy, s, co);
        self.c1 = rot_corner(self.c1, cx, cy, s, co);
        self.c2 = rot_corner(self.c2, cx, cy, s, co);
        self.c3 = derive_c3(self.c0, self.c1, self.c2);
        self.theta = norm_angle_fp(self.theta + theta_delta);
        self.x = clamp_position_wide(self.c0.x);
        self.y = clamp_position_wide(self.c0.y);
    }

    /// Rotates the rectangle so that its stored angle becomes the given
    /// value (modulo a full turn).
    pub fn set_angle(&mut self, theta: i64)
        requires
            old(self).wf(),
            -ANGLE_LIMIT + TWO_PI_FP <= theta <= ANGLE_LIMIT - TWO_PI_FP,
        ensures
            final(self).wf(),
            final(self)@ == spec_rotated(old(self)@, theta - old(self)@.theta),
            final(self)@.theta == norm_angle(theta as int),
    {
        let d = theta - self.theta;
        self.rotate(d);
    }

    /// Resizes this rectangle to the given size after clamping it,
    /// rebuilding the last three corners from the first along the
    /// current rotation direction.
    pub fn resize(&mut self, width: u32, height: u32)
        requires
            old(self).wf(),
        ensures
            final(self).wf(),
            final(self)@ == spec_resized(old(self)@, width as int, height as int),
    {
        let w = clamp_size(width) as i64;
        let h = clamp_size(height) as i64;
        let dirx = cos_fp(self.theta);
        let diry = sin_fp(self.theta);
        proof {
            lemma_small_product(w as int, dirx as int, 0x4000_0000, FP_ONE as int);
            lemma_small_product(w as int, diry as int, 0x4000_0000, FP_ONE as int);
            lemma_small_product(h as int, dirx as int, 0x4000_0000, FP_ONE as int);
            lemma_small_product(h as int, diry as int, 0x4000_0000, FP_ONE as int);
        }
        let wx = tdiv_i64(w * dirx, FP_ONE);
        let wy = tdiv_i64(w * diry, FP_ONE);
        let hx = tdiv_i64(-(h * diry), FP_ONE);
        let hy = tdiv_i64(h * dirx, FP_ONE);
        self.c1 = shift_pt(self.c0, wx, wy);
        self.c2 = shift_pt(self.c0, wx + hx, wy + hy);
        self.c3 = derive_c3(self.c0, self.c1, self.c2);
        self.w = w as i32;
        self.h = h as i32;
    }

    /// Checks whether this rectangle contains a given point, by the
    /// even-odd ray-casting rule over the four corners.
    pub fn contains_point(&self, point: Point) -> (r: bool)
        requires
            self.wf(),
        ensures
            r == rect_contains(self@, point.x as int, point.y as int),
    {
        let e0 = edge_test(self.c0, self.c3, point.x, point.y);
        let e1 = edge_test(self.c1, self.c0, point.x, point.y);
        let e2 = edge_test(self.c2, self.c1, point.x, point.y);
        let e3 = edge_test(self.c3, self.c2, point.x, point.y);
        ((e0 != e1) != e2) != e3
    }

    /// Checks whether this rectangle contains a given point; the same
    /// test as `contains_point`.
    pub fn contains(&self, x: i64, y: i64) -> (r: bool)
        requires
            self.wf(),
        ensures
            r == rect_contains(self@, x as int, y as int),
    {
        self.contains_point(Point { x, y })
    }

    /// Checks whether this rectangle intersects a given rectangle: true
    /// exactly when a corner of either lies inside the other.
    pub fn has_intersection(&self, other: PhysRect) -> (r: bool)
        requires
            self.wf(),
            other.wf(),
        ensures
            r == rect_intersects(self@, other@),
    {
        if self.contains_point(other.c0) {
            return true;
        }
        if self.contains_point(other.c1) {
            return true;
        }
        if self.contains_point(other.c2) {
            return true;
        }
        if self.contains_point(other.c3) {
            return true;
        }
        if other.contains_point(self.c0) {
            return true;
        }
        if other.contains_point(self.c1) {
            return true;
        }
        if other.contains_point(self.c2) {
            return true;
        }
        if other.contains_point(self.c3) {
            return true;
        }
        false
    }

    /// The index of the corner of this rectangle that comes closest to a
    /// side midpoint of the given rectangle: 0, 1, 2 and 3 name the
    /// corners in construction order, read by collision handling as top,
    /// right, bottom and left.  Among equally close corners the highest
    /// index wins.
    pub fn nearest_side(&self, other: PhysRect) -> (r: i32)
        requires
            self.wf(),
            other.wf(),
        ensures
            0 <= r < 4,
            r == spec_nearest_side(self@, other@),
            forall|i: int|
                0 <= i < 4 ==> corner_best_d2(self@, other@, r as int) <= corner_best_d2(
                    self@,
                    other@,
                    i,
                ),
            forall|i: int|
                r < i < 4 ==> corner_best_d2(self@, other@, i) > corner_best_d2(
                    self@,
                    other@,
                    r as int,
                ),
    {
        let m0 = mid_corner(other.c0, other.c3);
        let m1 = mid_corner(other.c1, other.c0);
        let m2 = mid_corner(other.c2, other.c1);
        let m3 = mid_corner(other.c3, other.c2);
        let row0 = min_i128(
            min_i128(dist2(self.c0, m0), dist2(self.c0, m1)),
            min_i128(dist2(self.c0, m2), dist2(self.c0, m3)),
        );
        let row1 = min_i128(
            min_i128(dist2(self.c1, m0), dist2(self.c1, m1)),
            min_i128(dist2(self.c1, m2), dist2(self.c1, m3)),
        );
        let row2 = min_i128(
            min_i128(dist2(self.c2, m0), dist2(self.c2, m1)),
            min_i128(dist2(self.c2, m2), dist2(self.c2, m3)),
        );
        let row3 = min_i128(
            min_i128(dist2(self.c3, m0), dist2(self.c3, m1)),
            min_i128(dist2(self.c3, m2), dist2(self.c3, m3)),
        );
        let mut side: i32 = 0;
        let mut best: i128 = row0;
        if row1 <= best {
            best = row1;
            side = 1;
        }
        if row2 <= best {
            best = row2;
            side = 2;
        }
        if row3 <= best {
            best = row3;
            side = 3;
        }
        side
    }

    /// The four corners in clockwise order starting with the original
    /// top-left.
    pub fn coords(&self) -> (r: [Point; 4])
        ensures
            r[0].x == self@.c0.0 && r[0].y == self@.c0.1,
            r[1].x == self@.c1.0 && r[1].y == self@.c1.1,
            r[2].x == self@.c2.0 && r[2].y == self@.c2.1,
            r[3].x == self@.c3.0 && r[3].y == self@.c3.1,
    {
        [self.c0, self.c1, self.c2, self.c3]
    }
}

/// Law: the center of a well-formed rectangle is the centroid of its
/// four corners — the diagonal midpoint that `center` returns equals the
/// average of all four corner points, coordinate by coordinate.
pub proof fn lemma_center_is_centroid(s: RectShape)
    requires
        rect_wf(s),
    ensures
        tdiv(s.c0.0 + s.c2.0, 2) == tdiv(s.c0.0 + s.c1.0 + s.c2.0 + s.c3.0, 4),
        tdiv(s.c0.1 + s.c2.1, 2) == tdiv(s.c0.1 + s.c1.1 + s.c2.1 + s.c3.1, 4),
{
    lemma_double_quarter(s.c0.0 + s.c2.0);
    lemma_double_quarter(s.c0.1 + s.c2.1);
}

/// A quarter of a doubled value is half the value, under truncating
/// division.
proof fn lemma_double_quarter(t: int)
    ensures
        tdiv(2 * t, 4) == tdiv(t, 2),
{
    assert(iabs(2 * t) == 2 * iabs(t));
    assert((2 * iabs(t)) / 4 == iabs(t) / 2) by (nonlinear_arith)
        requires
            iabs(t) >= 0,
    ;
}

/// Law: on an axis-aligned rectangle the even-odd containment test is
/// exactly the standard bounds check, with the left and top edges
/// inclusive and the right and bottom edges exclusive.
pub proof fn lemma_axis_aligned_contains(s: RectShape, px: int, py: int)
    requires
        rect_wf(s),
        is_axis_aligned(s),
    ensures
        rect_contains(s, px, py) == (s.x <= px < s.x + s.w && s.y <= py < s.y + s.h),
{
    assert(tdiv(0, s.h) == 0);
    assert(tdiv(0, -s.h) == 0);
    assert(edge_crosses(s.c1, s.c0, px, py) == false);
    assert(edge_crosses(s.c3, s.c2, px, py) == false);
    assert(edge_crosses(s.c0, s.c3, px, py) == (s.y <= py < s.y + s.h && px < s.x));
    assert(edge_crosses(s.c2, s.c1, px, py) == (s.y <= py < s.y + s.h && px < s.x + s.w));
}

/// Scaling by the fixed-point unit and dividing by it again is exact.
proof fn lemma_scale_div_exact(d: int)
    ensures
        tdiv(FP_ONE as int * d, FP_ONE as int) == d,
{
    if d >= 0 {
        assert((FP_ONE as int * d) / (FP_ONE as int) == d) by (nonlinear_arith)
            requires
                d >= 0,
        ;
    } else {
        assert(iabs(FP_ONE as int * d) == FP_ONE as int * (-d)) by (nonlinear_arith)
            requires
                d < 0,
        ;
        assert((FP_ONE as int * (-d)) / (FP_ONE as int) == -d) by (nonlinear_arith)
            requires
                d < 0,
        ;
    }
}

/// Law: a rotation by zero moves nothing — every corner, the size and
/// the angle of a well-formed rectangle stay exactly as they are.  (A
/// rotation and its inverse restore the corners only up to rounding,
/// which the zero turn shows exactly.)
pub proof fn lemma_rotate_zero_is_identity(s: RectShape)
    requires
        rect_wf(s),
    ensures
        spec_rotated(s, 0).c0 == s.c0,
        spec_rotated(s, 0).c1 == s.c1,
        spec_rotated(s, 0).c2 == s.c2,
        spec_rotated(s, 0).c3 == s.c3,
        spec_rotated(s, 0).theta == s.theta,
        spec_rotated(s, 0).w == s.w,
        spec_rotated(s, 0).h == s.h,
{
    assert(norm_angle(0) == 0);
    assert(sin_fp_of(0) == 0);
    assert(cos_fp_of(0) == sin_fp_of(crate::fixed::HALF_PI_FP as int));
    assert(sin_fp_of(crate::fixed::HALF_PI_FP as int) == FP_ONE) by {
        assert(norm_angle(crate::fixed::HALF_PI_FP as int) == crate::fixed::HALF_PI_FP);
        assert(crate::fixed::bhaskara(1571) == 1000) by {
            assert(1571int * (3142 - 1571) == 2468041);
            assert(16int * 2468041 * 1000 == 39488656000);
            assert(5int * 3142 * 3142 - 4 * 2468041 == 39488656);
            assert(39488656000int / 39488656int == 1000) by (nonlinear_arith)
                requires
                    39488656000int == 1000 * 39488656int,
            ;
            assert(tdiv(39488656000, 39488656) == 1000);
        };
    };
    let c = (tdiv(s.c0.0 + s.c2.0, 2), tdiv(s.c0.1 + s.c2.1, 2));
    lemma_rot_zero_pt(s.c0, c);
    lemma_rot_zero_pt(s.c1, c);
    lemma_rot_zero_pt(s.c2, c);
    assert(norm_angle(s.theta + 0) == s.theta) by {
        assert(s.theta % (TWO_PI_FP as int) == s.theta) by (nonlinear_arith)
            requires
                0 <= s.theta < TWO_PI_FP,
        ;
    };
}

/// A rotation step with sine zero and cosine one returns the corner it
/// was given.
proof fn lemma_rot_zero_pt(p: (int, int), c: (int, int))
    requires
        in_coord(p),
    ensures
        cpt(rot_pt(p, c, 0, FP_ONE as int)) == p,
{
    lemma_scale_div_exact(p.0 - c.0);
    lemma_scale_div_exact(p.1 - c.1);
    assert(tdiv(0, FP_ONE as int) == 0);
}

/// One coordinate of the double-turn error, bounded: with `t` the
/// result offset numerator of the second turn, the identity
/// `FP_ONE * t == (s*s + co*co) * d - (ca * ru + cb * rv)` and the
/// remainder bounds deliver the final bound.
proof fn lemma_round_trip_coord(d: int, s: int, co: int, t: int, ca: int, cb: int, ru: int, rv: int)
    requires
        -FP_ONE <= s <= FP_ONE,
        -FP_ONE <= co <= FP_ONE,
        -FP_ONE <= ca <= FP_ONE,
        -FP_ONE <= cb <= FP_ONE,
        -FP_ONE < ru < FP_ONE,
        -FP_ONE < rv < FP_ONE,
        FP_ONE * t == (s * s + co * co) * d - (ca * ru + cb * rv),
    ensures
        FP_ONE * FP_ONE * iabs(tdiv(t, FP_ONE as int) - d) <= iabs(s * s + co * co - FP_ONE
            * FP_ONE) * iabs(d) + 3 * FP_ONE * FP_ONE,
{
    crate::fixed::lemma_trunc_remainder(t, FP_ONE as int);
    let rw = t - FP_ONE * tdiv(t, FP_ONE as int);
    let e = s * s + co * co - FP_ONE * FP_ONE;
    assert(FP_ONE * FP_ONE * (tdiv(t, FP_ONE as int) - d) == e * d - (ca * ru + cb * rv) - FP_ONE
        * rw) by (nonlinear_arith)
        requires
            FP_ONE * t == (s * s + co * co) * d - (ca * ru + cb * rv),
            rw == t - FP_ONE * tdiv(t, FP_ONE as int),
            e == s * s + co * co - FP_ONE * FP_ONE,
    ;
    assert(iabs(e * d) == iabs(e) * iabs(d)) by (nonlinear_arith);
    assert(iabs(ca * ru) <= FP_ONE * FP_ONE) by (nonlinear_arith)
        requires
            -FP_ONE <= ca <= FP_ONE && -FP_ONE < ru < FP_ONE,
    ;
    assert(iabs(cb * rv) <= FP_ONE * FP_ONE) by (nonlinear_arith)
        requires
            -FP_ONE <= cb <= FP_ONE && -FP_ONE < rv < FP_ONE,
    ;
    assert(iabs(FP_ONE * rw) <= FP_ONE * FP_ONE) by (nonlinear_arith)
        requires
            -FP_ONE < rw < FP_ONE,
    ;
    assert(FP_ONE * FP_ONE * iabs(tdiv(t, FP_ONE as int) - d) == iabs(FP_ONE * FP_ONE * (tdiv(
        t,
        FP_ONE as int,
    ) - d))) by (nonlinear_arith);
}

/// Law: a turn and its inverse about a common center compose to a
/// near-identity.  Each coordinate of the doubly rotated point differs
/// from the original by at most the trig defect — how far the squares
/// of the turn's sine and cosine fall short of one — scaled by the
/// point's offset from the center, plus three units of rounding.  (The
/// rectangle operation re-derives its center between the turns and
/// saturates far-out coordinates, which can add a few more units; the
/// round-trip tests exercise that whole path.)
pub proof fn lemma_rot_pt_round_trip(p: (int, int), c: (int, int), s: int, co: int)
    requires
        -FP_ONE <= s <= FP_ONE,
        -FP_ONE <= co <= FP_ONE,
    ensures
        ({
            let r = rot_pt(rot_pt(p, c, s, co), c, -s, co);
            let e = iabs(s * s + co * co - FP_ONE * FP_ONE);
            &&& FP_ONE * FP_ONE * iabs(r.0 - p.0) <= e * iabs(p.0 - c.0) + 3 * FP_ONE * FP_ONE
            &&& FP_ONE * FP_ONE * iabs(r.1 - p.1) <= e * iabs(p.1 - c.1) + 3 * FP_ONE * FP_ONE
        }),
{
    let dx = p.0 - c.0;
    let dy = p.1 - c.1;
    let u = co * dx - s * dy;
    let v = s * dx + co * dy;
    let tu = tdiv(u, FP_ONE as int);
    let tv = tdiv(v, FP_ONE as int);
    crate::fixed::lemma_trunc_remainder(u, FP_ONE as int);
    crate::fixed::lemma_trunc_remainder(v, FP_ONE as int);
    let ru = u - FP_ONE * tu;
    let rv = v - FP_ONE * tv;
    let wx = co * tu + s * tv;
    let wy = -s * tu + co * tv;
    assert(co * u + s * v == (s * s + co * co) * dx) by (nonlinear_arith)
        requires
            u == co * dx - s * dy,
            v == s * dx + co * dy,
    ;
    assert(-s * u + co * v == (s * s + co * co) * dy) by (nonlinear_arith)
        requires
            u == co * dx - s * dy,
            v == s * dx + co * dy,
    ;
    assert(FP_ONE * wx == co * u + s * v - (co * ru + s * rv)) by (nonlinear_arith)
        requires
            ru == u - FP_ONE * tu,
            rv == v - FP_ONE * tv,
            wx == co * tu + s * tv,
    ;
    assert(FP_ONE * wy == -s * u + co * v - ((-s) * ru + co * rv)) by (nonlinear_arith)
        requires
            ru == u - FP_ONE * tu,
            rv == v - FP_ONE * tv,
            wy == -s * tu + co * tv,
    ;
    lemma_round_trip_coord(dx, s, co, wx, co, s, ru, rv);
    lemma_round_trip_coord(dy, s, co, wy, -s, co, ru, rv);
    assert(co * tu - (-s) * tv == wx) by (nonlinear_arith)
        requires
            wx == co * tu + s * tv,
    ;
    assert(rot_pt(rot_pt(p, c, s, co), c, -s, co).0 - p.0 == tdiv(wx, FP_ONE as int) - dx);
    assert(rot_pt(rot_pt(p, c, s, co), c, -s, co).1 - p.1 == tdiv(wy, FP_ONE as int) - dy);
}

/// Law: the inverse turn's coefficients are exactly the negated sine
/// and the unchanged cosine of the forward turn, so rotating by an
/// angle and then by its negation composes the two matrices of
/// `lemma_rot_pt_round_trip`: about a common center, each coordinate
/// comes back to within the angle's trig defect scaled by the offset,
/// plus three units of rounding.
pub proof fn lemma_rotation_round_trip(p: (int, int), c: (int, int), d: int)
    ensures
        sin_fp_of(-d) == -sin_fp_of(d),
        cos_fp_of(-d) == cos_fp_of(d),
        ({
            let s = sin_fp_of(d);
            let co = cos_fp_of(d);
            let r = rot_pt(rot_pt(p, c, s, co), c, sin_fp_of(-d), cos_fp_of(-d));
            let e = iabs(s * s + co * co - FP_ONE * FP_ONE);
            &&& FP_ONE * FP_ONE * iabs(r.0 - p.0) <= e * iabs(p.0 - c.0) + 3 * FP_ONE * FP_ONE
            &&& FP_ONE * FP_ONE * iabs(r.1 - p.1) <= e * iabs(p.1 - c.1) + 3 * FP_ONE * FP_ONE
        }),
{
    crate::fixed::lemma_sin_fp_odd(d);
    crate::fixed::lemma_cos_fp_even(d);
    crate::fixed::lemma_sin_fp_bounds(d);
    crate::fixed::lemma_cos_fp_bounds(d);
    lemma_rot_pt_round_trip(p, c, sin_fp_of(d), cos_fp_of(d));
}

/// Law: intersection testing is symmetric — swapping the two rectangles
/// never changes the answer.
pub proof fn lemma_intersection_symmetric(a: RectShape, b: RectShape)
    ensures
        rect_intersects(a, b) == rect_intersects(b, a),
{
}

} // verus!
