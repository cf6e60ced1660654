use vstd::prelude::*;
use vstd::math::abs;
use vstd::arithmetic::div_mod::{
    lemma_div_pos_is_pos, lemma_multiply_divide_le, lemma_hoist_over_denominator,
    lemma_div_is_ordered,
};
use crate::limits::{COORD_MAX, RADIUS_MAX, POINT_MAX};
use crate::num::{sqrt_floor, isqrt, abs_i64, lemma_sqrt_le};
use crate::style::{Style, style_wf};
use crate::trig::{
    angle_spec, cos_fp_spec, sin_fp_spec, scaled_spec, angle_fp, cos_fp, sin_fp, scaled,
    lemma_cos_sin_bounds, lemma_scaled_bound, lemma_angle_strictly_increasing, TURN_FULL,
};

verus! {

/// A position in the plane, in model units.
#[derive(Clone, Copy, PartialEq, Eq, Structural, Debug)]
pub struct Point {
    pub x: i64,
    pub y: i64,
}

/// The point lies within the coordinate range allowed for shape centers.
pub open spec fn in_coord_range(p: Point) -> bool {
    &&& -COORD_MAX <= p.x <= COORD_MAX
    &&& -COORD_MAX <= p.y <= COORD_MAX
}

/// The point lies within the range boundary points can reach.
pub open spec fn in_point_range(p: Point) -> bool {
    &&& -POINT_MAX <= p.x <= POINT_MAX
    &&& -POINT_MAX <= p.y <= POINT_MAX
}

/// One polygon approximation of a circle: a fixed center, the style
/// captured when it was dropped, and an ordered sequence of boundary
/// points. Only the points are ever mutated after creation, by the
/// marbling transform of a later drop.
#[derive(Clone, Debug)]
pub struct Ellipse {
    pub center: Point,
    pub properties: Style,
    pub points: Vec<Point>,
}

/// The x coordinate of constructed boundary point `i` of `n`, at angle
/// `i / n` of a turn and distance `r` from the center abscissa `cx`.
pub open spec fn point_x_spec(cx: int, r: int, i: int, n: int) -> int {
    cx + scaled_spec(r, cos_fp_spec(angle_spec(i, n)))
}

/// The y coordinate of constructed boundary point `i` of `n`.
pub open spec fn point_y_spec(cy: int, r: int, i: int, n: int) -> int {
    cy + scaled_spec(r, sin_fp_spec(angle_spec(i, n)))
}

/// `pts` is exactly the point sequence construction yields for a center
/// `(cx, cy)`, radius `r` and edge count `n`: one point per edge, in
/// increasing-angle order.
pub open spec fn constructed_points(pts: Seq<Point>, cx: int, cy: int, r: int, n: int) -> bool {
    &&& pts.len() == n
    &&& forall|i: int|
        0 <= i < n ==> (#[trigger] pts[i]).x == point_x_spec(cx, r, i, n) && pts[i].y
            == point_y_spec(cy, r, i, n)
}

/// The direction measure the marbling transform divides by: with
/// `(dx, dy)` the influenced center relative to the influencer's center,
/// this is `dx * dy + dy * dy`. When it is zero the transform is singular.
pub open spec fn delta_m(sc: Point, c: Point) -> int {
    let dx = sc.x - c.x;
    let dy = sc.y - c.y;
    dx * dy + dy * dy
}

/// One component of the center offset `d`, scaled by the marbling factor
/// `sqrt(m * m + r * r) / |m|`, rounding the magnitude down.
pub open spec fn scale_toward(d: int, m: int, r: int) -> int {
    let k = sqrt_floor((m * m + r * r) as nat) as int;
    if d >= 0 {
        (d * k) / abs(m) as int
    } else {
        -((-d * k) / abs(m) as int)
    }
}

/// The x coordinate every point of a shape centered at `sc` takes after
/// being marbled by an influencer at `c` with radius `r`. At the singular
/// direction measure the scale factor falls back to one, which sends each
/// point to the shape's own center.
pub open spec fn marbled_x_spec(sc: Point, c: Point, r: int) -> int {
    if delta_m(sc, c) == 0 {
        sc.x as int
    } else {
        c.x + scale_toward(sc.x - c.x, delta_m(sc, c), r)
    }
}

/// The y coordinate every point of a shape centered at `sc` takes after
/// being marbled by an influencer at `c` with radius `r`.
pub open spec fn marbled_y_spec(sc: Point, c: Point, r: int) -> int {
    if delta_m(sc, c) == 0 {
        sc.y as int
    } else {
        c.y + scale_toward(sc.y - c.y, delta_m(sc, c), r)
    }
}

/// `post` is exactly `pre` after one marbling pass under an influencer
/// centered at `c` with radius `r`: center and style are untouched, and
/// every boundary point is remapped to the marbled position.
pub open spec fn marbled_rel(pre: Ellipse, post: Ellipse, c: Point, r: int) -> bool {
    &&& post.center == pre.center
    &&& post.properties == pre.properties
    &&& post.points@.len() == pre.points@.len()
    &&& forall|i: int|
        0 <= i < post.points@.len() ==> (#[trigger] post.points@[i]).x as int == marbled_x_spec(
            pre.center,
            c,
            r,
        ) && post.points@[i].y as int == marbled_y_spec(pre.center, c, r)
}

impl Ellipse {
    /// A well-formed shape: one boundary point per edge of its style, a
    /// well-formed style, a center within coordinate range, and every
    /// boundary point within the reachable point range.
    pub open spec fn wf(self) -> bool {
        &&& self.points@.len() == self.properties.edges as int
        &&& style_wf(self.properties)
        &&& in_coord_range(self.center)
        &&& forall|i: int|
            0 <= i < self.points@.len() ==> in_point_range(#[trigger] self.points@[i])
    }

    /// Create a shape at `(x, y)`: `settings.edges` boundary points evenly
    /// distributed by angle on the circle of radius `settings.radius`
    /// around the center, point `i` at angle `i / edges` of a turn.
    pub fn new(x: i64, y: i64, settings: Style) -> (e: Ellipse)
        requires
            -COORD_MAX <= x <= COORD_MAX,
            -COORD_MAX <= y <= COORD_MAX,
            style_wf(settings),
        ensures
            e.wf(),
            e.center == (Point { x, y }),
            e.properties == settings,
            constructed_points(
                e.points@,
                x as int,
                y as int,
                settings.radius as int,
                settings.edges as int,
            ),
    {
        let n: u32 = settings.edges;
        let r: i64 = settings.radius;
        let mut points: Vec<Point> = Vec::new();
        let mut i: u32 = 0;
        while i < n
            invariant
                i <= n,
                points@.len() == i as int,
                -COORD_MAX <= x <= COORD_MAX,
                -COORD_MAX <= y <= COORD_MAX,
                0 <= r <= RADIUS_MAX,
                forall|j: int|
                    0 <= j < i as int ==> (#[trigger] points@[j]).x == point_x_spec(
                        x as int,
                        r as int,
                        j,
                        n as int,
                    ) && points@[j].y == point_y_spec(y as int, r as int, j, n as int),
                forall|j: int| 0 <= j < i as int ==> in_point_range(#[trigger] points@[j]),
            decreases n - i,
        {
            let a = angle_fp(i as u64, n as u64);
            let c = cos_fp(a);
            let s = sin_fp(a);
            let px = x + scaled(r, c);
            let py = y + scaled(r, s);
            points.push(Point { x: px, y: py });
            i += 1;
        }
        Ellipse { center: Point { x, y }, properties: settings, points }
    }

    /// The boundary points expressed relative to the shape's own center,
    /// in order: what a renderer that translates by the center draws.
    pub fn local_points(&self) -> (r: Vec<Point>)
        requires
            self.wf(),
        ensures
            r@.len() == self.points@.len(),
            forall|i: int|
                0 <= i < r@.len() ==> (#[trigger] r@[i]).x as int == self.points@[i].x
                    - self.center.x && r@[i].y as int == self.points@[i].y - self.center.y,
    {
        let len = self.points.len();
        let mut out: Vec<Point> = Vec::new();
        let mut i: usize = 0;
        while i < len
            invariant
                i <= len,
                len == self.points@.len(),
                self.wf(),
                out@.len() == i as int,
                forall|j: int|
                    0 <= j < i as int ==> (#[trigger] out@[j]).x as int == self.points@[j].x
                        - self.center.x && out@[j].y as int == self.points@[j].y - self.center.y,
            decreases len - i,
        {
            let p = self.points[i];
            out.push(Point { x: p.x - self.center.x, y: p.y - self.center.y });
            i += 1;
        }
        out
    }

    /// Remap every boundary point of this shape under the influence of
    /// `other`: scale the center offset by `sqrt(1 + r*r / (m*m))` and
    /// assign the resulting position to each point. Every point receives
    /// the same position, so one pass flattens the outline to a single
    /// spot; that collapse is the transform's literal behaviour and is
    /// kept deliberately. When the direction measure `m` is zero the
    /// scale falls back to one, so every point moves to this shape's own
    /// center and no undefined value arises.
    pub fn marble(&mut self, other: &Ellipse)
        requires
            old(self).wf(),
            other.wf(),
        ensures
            final(self).wf(),
            marbled_rel(
                *old(self),
                *final(self),
                other.center,
                other.properties.radius as int,
            ),
    {
        let dx = self.center.x - other.center.x;
        let dy = self.center.y - other.center.y;
        assert(-40_000_000_000_000_000 <= (dx as int) * (dy as int) <= 40_000_000_000_000_000
            && 0 <= (dy as int) * (dy as int) <= 40_000_000_000_000_000) by (nonlinear_arith)
            requires
                -200_000_000 <= dx as int <= 200_000_000,
                -200_000_000 <= dy as int <= 200_000_000,
        ;
        let m: i64 = dx * dy + dy * dy;
        let nx: i64;
        let ny: i64;
        if m == 0 {
            nx = self.center.x;
            ny = self.center.y;
        } else {
            let r = other.properties.radius;
            nx = other.center.x + scale_component(dx, m, r);
            ny = other.center.y + scale_component(dy, m, r);
        }
        let len = self.points.len();
        let mut pts: Vec<Point> = Vec::new();
        let mut i: usize = 0;
        while i < len
            invariant
                i <= len,
                pts@.len() == i as int,
                forall|j: int| 0 <= j < i as int ==> #[trigger] pts@[j] == (Point { x: nx, y: ny }),
            decreases len - i,
        {
            pts.push(Point { x: nx, y: ny });
            i += 1;
        }
        self.points = pts;
    }
}

/// One signed component of the marbling displacement: `d` scaled by
/// `sqrt(m * m + r * r) / |m|`, computed in 128-bit arithmetic.
fn scale_component(d: i64, m: i64, r: i64) -> (o: i64)
    requires
        m != 0,
        abs(d as int) <= 200_000_000,
        abs(m as int) <= 80_000_000_000_000_000,
        0 <= r <= 100_000_000,
    ensures
        o as int == scale_toward(d as int, m as int, r as int),
        abs(o as int) <= 20_000_000_200_000_000,
{
    let ma: u64 = abs_i64(m);
    let da: u64 = abs_i64(d);
    assert((ma as int) * (ma as int) == (m as int) * (m as int) && (ma as int) * (ma as int)
        <= 6_400_000_000_000_000_000_000_000_000_000_000) by (nonlinear_arith)
        requires
            ma as int == abs(m as int),
            abs(m as int) <= 80_000_000_000_000_000,
    ;
    assert(0 <= (r as int) * (r as int) <= 10_000_000_000_000_000) by (nonlinear_arith)
        requires
            0 <= r as int <= 100_000_000,
    ;
    let mm: u128 = (ma as u128) * (ma as u128);
    let rr: u128 = (r as u128) * (r as u128);
    let k: u64 = isqrt(mm + rr);
    proof {
        let mai = ma as int;
        let dai = da as int;
        let ri = r as int;
        let ki = k as int;
        // k is at most ma + r, because (ma + r)^2 covers ma^2 + r^2.
        assert((mai + ri) * (mai + ri) >= mai * mai + ri * ri) by (nonlinear_arith)
            requires
                0 <= mai,
                0 <= ri,
        ;
        lemma_sqrt_le((mm + rr) as nat, k as nat, (mai + ri) as nat);
        // So the scaled magnitude is at most da * r / ma + da, which in
        // turn is at most da * r + da.
        assert(dai * ki <= dai * (mai + ri) && dai * (mai + ri) == dai * ri + dai * mai)
            by (nonlinear_arith)
            requires
                0 <= dai,
                0 <= ki <= mai + ri,
        ;
        lemma_div_is_ordered(dai * ki, dai * ri + dai * mai, mai);
        lemma_hoist_over_denominator(dai * ri, dai, ma as nat);
        lemma_div_pos_is_pos(dai * ri, mai);
        assert(dai * ri <= mai * (dai * ri)) by (nonlinear_arith)
            requires
                1 <= mai,
                0 <= dai * ri,
        ;
        lemma_multiply_divide_le(dai * ri, mai, dai * ri);
        assert(dai * ri <= 20_000_000_000_000_000) by (nonlinear_arith)
            requires
                0 <= dai <= 200_000_000,
                0 <= ri <= 100_000_000,
        ;
        assert(dai * ki <= 16_020_000_060_000_000_000_000_000) by (nonlinear_arith)
            requires
                0 <= dai <= 200_000_000,
                0 <= ki <= 80_000_000_100_000_000,
        ;
        lemma_div_pos_is_pos(dai * ki, mai);
    }
    let mag128: u128 = (da as u128) * (k as u128) / (ma as u128);
    let mag: i64 = mag128 as i64;
    if d >= 0 {
        mag
    } else {
        -mag
    }
}

/// Law: every constructed boundary point lies within distance `radius`
/// of the center in each coordinate, and boundary points come in strictly
/// increasing angle order, as long as the edge count does not exceed the
/// angle resolution of a full turn.
pub proof fn lemma_construction_geometry(pts: Seq<Point>, cx: int, cy: int, r: int, n: int)
    requires
        constructed_points(pts, cx, cy, r, n),
        0 < n <= TURN_FULL,
        0 < r <= RADIUS_MAX,
    ensures
        forall|i: int|
            0 <= i < n ==> abs((#[trigger] pts[i]).x - cx) <= r && abs(pts[i].y - cy) <= r,
        forall|i: int, j: int| 0 <= i < j < n ==> angle_spec(i, n) < angle_spec(j, n),
{
    assert forall|i: int| 0 <= i < n implies abs((#[trigger] pts[i]).x - cx) <= r && abs(
        pts[i].y - cy,
    ) <= r by {
        let a = angle_spec(i, n);
        assert(0 <= a < TURN_FULL) by {
            lemma_div_pos_is_pos(i * (TURN_FULL as int), n);
            assert(i * (TURN_FULL as int) < n * (TURN_FULL as int)) by (nonlinear_arith)
                requires
                    0 <= i < n,
            ;
            vstd::arithmetic::div_mod::lemma_multiply_divide_lt(
                i * (TURN_FULL as int),
                n,
                TURN_FULL as int,
            );
        }
        lemma_cos_sin_bounds(a);
        lemma_scaled_bound(r, cos_fp_spec(a));
        lemma_scaled_bound(r, sin_fp_spec(a));
    }
    assert forall|i: int, j: int| 0 <= i < j < n implies angle_spec(i, n) < angle_spec(j, n) by {
        lemma_angle_strictly_increasing(i, j, n);
    }
}

/// Law: the marbling transform is deterministic. Two post-states related
/// to the same pre-state under the same influencer data agree on every
/// field, so repeating the transform on a copy gives the same result.
pub proof fn lemma_marble_deterministic(
    pre: Ellipse,
    post1: Ellipse,
    post2: Ellipse,
    c: Point,
    r: int,
)
    requires
        marbled_rel(pre, post1, c, r),
        marbled_rel(pre, post2, c, r),
    ensures
        post1.center == post2.center,
        post1.properties == post2.properties,
        post1.points@ =~= post2.points@,
{
    assert forall|i: int| 0 <= i < post1.points@.len() implies post1.points@[i]
        == post2.points@[i] by {
        assert(post1.points@[i].x as int == marbled_x_spec(pre.center, c, r));
        assert(post2.points@[i].x as int == marbled_x_spec(pre.center, c, r));
    }
}

/// Law: a singular drop leaves every point defined. When the direction
/// measure is zero — in particular when the influencer lands exactly on
/// this shape's center — each boundary point moves to the shape's own
/// center; no division happens and no undefined value can reach a caller.
pub proof fn lemma_singular_drop_defined(pre: Ellipse, post: Ellipse, c: Point, r: int)
    requires
        marbled_rel(pre, post, c, r),
        delta_m(pre.center, c) == 0,
    ensures
        forall|i: int| 0 <= i < post.points@.len() ==> #[trigger] post.points@[i] == pre.center,
{
}

/// Law: one drop's transform treats existing shapes independently of one
/// another. Marbling shapes `a` and `b` in either order relates each
/// pre-shape to the same post-shape, so the order has no effect.
pub proof fn lemma_marble_order_independent(
    a: Ellipse,
    b: Ellipse,
    a_then: Ellipse,
    b_then: Ellipse,
    a_swapped: Ellipse,
    b_swapped: Ellipse,
    c: Point,
    r: int,
)
    requires
        marbled_rel(a, a_then, c, r),
        marbled_rel(b, b_then, c, r),
        marbled_rel(b, b_swapped, c, r),
        marbled_rel(a, a_swapped, c, r),
    ensures
        a_then.center == a_swapped.center,
        a_then.properties == a_swapped.properties,
        a_then.points@ =~= a_swapped.points@,
        b_then.center == b_swapped.center,
        b_then.properties == b_swapped.properties,
        b_then.points@ =~= b_swapped.points@,
{
    lemma_marble_deterministic(a, a_then, a_swapped, c, r);
    lemma_marble_deterministic(b, b_then, b_swapped, c, r);
}

} // verus!
