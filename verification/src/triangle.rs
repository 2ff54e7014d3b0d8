//! Triangle rasterization with edge functions and barycentric interpolation.
//!
//! Screen positions are fixed-point numbers; pixels are sampled at whole coordinates. All edge
//! functions are computed exactly on the scaled values, so coverage is decided without rounding
//! and the three barycentric weights always add up to the whole.

use vstd::prelude::*;
use crate::fixed::Fixed;
use crate::fixed::floor_div;
use crate::fixed::floor_div_i128;
use crate::fixed::lemma_floor_div_bounds;
use crate::fixed::lemma_floor_div_multiple;
use crate::fixed::lemma_product_bound;
use crate::fixed::saturate_i128;
use crate::fragment::Fragment;
use crate::linalg::Vec3;
use crate::vertex::Vertex;

verus! {

/// The edge function of the directed edge from `(ax, ay)` to `(bx, by)` at the point
/// `(px, py)`: twice the signed area of the triangle that the three points span.
pub open spec fn edge(ax: int, ay: int, bx: int, by: int, px: int, py: int) -> int {
    (px - ax) * (by - ay) - (py - ay) * (bx - ax)
}

/// Twice the signed area of the screen triangle, on scaled coordinates. It is zero exactly when
/// the three screen positions lie on one line.
pub open spec fn signed_area(a: Vec3, b: Vec3, c: Vec3) -> int {
    edge(a.x@, a.y@, b.x@, b.y@, c.x@, c.y@)
}

/// Barycentric weights as whole numbers: the weight of each corner is its member over `area`,
/// and `area` is positive for every triangle that is not degenerate.
pub struct Weights {
    pub w0: int,
    pub w1: int,
    pub w2: int,
    pub area: int,
}

impl Weights {
    /// Whether all three weights lie in `0..=1`.
    pub open spec fn inside(self) -> bool {
        &&& self.area > 0
        &&& 0 <= self.w0 <= self.area
        &&& 0 <= self.w1 <= self.area
        &&& 0 <= self.w2 <= self.area
    }

    /// The weighted mean of three numbers, rounded toward negative infinity.
    pub open spec fn blend(self, v0: Fixed, v1: Fixed, v2: Fixed) -> Fixed {
        Fixed::from_scaled(floor_div(self.w0 * v0@ + self.w1 * v1@ + self.w2 * v2@, self.area))
    }

    /// The weighted mean of three vectors, component by component.
    pub open spec fn blend_vec(self, q0: Vec3, q1: Vec3, q2: Vec3) -> Vec3 {
        Vec3 {
            x: self.blend(q0.x, q1.x, q2.x),
            y: self.blend(q0.y, q1.y, q2.y),
            z: self.blend(q0.z, q1.z, q2.z),
        }
    }
}

/// The barycentric weights of the pixel `(x, y)` in the screen triangle `a`, `b`, `c`, by the
/// edge functions of the three sides, with signs turned so that the area is not negative.
pub open spec fn barycentric(a: Vec3, b: Vec3, c: Vec3, x: int, y: int) -> Weights {
    let px = x * 65536;
    let py = y * 65536;
    let area = signed_area(a, b, c);
    let e0 = edge(b.x@, b.y@, c.x@, c.y@, px, py);
    let e1 = edge(c.x@, c.y@, a.x@, a.y@, px, py);
    let e2 = edge(a.x@, a.y@, b.x@, b.y@, px, py);
    if area < 0 {
        Weights { w0: -e0, w1: -e1, w2: -e2, area: -area }
    } else {
        Weights { w0: e0, w1: e1, w2: e2, area }
    }
}

/// The direction that the light shines from.
pub open spec fn spec_light_direction() -> Vec3 {
    Vec3 { x: Fixed::zero(), y: Fixed::zero(), z: Fixed::one() }
}

/// How brightly a vertex is lit: the dot product of its transformed normal with the light
/// direction, or zero where the normal points away.
pub open spec fn spec_vertex_intensity(v: Vertex) -> Fixed {
    v.transformed_normal.spec_dot(spec_light_direction()).spec_max(Fixed::zero())
}

/// The column of the leftmost pixel of the bounding box.
pub open spec fn min_column(a: Vec3, b: Vec3, c: Vec3) -> int {
    a.x.spec_min(b.x).spec_min(c.x).spec_floor()
}

/// The column of the rightmost pixel of the bounding box.
pub open spec fn max_column(a: Vec3, b: Vec3, c: Vec3) -> int {
    a.x.spec_max(b.x).spec_max(c.x).spec_ceil()
}

/// The row of the topmost pixel of the bounding box.
pub open spec fn min_row(a: Vec3, b: Vec3, c: Vec3) -> int {
    a.y.spec_min(b.y).spec_min(c.y).spec_floor()
}

/// The row of the bottommost pixel of the bounding box.
pub open spec fn max_row(a: Vec3, b: Vec3, c: Vec3) -> int {
    a.y.spec_max(b.y).spec_max(c.y).spec_ceil()
}

/// Whether the triangle covers the pixel `(x, y)`: all three barycentric weights lie in
/// `0..=1`, borders included.
pub open spec fn covers(v0: Vertex, v1: Vertex, v2: Vertex, x: int, y: int) -> bool {
    barycentric(
        v0.transformed_position,
        v1.transformed_position,
        v2.transformed_position,
        x,
        y,
    ).inside()
}

/// The fragment of the triangle at the pixel `(x, y)`: depth, object-space position and
/// intensity are the barycentric means of the three vertices' values.
pub open spec fn fragment_at(v0: Vertex, v1: Vertex, v2: Vertex, x: int, y: int) -> Fragment {
    let w = barycentric(
        v0.transformed_position,
        v1.transformed_position,
        v2.transformed_position,
        x,
        y,
    );
    Fragment {
        x: x as i32,
        y: y as i32,
        depth: w.blend(
            v0.transformed_position.z,
            v1.transformed_position.z,
            v2.transformed_position.z,
        ),
        vertex_position: w.blend_vec(v0.position, v1.position, v2.position),
        intensity: w.blend(
            spec_vertex_intensity(v0),
            spec_vertex_intensity(v1),
            spec_vertex_intensity(v2),
        ),
    }
}

/// What the pixel `(x, y)` contributes: its fragment if the triangle covers it, else nothing.
pub open spec fn pixel_fragments(v0: Vertex, v1: Vertex, v2: Vertex, x: int, y: int) -> Seq<
    Fragment,
> {
    if covers(v0, v1, v2, x, y) {
        seq![fragment_at(v0, v1, v2, x, y)]
    } else {
        Seq::empty()
    }
}

/// The fragments of row `y` in the columns from `x_from` up to but excluding `x_to`, from left
/// to right.
pub open spec fn span_fragments(
    v0: Vertex,
    v1: Vertex,
    v2: Vertex,
    y: int,
    x_from: int,
    x_to: int,
) -> Seq<Fragment>
    decreases x_to - x_from,
{
    if x_to <= x_from {
        Seq::empty()
    } else {
        span_fragments(v0, v1, v2, y, x_from, x_to - 1) + pixel_fragments(v0, v1, v2, x_to - 1, y)
    }
}

/// The fragments of the rows from `y_from` up to but excluding `y_to`, row after row, each row
/// over the columns from `x_from` up to but excluding `x_to`.
pub open spec fn block_fragments(
    v0: Vertex,
    v1: Vertex,
    v2: Vertex,
    x_from: int,
    x_to: int,
    y_from: int,
    y_to: int,
) -> Seq<Fragment>
    decreases y_to - y_from,
{
    if y_to <= y_from {
        Seq::empty()
    } else {
        block_fragments(v0, v1, v2, x_from, x_to, y_from, y_to - 1) + span_fragments(
            v0,
            v1,
            v2,
            y_to - 1,
            x_from,
            x_to,
        )
    }
}

/// The fragments of a triangle: none if it is degenerate, else one for every covered pixel of
/// its bounding box, row after row and from left to right.
pub open spec fn rasterize(v0: Vertex, v1: Vertex, v2: Vertex) -> Seq<Fragment> {
    let a = v0.transformed_position;
    let b = v1.transformed_position;
    let c = v2.transformed_position;
    if signed_area(a, b, c) == 0 {
        Seq::empty()
    } else {
        block_fragments(
            v0,
            v1,
            v2,
            min_column(a, b, c),
            max_column(a, b, c) + 1,
            min_row(a, b, c),
            max_row(a, b, c) + 1,
        )
    }
}

/// The direction that the light shines from: along the positive z axis.
#[verifier::when_used_as_spec(spec_light_direction)]
pub fn light_direction() -> (d: Vec3)
    ensures
        d == spec_light_direction(),
{
    Vec3 { x: Fixed::zero(), y: Fixed::zero(), z: Fixed::one() }
}

/// How brightly a vertex is lit.
#[verifier::when_used_as_spec(spec_vertex_intensity)]
pub fn vertex_intensity(v: Vertex) -> (i: Fixed)
    ensures
        i == spec_vertex_intensity(v),
{
    v.transformed_normal.dot(light_direction()).max(Fixed::zero())
}

/// The exact edge function of raw corner coordinates at a scaled sample point.
fn edge_at(ax: i32, ay: i32, bx: i32, by: i32, px: i128, py: i128) -> (e: i128)
    requires
        -0x8000_0000_0000 <= px <= 0x8000_0000_0000,
        -0x8000_0000_0000 <= py <= 0x8000_0000_0000,
    ensures
        e == edge(ax as int, ay as int, bx as int, by as int, px as int, py as int),
        -0x2_0000_0000_0000_0000_0000 <= e <= 0x2_0000_0000_0000_0000_0000,
{
    let dx: i128 = px - ax as i128;
    let dy: i128 = py - ay as i128;
    let ex: i128 = bx as i128 - ax as i128;
    let ey: i128 = by as i128 - ay as i128;
    proof {
        lemma_product_bound(dx as int, ey as int, 0x1_0000_0000_0000, 0x1_0000_0000);
        lemma_product_bound(dy as int, ex as int, 0x1_0000_0000_0000, 0x1_0000_0000);
    }
    dx * ey - dy * ex
}

/// The barycentric weights of a pixel as machine integers: the weight of each corner is its
/// member over `area`.
#[derive(Clone, Copy, Debug, PartialEq, Eq)]
pub struct Barycentric {
    pub w0: i128,
    pub w1: i128,
    pub w2: i128,
    pub area: i128,
}

impl View for Barycentric {
    type V = Weights;

    open spec fn view(&self) -> Weights {
        Weights {
            w0: self.w0 as int,
            w1: self.w1 as int,
            w2: self.w2 as int,
            area: self.area as int,
        }
    }
}

impl Barycentric {
    /// Whether the members are small enough for weighted means to be computed without overflow.
    /// The weights of every pixel are.
    pub open spec fn bounded(&self) -> bool {
        &&& -0x2_0000_0000_0000_0000_0000 <= self.w0 <= 0x2_0000_0000_0000_0000_0000
        &&& -0x2_0000_0000_0000_0000_0000 <= self.w1 <= 0x2_0000_0000_0000_0000_0000
        &&& -0x2_0000_0000_0000_0000_0000 <= self.w2 <= 0x2_0000_0000_0000_0000_0000
        &&& -0x2_0000_0000_0000_0000_0000 <= self.area <= 0x2_0000_0000_0000_0000_0000
    }

    /// The weights of the pixel `(x, y)` in the screen triangle `a`, `b`, `c`.
    pub fn at(a: Vec3, b: Vec3, c: Vec3, x: i32, y: i32) -> (w: Barycentric)
        ensures
            w@ == barycentric(a, b, c, x as int, y as int),
            w.bounded(),
    {
        let px: i128 = (x as i128) * 65536;
        let py: i128 = (y as i128) * 65536;
        let area: i128 = edge_at(
            a.x.raw,
            a.y.raw,
            b.x.raw,
            b.y.raw,
            c.x.raw as i128,
            c.y.raw as i128,
        );
        let e0: i128 = edge_at(b.x.raw, b.y.raw, c.x.raw, c.y.raw, px, py);
        let e1: i128 = edge_at(c.x.raw, c.y.raw, a.x.raw, a.y.raw, px, py);
        let e2: i128 = edge_at(a.x.raw, a.y.raw, b.x.raw, b.y.raw, px, py);
        if area < 0 {
            Barycentric { w0: -e0, w1: -e1, w2: -e2, area: -area }
        } else {
            Barycentric { w0: e0, w1: e1, w2: e2, area }
        }
    }

    /// Whether all three weights lie in `0..=1`.
    pub fn inside(&self) -> (r: bool)
        ensures
            r == self@.inside(),
    {
        self.area > 0 && 0 <= self.w0 && self.w0 <= self.area && 0 <= self.w1 && self.w1
            <= self.area && 0 <= self.w2 && self.w2 <= self.area
    }

    /// The weighted mean of three numbers, rounded toward negative infinity. The weights must
    /// be those of a triangle that is not degenerate.
    pub fn blend(&self, v0: Fixed, v1: Fixed, v2: Fixed) -> (r: Fixed)
        requires
            self.bounded(),
            self.area > 0,
        ensures
            r == self@.blend(v0, v1, v2),
    {
        proof {
            lemma_product_bound(self.w0 as int, v0@, 0x2_0000_0000_0000_0000_0000, 0x8000_0000);
            lemma_product_bound(self.w1 as int, v1@, 0x2_0000_0000_0000_0000_0000, 0x8000_0000);
            lemma_product_bound(self.w2 as int, v2@, 0x2_0000_0000_0000_0000_0000, 0x8000_0000);
        }
        let sum: i128 = self.w0 * (v0.raw as i128) + self.w1 * (v1.raw as i128) + self.w2 * (
        v2.raw as i128);
        Fixed { raw: saturate_i128(floor_div_i128(sum, self.area)) }
    }

    /// The weighted mean of three vectors, component by component.
    pub fn blend_vec(&self, q0: Vec3, q1: Vec3, q2: Vec3) -> (r: Vec3)
        requires
            self.bounded(),
            self.area > 0,
        ensures
            r == self@.blend_vec(q0, q1, q2),
    {
        Vec3 {
            x: self.blend(q0.x, q1.x, q2.x),
            y: self.blend(q0.y, q1.y, q2.y),
            z: self.blend(q0.z, q1.z, q2.z),
        }
    }
}

/// Rasterizes the screen triangle of three transformed vertices: one fragment for every pixel
/// of the bounding box that the triangle covers, borders included, row after row and from left
/// to right. A triangle whose corners lie on one line gives no fragment.
pub fn triangle(v1: &Vertex, v2: &Vertex, v3: &Vertex) -> (fragments: Vec<Fragment>)
    ensures
        fragments@ == rasterize(*v1, *v2, *v3),
{
    let a: Vec3 = v1.transformed_position;
    let b: Vec3 = v2.transformed_position;
    let c: Vec3 = v3.transformed_position;
    let mut fragments: Vec<Fragment> = Vec::new();
    let area: i128 = edge_at(a.x.raw, a.y.raw, b.x.raw, b.y.raw, c.x.raw as i128, c.y.raw as i128);
    if area == 0 {
        return fragments;
    }
    let min_x: i64 = a.x.min(b.x).min(c.x).floor() as i64;
    let max_x: i64 = a.x.max(b.x).max(c.x).ceil() as i64;
    let min_y: i64 = a.y.min(b.y).min(c.y).floor() as i64;
    let max_y: i64 = a.y.max(b.y).max(c.y).ceil() as i64;
    let i1: Fixed = vertex_intensity(*v1);
    let i2: Fixed = vertex_intensity(*v2);
    let i3: Fixed = vertex_intensity(*v3);
    let mut y: i64 = min_y;
    while y <= max_y
        invariant
            -32768 <= min_x <= 32768,
            -32768 <= max_x <= 32768,
            -32768 <= min_y <= y <= max_y + 1,
            max_y <= 32768,
            a == v1.transformed_position,
            b == v2.transformed_position,
            c == v3.transformed_position,
            i1 == spec_vertex_intensity(*v1),
            i2 == spec_vertex_intensity(*v2),
            i3 == spec_vertex_intensity(*v3),
            fragments@ == block_fragments(
                *v1,
                *v2,
                *v3,
                min_x as int,
                max_x + 1,
                min_y as int,
                y as int,
            ),
        decreases max_y + 1 - y,
    {
        let ghost before = fragments@;
        let mut x: i64 = min_x;
        while x <= max_x
            invariant
                -32768 <= min_x <= 32768,
                -32768 <= max_x <= 32768,
                -32768 <= y <= 32768,
                min_x <= x,
                x <= max_x + 1 || x == min_x,
                a == v1.transformed_position,
                b == v2.transformed_position,
                c == v3.transformed_position,
                i1 == spec_vertex_intensity(*v1),
                i2 == spec_vertex_intensity(*v2),
                i3 == spec_vertex_intensity(*v3),
                fragments@ == before + span_fragments(
                    *v1,
                    *v2,
                    *v3,
                    y as int,
                    min_x as int,
                    x as int,
                ),
            decreases max_x + 1 - x,
        {
            let w: Barycentric = Barycentric::at(a, b, c, x as i32, y as i32);
            if w.inside() {
                let fragment: Fragment = Fragment {
                    x: x as i32,
                    y: y as i32,
                    depth: w.blend(a.z, b.z, c.z),
                    vertex_position: w.blend_vec(v1.position, v2.position, v3.position),
                    intensity: w.blend(i1, i2, i3),
                };
                fragments.push(fragment);
            }
            proof {
                let row = span_fragments(*v1, *v2, *v3, y as int, min_x as int, x as int);
                let one = pixel_fragments(*v1, *v2, *v3, x as int, y as int);
                assert(fragments@ =~= before + (row + one));
            }
            x += 1;
        }
        proof {
            if max_x < min_x {
                assert(span_fragments(*v1, *v2, *v3, y as int, min_x as int, max_x + 1)
                    =~= Seq::<Fragment>::empty());
                assert(span_fragments(*v1, *v2, *v3, y as int, min_x as int, x as int)
                    =~= Seq::<Fragment>::empty());
            }
        }
        y += 1;
    }
    fragments
}

/// Whether three screen positions lie on one line: the directions from the first to the other
/// two are parallel.
pub open spec fn collinear(a: Vec3, b: Vec3, c: Vec3) -> bool {
    (b.x@ - a.x@) * (c.y@ - a.y@) == (b.y@ - a.y@) * (c.x@ - a.x@)
}

/// The edge function written out as a sum of products.
pub proof fn lemma_edge_expanded(ax: int, ay: int, bx: int, by: int, px: int, py: int)
    ensures
        edge(ax, ay, bx, by, px, py) == px * by - px * ay - ax * by - py * bx + py * ax + ay * bx,
{
    assert((px - ax) * (by - ay) == px * by - px * ay - ax * by + ax * ay) by (nonlinear_arith);
    assert((py - ay) * (bx - ax) == py * bx - py * ax - ay * bx + ay * ax) by (nonlinear_arith);
    assert(ax * ay == ay * ax) by (nonlinear_arith);
}

/// The edge functions of the three sides at any point add up to twice the signed area.
pub proof fn lemma_edges_sum_to_area(
    ax: int,
    ay: int,
    bx: int,
    by: int,
    cx: int,
    cy: int,
    px: int,
    py: int,
)
    ensures
        edge(bx, by, cx, cy, px, py) + edge(cx, cy, ax, ay, px, py) + edge(ax, ay, bx, by, px, py)
            == edge(ax, ay, bx, by, cx, cy),
{
    lemma_edge_expanded(bx, by, cx, cy, px, py);
    lemma_edge_expanded(cx, cy, ax, ay, px, py);
    lemma_edge_expanded(ax, ay, bx, by, px, py);
    lemma_edge_expanded(ax, ay, bx, by, cx, cy);
    assert(by * cx == cx * by) by (nonlinear_arith);
    assert(bx * cy == cy * bx) by (nonlinear_arith);
}

/// The edge function of a side vanishes at both of its ends, and at the opposite corner it is
/// twice the signed area.
pub proof fn lemma_edges_at_corner(ax: int, ay: int, bx: int, by: int, cx: int, cy: int)
    ensures
        edge(ax, ay, bx, by, ax, ay) == 0,
        edge(ax, ay, bx, by, bx, by) == 0,
        edge(bx, by, cx, cy, ax, ay) == edge(ax, ay, bx, by, cx, cy),
        edge(cx, cy, ax, ay, bx, by) == edge(ax, ay, bx, by, cx, cy),
{
    lemma_edges_sum_to_area(ax, ay, bx, by, cx, cy, ax, ay);
    lemma_edges_sum_to_area(ax, ay, bx, by, cx, cy, bx, by);
    assert(edge(ax, ay, bx, by, ax, ay) == 0) by (nonlinear_arith);
    assert(edge(ax, ay, bx, by, bx, by) == 0) by (nonlinear_arith);
    assert(edge(cx, cy, ax, ay, ax, ay) == 0) by (nonlinear_arith);
    assert(edge(bx, by, cx, cy, bx, by) == 0) by (nonlinear_arith);
}

/// The three barycentric weights of any sample point add up to one: their whole-number
/// numerators add up to their common denominator.
pub proof fn lemma_weights_sum_to_one(a: Vec3, b: Vec3, c: Vec3, x: int, y: int)
    ensures
        ({
            let w = barycentric(a, b, c, x, y);
            w.w0 + w.w1 + w.w2 == w.area
        }),
{
    lemma_edges_sum_to_area(a.x@, a.y@, b.x@, b.y@, c.x@, c.y@, x * 65536, y * 65536);
}

/// Three positions lie on one line exactly when the signed area of their triangle is zero.
pub proof fn lemma_collinear_iff_no_area(a: Vec3, b: Vec3, c: Vec3)
    ensures
        collinear(a, b, c) <==> signed_area(a, b, c) == 0,
{
    let (ax, ay, bx, by, cx, cy) = (a.x@, a.y@, b.x@, b.y@, c.x@, c.y@);
    assert(edge(ax, ay, bx, by, cx, cy) == (by - ay) * (cx - ax) - (bx - ax) * (cy - ay))
        by (nonlinear_arith);
}

/// A triangle whose three screen positions lie on one line has no fragments.
pub proof fn lemma_collinear_triangle_is_empty(v0: Vertex, v1: Vertex, v2: Vertex)
    requires
        collinear(v0.transformed_position, v1.transformed_position, v2.transformed_position),
    ensures
        rasterize(v0, v1, v2) == Seq::<Fragment>::empty(),
{
    lemma_collinear_iff_no_area(
        v0.transformed_position,
        v1.transformed_position,
        v2.transformed_position,
    );
}

/// A weighted mean in which one corner has all the weight is that corner's value.
pub proof fn lemma_blend_at_corner(area: int, v0: Fixed, v1: Fixed, v2: Fixed)
    requires
        area > 0,
    ensures
        (Weights { w0: area, w1: 0, w2: 0, area }).blend(v0, v1, v2) == v0,
        (Weights { w0: 0, w1: area, w2: 0, area }).blend(v0, v1, v2) == v1,
        (Weights { w0: 0, w1: 0, w2: area, area }).blend(v0, v1, v2) == v2,
{
    lemma_floor_div_multiple(v0@, area);
    lemma_floor_div_multiple(v1@, area);
    lemma_floor_div_multiple(v2@, area);
    assert(area * v0@ == v0@ * area) by (nonlinear_arith);
    assert(area * v1@ == v1@ * area) by (nonlinear_arith);
    assert(area * v2@ == v2@ * area) by (nonlinear_arith);
}

/// Interpolation reproduces the corners. Where a corner of a triangle that is not degenerate lies
/// exactly on the pixel `(x, y)`, the triangle covers that pixel and the fragment there has that
/// corner's depth, object-space position and intensity.
pub proof fn lemma_fragment_at_corner(v0: Vertex, v1: Vertex, v2: Vertex, x: int, y: int)
    requires
        signed_area(v0.transformed_position, v1.transformed_position, v2.transformed_position)
            != 0,
    ensures
        v0.transformed_position.x@ == x * 65536 && v0.transformed_position.y@ == y * 65536 ==> {
            &&& covers(v0, v1, v2, x, y)
            &&& fragment_at(v0, v1, v2, x, y).depth == v0.transformed_position.z
            &&& fragment_at(v0, v1, v2, x, y).intensity == spec_vertex_intensity(v0)
            &&& fragment_at(v0, v1, v2, x, y).vertex_position == v0.position
        },
        v1.transformed_position.x@ == x * 65536 && v1.transformed_position.y@ == y * 65536 ==> {
            &&& covers(v0, v1, v2, x, y)
            &&& fragment_at(v0, v1, v2, x, y).depth == v1.transformed_position.z
            &&& fragment_at(v0, v1, v2, x, y).intensity == spec_vertex_intensity(v1)
            &&& fragment_at(v0, v1, v2, x, y).vertex_position == v1.position
        },
        v2.transformed_position.x@ == x * 65536 && v2.transformed_position.y@ == y * 65536 ==> {
            &&& covers(v0, v1, v2, x, y)
            &&& fragment_at(v0, v1, v2, x, y).depth == v2.transformed_position.z
            &&& fragment_at(v0, v1, v2, x, y).intensity == spec_vertex_intensity(v2)
            &&& fragment_at(v0, v1, v2, x, y).vertex_position == v2.position
        },
{
    let a = v0.transformed_position;
    let b = v1.transformed_position;
    let c = v2.transformed_position;
    let area = signed_area(a, b, c);
    let w = barycentric(a, b, c, x, y);
    let whole = if area < 0 {
        -area
    } else {
        area
    };
    lemma_edges_at_corner(a.x@, a.y@, b.x@, b.y@, c.x@, c.y@);
    lemma_edges_at_corner(b.x@, b.y@, c.x@, c.y@, a.x@, a.y@);
    lemma_edges_at_corner(c.x@, c.y@, a.x@, a.y@, b.x@, b.y@);
    let i0 = spec_vertex_intensity(v0);
    let i1 = spec_vertex_intensity(v1);
    let i2 = spec_vertex_intensity(v2);
    lemma_blend_at_corner(whole, a.z, b.z, c.z);
    lemma_blend_at_corner(whole, i0, i1, i2);
    lemma_blend_at_corner(whole, v0.position.x, v1.position.x, v2.position.x);
    lemma_blend_at_corner(whole, v0.position.y, v1.position.y, v2.position.y);
    lemma_blend_at_corner(whole, v0.position.z, v1.position.z, v2.position.z);
    if a.x@ == x * 65536 && a.y@ == y * 65536 {
        assert(w == Weights { w0: whole, w1: 0, w2: 0, area: whole });
    }
    if b.x@ == x * 65536 && b.y@ == y * 65536 {
        assert(w == Weights { w0: 0, w1: whole, w2: 0, area: whole });
    }
    if c.x@ == x * 65536 && c.y@ == y * 65536 {
        assert(w == Weights { w0: 0, w1: 0, w2: whole, area: whole });
    }
}

/// Cramer's rule for a point `q` in the plane spanned by `u` and `v`: `q` weighted by the
/// determinant of `u` and `v` is `u` and `v` weighted by the determinants of `q` with each.
pub proof fn lemma_cramer(ux: int, uy: int, vx: int, vy: int, qx: int, qy: int)
    ensures
        (qy * vx - qx * vy) * ux + (qx * uy - qy * ux) * vx == (vx * uy - vy * ux) * qx,
        (qy * vx - qx * vy) * uy + (qx * uy - qy * ux) * vy == (vx * uy - vy * ux) * qy,
{
    let a = qy * vx;
    let b = qx * vy;
    let c = qx * uy;
    let d = qy * ux;
    let m = vx * uy;
    let n = vy * ux;
    assert((a - b) * ux == a * ux - b * ux) by (nonlinear_arith);
    assert((c - d) * vx == c * vx - d * vx) by (nonlinear_arith);
    assert((a - b) * uy == a * uy - b * uy) by (nonlinear_arith);
    assert((c - d) * vy == c * vy - d * vy) by (nonlinear_arith);
    assert((m - n) * qx == m * qx - n * qx) by (nonlinear_arith);
    assert((m - n) * qy == m * qy - n * qy) by (nonlinear_arith);
    assert((qy * vx) * ux == (qy * ux) * vx) by (nonlinear_arith);
    assert((qx * uy) * vx == (vx * uy) * qx) by (nonlinear_arith);
    assert((qx * vy) * ux == (vy * ux) * qx) by (nonlinear_arith);
    assert((qx * vy) * uy == (qx * uy) * vy) by (nonlinear_arith);
    assert((qy * vx) * uy == (vx * uy) * qy) by (nonlinear_arith);
    assert((qy * ux) * vy == (vy * ux) * qy) by (nonlinear_arith);
}

/// The edge functions weigh the corners so that they balance at the sample point: the corner
/// coordinates, each times the edge function of the opposite side, add up to the coordinate of
/// the point times twice the signed area.
pub proof fn lemma_edges_balance(
    ax: int,
    ay: int,
    bx: int,
    by: int,
    cx: int,
    cy: int,
    px: int,
    py: int,
)
    ensures
        edge(bx, by, cx, cy, px, py) * ax + edge(cx, cy, ax, ay, px, py) * bx + edge(
            ax,
            ay,
            bx,
            by,
            px,
            py,
        ) * cx == edge(ax, ay, bx, by, cx, cy) * px,
        edge(bx, by, cx, cy, px, py) * ay + edge(cx, cy, ax, ay, px, py) * by + edge(
            ax,
            ay,
            bx,
            by,
            px,
            py,
        ) * cy == edge(ax, ay, bx, by, cx, cy) * py,
{
    let e0 = edge(bx, by, cx, cy, px, py);
    let e1 = edge(cx, cy, ax, ay, px, py);
    let e2 = edge(ax, ay, bx, by, px, py);
    let area = edge(ax, ay, bx, by, cx, cy);
    let (ux, uy) = (bx - ax, by - ay);
    let (vx, vy) = (cx - ax, cy - ay);
    let (qx, qy) = (px - ax, py - ay);
    lemma_edges_sum_to_area(ax, ay, bx, by, cx, cy, px, py);
    assert(e2 == qx * uy - qy * ux);
    assert(area == vx * uy - vy * ux);
    assert(e1 == qy * vx - qx * vy) by {
        assert(e1 == (qx - vx) * (0 - vy) - (qy - vy) * (0 - vx));
        assert((qx - vx) * (0 - vy) == vx * vy - qx * vy) by (nonlinear_arith);
        assert((qy - vy) * (0 - vx) == vy * vx - qy * vx) by (nonlinear_arith);
        assert(vx * vy == vy * vx) by (nonlinear_arith);
    }
    lemma_cramer(ux, uy, vx, vy, qx, qy);
    assert(e1 * ux + e2 * vx == area * qx);
    assert(e1 * uy + e2 * vy == area * qy);
    assert(e0 * ax + e1 * bx + e2 * cx == area * ax + e1 * ux + e2 * vx) by (nonlinear_arith)
        requires
            e0 == area - e1 - e2,
            bx == ax + ux,
            cx == ax + vx,
    ;
    assert(e0 * ay + e1 * by + e2 * cy == area * ay + e1 * uy + e2 * vy) by (nonlinear_arith)
        requires
            e0 == area - e1 - e2,
            by == ay + uy,
            cy == ay + vy,
    ;
    assert(area * ax + area * qx == area * px) by (nonlinear_arith)
        requires
            px == ax + qx,
    ;
    assert(area * ay + area * qy == area * py) by (nonlinear_arith)
        requires
            py == ay + qy,
    ;
}

/// A mean with weights that are not negative lies between the least and the greatest of the
/// values it is taken of.
pub proof fn lemma_weighted_sum_between(
    w0: int,
    w1: int,
    w2: int,
    v0: int,
    v1: int,
    v2: int,
    lo: int,
    hi: int,
)
    requires
        0 <= w0,
        0 <= w1,
        0 <= w2,
        lo <= v0 <= hi,
        lo <= v1 <= hi,
        lo <= v2 <= hi,
    ensures
        lo * (w0 + w1 + w2) <= w0 * v0 + w1 * v1 + w2 * v2 <= hi * (w0 + w1 + w2),
{
    assert(w0 * lo <= w0 * v0 <= w0 * hi) by (nonlinear_arith)
        requires
            0 <= w0,
            lo <= v0 <= hi,
    ;
    assert(w1 * lo <= w1 * v1 <= w1 * hi) by (nonlinear_arith)
        requires
            0 <= w1,
            lo <= v1 <= hi,
    ;
    assert(w2 * lo <= w2 * v2 <= w2 * hi) by (nonlinear_arith)
        requires
            0 <= w2,
            lo <= v2 <= hi,
    ;
    assert(lo * (w0 + w1 + w2) == w0 * lo + w1 * lo + w2 * lo) by (nonlinear_arith);
    assert(hi * (w0 + w1 + w2) == w0 * hi + w1 * hi + w2 * hi) by (nonlinear_arith);
}

/// A number whose multiple by a positive factor lies between the multiples of two bounds lies
/// between the bounds.
pub proof fn lemma_cancel_positive_factor(lo: int, x: int, hi: int, factor: int)
    by (nonlinear_arith)
    requires
        factor > 0,
        lo * factor <= x * factor <= hi * factor,
    ensures
        lo <= x <= hi,
{
}

/// Interpolation stays inside the triangle's values: for weights in `0..=1` that add up to
/// one, the weighted mean of three numbers lies between the least and the greatest of them, so
/// it is never clamped.
pub proof fn lemma_blend_between(w: Weights, v0: Fixed, v1: Fixed, v2: Fixed)
    requires
        w.inside(),
        w.w0 + w.w1 + w.w2 == w.area,
    ensures
        v0.spec_min(v1).spec_min(v2)@ <= w.blend(v0, v1, v2)@ <= v0.spec_max(v1).spec_max(v2)@,
        w.blend(v0, v1, v2)@ == floor_div(w.w0 * v0@ + w.w1 * v1@ + w.w2 * v2@, w.area),
{
    let lo = v0.spec_min(v1).spec_min(v2)@;
    let hi = v0.spec_max(v1).spec_max(v2)@;
    let sum = w.w0 * v0@ + w.w1 * v1@ + w.w2 * v2@;
    let q = floor_div(sum, w.area);
    lemma_weighted_sum_between(w.w0, w.w1, w.w2, v0@, v1@, v2@, lo, hi);
    lemma_floor_div_bounds(sum, w.area);
    assert(lo <= q) by (nonlinear_arith)
        requires
            w.area > 0,
            lo * w.area <= sum,
            sum < (q + 1) * w.area,
    ;
    assert(q <= hi) by (nonlinear_arith)
        requires
            w.area > 0,
            q * w.area <= sum,
            sum <= hi * w.area,
    ;
}

/// Every pixel that a triangle covers lies in the triangle's bounding box.
pub proof fn lemma_covered_pixel_in_bounding_box(a: Vec3, b: Vec3, c: Vec3, x: int, y: int)
    requires
        barycentric(a, b, c, x, y).inside(),
    ensures
        min_column(a, b, c) <= x <= max_column(a, b, c),
        min_row(a, b, c) <= y <= max_row(a, b, c),
{
    let w = barycentric(a, b, c, x, y);
    let px = x * 65536;
    let py = y * 65536;
    let area = signed_area(a, b, c);
    let e0 = edge(b.x@, b.y@, c.x@, c.y@, px, py);
    let e1 = edge(c.x@, c.y@, a.x@, a.y@, px, py);
    let e2 = edge(a.x@, a.y@, b.x@, b.y@, px, py);
    lemma_edges_balance(a.x@, a.y@, b.x@, b.y@, c.x@, c.y@, px, py);
    lemma_edges_sum_to_area(a.x@, a.y@, b.x@, b.y@, c.x@, c.y@, px, py);
    assert(w.w0 * a.x@ + w.w1 * b.x@ + w.w2 * c.x@ == px * w.area && w.w0 * a.y@ + w.w1 * b.y@
        + w.w2 * c.y@ == py * w.area) by (nonlinear_arith)
        requires
            e0 * a.x@ + e1 * b.x@ + e2 * c.x@ == area * px,
            e0 * a.y@ + e1 * b.y@ + e2 * c.y@ == area * py,
            (w.w0 == e0 && w.w1 == e1 && w.w2 == e2 && w.area == area) || (w.w0 == -e0 && w.w1
                == -e1 && w.w2 == -e2 && w.area == -area),
    ;
    let lo_x = a.x.spec_min(b.x).spec_min(c.x)@;
    let hi_x = a.x.spec_max(b.x).spec_max(c.x)@;
    let lo_y = a.y.spec_min(b.y).spec_min(c.y)@;
    let hi_y = a.y.spec_max(b.y).spec_max(c.y)@;
    lemma_weighted_sum_between(w.w0, w.w1, w.w2, a.x@, b.x@, c.x@, lo_x, hi_x);
    lemma_weighted_sum_between(w.w0, w.w1, w.w2, a.y@, b.y@, c.y@, lo_y, hi_y);
    lemma_cancel_positive_factor(lo_x, px, hi_x, w.area);
    lemma_cancel_positive_factor(lo_y, py, hi_y, w.area);
}

/// The fragments of a span are the fragments of its covered pixels: each fragment is the one
/// of its own pixel, which lies in the span and is covered; and every covered pixel of the span
/// has its fragment there.
pub proof fn lemma_span_members(
    v0: Vertex,
    v1: Vertex,
    v2: Vertex,
    y: int,
    x_from: int,
    x_to: int,
)
    requires
        i32::MIN <= y <= i32::MAX,
        i32::MIN <= x_from,
        x_to <= i32::MAX + 1,
    ensures
        forall|i: int|
            0 <= i < span_fragments(v0, v1, v2, y, x_from, x_to).len() ==> {
                let f = #[trigger] span_fragments(v0, v1, v2, y, x_from, x_to)[i];
                &&& x_from <= f.x < x_to
                &&& f.y == y
                &&& covers(v0, v1, v2, f.x as int, f.y as int)
                &&& f == fragment_at(v0, v1, v2, f.x as int, f.y as int)
            },
        forall|x: int|
            x_from <= x < x_to && covers(v0, v1, v2, x, y) ==> span_fragments(
                v0,
                v1,
                v2,
                y,
                x_from,
                x_to,
            ).contains(#[trigger] fragment_at(v0, v1, v2, x, y)),
    decreases x_to - x_from,
{
    if x_to > x_from {
        let shorter = span_fragments(v0, v1, v2, y, x_from, x_to - 1);
        let last = pixel_fragments(v0, v1, v2, x_to - 1, y);
        let whole = span_fragments(v0, v1, v2, y, x_from, x_to);
        assert(whole == shorter + last);
        lemma_span_members(v0, v1, v2, y, x_from, x_to - 1);
        assert forall|i: int| 0 <= i < whole.len() implies {
            let f = #[trigger] whole[i];
            &&& x_from <= f.x < x_to
            &&& f.y == y
            &&& covers(v0, v1, v2, f.x as int, f.y as int)
            &&& f == fragment_at(v0, v1, v2, f.x as int, f.y as int)
        } by {
            if i < shorter.len() {
                assert(whole[i] == shorter[i]);
            } else {
                assert(whole[i] == last[i - shorter.len()]);
            }
        }
        assert forall|x: int| x_from <= x < x_to && covers(v0, v1, v2, x, y) implies whole.contains(
            #[trigger] fragment_at(v0, v1, v2, x, y),
        ) by {
            let f = fragment_at(v0, v1, v2, x, y);
            if x < x_to - 1 {
                assert(shorter.contains(f));
                let i = choose|i: int| 0 <= i < shorter.len() && shorter[i] == f;
                assert(whole[i] == f);
            } else {
                assert(last[0] == f);
                assert(whole[shorter.len() as int] == f);
            }
        }
    }
}

/// The fragments of a block of rows are the fragments of its covered pixels.
pub proof fn lemma_block_members(
    v0: Vertex,
    v1: Vertex,
    v2: Vertex,
    x_from: int,
    x_to: int,
    y_from: int,
    y_to: int,
)
    requires
        i32::MIN <= x_from,
        x_to <= i32::MAX + 1,
        i32::MIN <= y_from,
        y_to <= i32::MAX + 1,
    ensures
        forall|i: int|
            0 <= i < block_fragments(v0, v1, v2, x_from, x_to, y_from, y_to).len() ==> {
                let f = #[trigger] block_fragments(v0, v1, v2, x_from, x_to, y_from, y_to)[i];
                &&& x_from <= f.x < x_to
                &&& y_from <= f.y < y_to
                &&& covers(v0, v1, v2, f.x as int, f.y as int)
                &&& f == fragment_at(v0, v1, v2, f.x as int, f.y as int)
            },
        forall|x: int, y: int|
            x_from <= x < x_to && y_from <= y < y_to && covers(v0, v1, v2, x, y)
                ==> block_fragments(v0, v1, v2, x_from, x_to, y_from, y_to).contains(
                #[trigger] fragment_at(v0, v1, v2, x, y),
            ),
    decreases y_to - y_from,
{
    if y_to > y_from {
        let above = block_fragments(v0, v1, v2, x_from, x_to, y_from, y_to - 1);
        let row = span_fragments(v0, v1, v2, y_to - 1, x_from, x_to);
        let whole = block_fragments(v0, v1, v2, x_from, x_to, y_from, y_to);
        assert(whole == above + row);
        lemma_block_members(v0, v1, v2, x_from, x_to, y_from, y_to - 1);
        lemma_span_members(v0, v1, v2, y_to - 1, x_from, x_to);
        assert forall|i: int| 0 <= i < whole.len() implies {
            let f = #[trigger] whole[i];
            &&& x_from <= f.x < x_to
            &&& y_from <= f.y < y_to
            &&& covers(v0, v1, v2, f.x as int, f.y as int)
            &&& f == fragment_at(v0, v1, v2, f.x as int, f.y as int)
        } by {
            if i < above.len() {
                assert(whole[i] == above[i]);
            } else {
                assert(whole[i] == row[i - above.len()]);
            }
        }
        assert forall|x: int, y: int|
            x_from <= x < x_to && y_from <= y < y_to && covers(
                v0,
                v1,
                v2,
                x,
                y,
            ) implies whole.contains(#[trigger] fragment_at(v0, v1, v2, x, y)) by {
            let f = fragment_at(v0, v1, v2, x, y);
            if y < y_to - 1 {
                assert(above.contains(f));
                let i = choose|i: int| 0 <= i < above.len() && above[i] == f;
                assert(whole[i] == f);
            } else {
                assert(row.contains(f));
                let i = choose|i: int| 0 <= i < row.len() && row[i] == f;
                assert(whole[above.len() + i] == f);
            }
        }
    }
}

/// The fragments of a triangle are exactly the fragments of the pixels that it covers. Each
/// fragment is the one of its own pixel, and the triangle covers that pixel; and every pixel
/// that the triangle covers, anywhere on the plane, has its fragment among them.
pub proof fn lemma_rasterize_members(v0: Vertex, v1: Vertex, v2: Vertex)
    ensures
        forall|i: int|
            0 <= i < rasterize(v0, v1, v2).len() ==> {
                let f = #[trigger] rasterize(v0, v1, v2)[i];
                &&& covers(v0, v1, v2, f.x as int, f.y as int)
                &&& f == fragment_at(v0, v1, v2, f.x as int, f.y as int)
            },
        forall|x: int, y: int|
            covers(v0, v1, v2, x, y) ==> rasterize(v0, v1, v2).contains(
                #[trigger] fragment_at(v0, v1, v2, x, y),
            ),
{
    let a = v0.transformed_position;
    let b = v1.transformed_position;
    let c = v2.transformed_position;
    if signed_area(a, b, c) != 0 {
        lemma_block_members(
            v0,
            v1,
            v2,
            min_column(a, b, c),
            max_column(a, b, c) + 1,
            min_row(a, b, c),
            max_row(a, b, c) + 1,
        );
    }
    assert forall|x: int, y: int| covers(v0, v1, v2, x, y) implies rasterize(v0, v1, v2).contains(
        #[trigger] fragment_at(v0, v1, v2, x, y),
    ) by {
        lemma_covered_pixel_in_bounding_box(a, b, c, x, y);
    }
}

/// Whether fragment `f` comes before fragment `g` in drawing order: in a row above, or in the
/// same row further left.
pub open spec fn precedes(f: Fragment, g: Fragment) -> bool {
    f.y < g.y || (f.y == g.y && f.x < g.x)
}

/// The fragments of a span run from left to right.
pub proof fn lemma_span_ordered(v0: Vertex, v1: Vertex, v2: Vertex, y: int, x_from: int, x_to: int)
    requires
        i32::MIN <= y <= i32::MAX,
        i32::MIN <= x_from,
        x_to <= i32::MAX + 1,
    ensures
        forall|i: int, j: int|
            0 <= i < j < span_fragments(v0, v1, v2, y, x_from, x_to).len() ==> (
            #[trigger] span_fragments(v0, v1, v2, y, x_from, x_to)[i]).x < (
            #[trigger] span_fragments(v0, v1, v2, y, x_from, x_to)[j]).x,
    decreases x_to - x_from,
{
    if x_to > x_from {
        let shorter = span_fragments(v0, v1, v2, y, x_from, x_to - 1);
        let last = pixel_fragments(v0, v1, v2, x_to - 1, y);
        let whole = span_fragments(v0, v1, v2, y, x_from, x_to);
        assert(whole == shorter + last);
        lemma_span_ordered(v0, v1, v2, y, x_from, x_to - 1);
        lemma_span_members(v0, v1, v2, y, x_from, x_to - 1);
        assert forall|i: int, j: int| 0 <= i < j < whole.len() implies (#[trigger] whole[i]).x < (
        #[trigger] whole[j]).x by {
            assert(whole[i] == shorter[i]);
            if j < shorter.len() {
                assert(whole[j] == shorter[j]);
            } else {
                assert(whole[j] == last[0]);
            }
        }
    }
}

/// The fragments of a block run row after row and, in each row, from left to right.
pub proof fn lemma_block_ordered(
    v0: Vertex,
    v1: Vertex,
    v2: Vertex,
    x_from: int,
    x_to: int,
    y_from: int,
    y_to: int,
)
    requires
        i32::MIN <= x_from,
        x_to <= i32::MAX + 1,
        i32::MIN <= y_from,
        y_to <= i32::MAX + 1,
    ensures
        forall|i: int, j: int|
            0 <= i < j < block_fragments(v0, v1, v2, x_from, x_to, y_from, y_to).len()
                ==> precedes(
                #[trigger] block_fragments(v0, v1, v2, x_from, x_to, y_from, y_to)[i],
                #[trigger] block_fragments(v0, v1, v2, x_from, x_to, y_from, y_to)[j],
            ),
    decreases y_to - y_from,
{
    if y_to > y_from {
        let above = block_fragments(v0, v1, v2, x_from, x_to, y_from, y_to - 1);
        let row = span_fragments(v0, v1, v2, y_to - 1, x_from, x_to);
        let whole = block_fragments(v0, v1, v2, x_from, x_to, y_from, y_to);
        assert(whole == above + row);
        lemma_block_ordered(v0, v1, v2, x_from, x_to, y_from, y_to - 1);
        lemma_block_members(v0, v1, v2, x_from, x_to, y_from, y_to - 1);
        lemma_span_members(v0, v1, v2, y_to - 1, x_from, x_to);
        lemma_span_ordered(v0, v1, v2, y_to - 1, x_from, x_to);
        assert forall|i: int, j: int| 0 <= i < j < whole.len() implies precedes(
            #[trigger] whole[i],
            #[trigger] whole[j],
        ) by {
            if j < above.len() {
                assert(whole[i] == above[i]);
                assert(whole[j] == above[j]);
            } else if i < above.len() {
                assert(whole[i] == above[i]);
                assert(whole[j] == row[j - above.len()]);
            } else {
                assert(whole[i] == row[i - above.len()]);
                assert(whole[j] == row[j - above.len()]);
            }
        }
    }
}

/// The fragments of a triangle come row after row and, in each row, from left to right; so no
/// pixel has more than one fragment.
pub proof fn lemma_rasterize_ordered(v0: Vertex, v1: Vertex, v2: Vertex)
    ensures
        forall|i: int, j: int|
            0 <= i < j < rasterize(v0, v1, v2).len() ==> precedes(
                #[trigger] rasterize(v0, v1, v2)[i],
                #[trigger] rasterize(v0, v1, v2)[j],
            ),
{
    let a = v0.transformed_position;
    let b = v1.transformed_position;
    let c = v2.transformed_position;
    if signed_area(a, b, c) != 0 {
        lemma_block_ordered(
            v0,
            v1,
            v2,
            min_column(a, b, c),
            max_column(a, b, c) + 1,
            min_row(a, b, c),
            max_row(a, b, c) + 1,
        );
    }
}

} // verus!
