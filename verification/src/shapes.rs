//! The shape generators: finite, deterministic point clouds for the
//! cube, the sphere, the hexagonal prism and the twisted torus, each
//! pinned to an exact sequence-valued specification.

use vstd::prelude::*;
use vstd::arithmetic::mul::lemma_mul_nonnegative;
use vstd::arithmetic::div_mod::{
    lemma_div_nonincreasing, lemma_div_pos_is_pos, lemma_fundamental_div_mod_converse_mod,
    lemma_multiply_divide_lt,
};
use crate::fixed::{div_trunc, fmul, iabs, lemma_mul_bounds, mul_fp, COORD_LIMIT, SCALE};
use crate::trig::{
    cos_fp, cos_fp_spec, lemma_sin_zero, reduce_angle, reduce_spec, sin_fp, sin_fp_spec, PI_FP,
    TWO_PI_FP,
};

verus! {

/// Largest shape dimension (width, radius, height) the generators
/// admit, well inside `COORD_LIMIT` so interpolated sums stay bounded.
pub const MAX_DIM: i64 = 1_000_000_000;

/// sqrt(3) in fixed-point units, rounded to nearest: the hexagon
/// containment test compares against multiples of it.
pub const SQRT3_FP: i64 = 17321;

/// One labeled sample point of a solid's surface.
#[derive(Clone, Copy, PartialEq, Eq, Structural, Debug)]
pub struct Point {
    pub x: i64,
    pub y: i64,
    pub z: i64,
    pub character: char,
}

impl Point {
    /// Every coordinate within the pipeline's admitted range.
    pub open spec fn wf(&self) -> bool {
        &&& -COORD_LIMIT <= self.x <= COORD_LIMIT
        &&& -COORD_LIMIT <= self.y <= COORD_LIMIT
        &&& -COORD_LIMIT <= self.z <= COORD_LIMIT
    }
}

/// A hollow cube of the given half-width, sampled as six stippled faces.
pub struct Cube {
    pub width: i64,
}

impl Cube {
    /// Positive and within the admitted dimension range.
    pub open spec fn wf(&self) -> bool {
        0 < self.width <= MAX_DIM
    }

    /// A cube of the given half-width.
    pub fn new(width: i64) -> (c: Cube)
        requires
            0 < width <= MAX_DIM,
        ensures
            c.width == width,
            c.wf(),
    {
        Cube { width }
    }

    /// Emit the six face points of one `(u, v)` grid cell, then walk the
    /// whole grid from `-width` to `width` at the sampling density.
    pub fn generate_points(&self, density: i64) -> (points: Vec<Point>)
        requires
            self.wf(),
            0 < density <= MAX_DIM,
        ensures
            points@ == cube_points_spec(self.width as int, density as int),
            forall|n: int| 0 <= n < points@.len() ==> (#[trigger] points@[n]).wf(),
    {
        let w: i64 = self.width;
        let d: i64 = density;
        let mut points: Vec<Point> = Vec::new();
        let mut u: i64 = -w;
        while u < w
            invariant
                0 < w <= MAX_DIM,
                0 < d <= MAX_DIM,
                -w <= u,
                u < w + d,
                cube_points_spec(w as int, d as int) == points@ + cube_points_from(
                    u as int,
                    w as int,
                    d as int,
                ),
                forall|n: int| 0 <= n < points@.len() ==> (#[trigger] points@[n]).wf(),
            decreases w + d - u,
        {
            let mut v: i64 = -w;
            while v < w
                invariant
                    0 < w <= MAX_DIM,
                    0 < d <= MAX_DIM,
                    -w <= u < w,
                    -w <= v,
                    v < w + d,
                    cube_points_spec(w as int, d as int) == points@ + cube_row(
                        u as int,
                        v as int,
                        w as int,
                        d as int,
                    ) + cube_points_from(u as int + d as int, w as int, d as int),
                    forall|n: int| 0 <= n < points@.len() ==> (#[trigger] points@[n]).wf(),
                decreases w + d - v,
            {
                let ghost prev = points@;
                // Front face
                points.push(Point { x: u, y: v, z: -w, character: '.' });
                // Right face
                points.push(Point { x: w, y: v, z: u, character: '$' });
                // Left face
                points.push(Point { x: -w, y: v, z: -u, character: '~' });
                // Back face
                points.push(Point { x: -u, y: v, z: w, character: '#' });
                // Bottom face
                points.push(Point { x: u, y: -w, z: -v, character: ';' });
                // Top face
                points.push(Point { x: u, y: w, z: v, character: '-' });
                proof {
                    assert(points@ =~= prev + cube_face_points(u as int, v as int, w as int));
                    assert(prev + cube_row(u as int, v as int, w as int, d as int)
                        + cube_points_from(u as int + d as int, w as int, d as int) =~= points@
                        + cube_row(u as int, v as int + d as int, w as int, d as int)
                        + cube_points_from(u as int + d as int, w as int, d as int));
                }
                v = v + d;
            }
            proof {
                assert(points@ + cube_row(u as int, v as int, w as int, d as int)
                    + cube_points_from(u as int + d as int, w as int, d as int) =~= points@
                    + cube_points_from(u as int + d as int, w as int, d as int));
            }
            u = u + d;
        }
        points
    }
}

/// The six face points of one `(u, v)` cell of the cube's sampling grid,
/// one per face, each tagged with that face's glyph.
pub open spec fn cube_face_points(u: int, v: int, w: int) -> Seq<Point> {
    seq![
        Point { x: u as i64, y: v as i64, z: (-w) as i64, character: '.' },
        Point { x: w as i64, y: v as i64, z: u as i64, character: '$' },
        Point { x: (-w) as i64, y: v as i64, z: (-u) as i64, character: '~' },
        Point { x: (-u) as i64, y: v as i64, z: w as i64, character: '#' },
        Point { x: u as i64, y: (-w) as i64, z: (-v) as i64, character: ';' },
        Point { x: u as i64, y: w as i64, z: v as i64, character: '-' },
    ]
}

/// One grid row of the cube: `v` sweeps `[-w, w)` at step `d`.
pub open spec fn cube_row(u: int, v: int, w: int, d: int) -> Seq<Point>
    decreases w + d - v when d > 0
{
    if d <= 0 || v >= w {
        Seq::empty()
    } else {
        cube_face_points(u, v, w) + cube_row(u, v + d, w, d)
    }
}

/// The cube's rows from `u` upward: `u` sweeps `[-w, w)` at step `d`.
pub open spec fn cube_points_from(u: int, w: int, d: int) -> Seq<Point>
    decreases w + d - u when d > 0
{
    if d <= 0 || u >= w {
        Seq::empty()
    } else {
        cube_row(u, -w, w, d) + cube_points_from(u + d, w, d)
    }
}

/// The full point cloud of `Cube { width: w }` at density `d`.
pub open spec fn cube_points_spec(w: int, d: int) -> Seq<Point> {
    cube_points_from(-w, w, d)
}

/// A point lies on the cube's shell: inside the closed cube and on at
/// least one of the six boundary planes.
pub open spec fn on_cube_shell(p: Point, w: int) -> bool {
    &&& -w <= p.x <= w
    &&& -w <= p.y <= w
    &&& -w <= p.z <= w
    &&& (p.x == w || p.x == -w || p.y == w || p.y == -w || p.z == w || p.z == -w)
}

proof fn lemma_cube_row_shell(u: int, v: int, w: int, d: int)
    requires
        0 < w <= MAX_DIM,
        0 < d,
        -w <= u < w,
        -w <= v,
    ensures
        forall|n: int|
            0 <= n < cube_row(u, v, w, d).len() ==> on_cube_shell(
                #[trigger] cube_row(u, v, w, d)[n],
                w,
            ),
    decreases w + d - v,
{
    if v < w {
        lemma_cube_row_shell(u, v + d, w, d);
        let face = cube_face_points(u, v, w);
        let rest = cube_row(u, v + d, w, d);
        assert(cube_row(u, v, w, d) == face + rest);
        assert forall|n: int| 0 <= n < cube_row(u, v, w, d).len() implies on_cube_shell(
            cube_row(u, v, w, d)[n],
            w,
        ) by {
            if n >= 6 {
                assert(cube_row(u, v, w, d)[n] == rest[n - 6]);
            } else {
                assert(cube_row(u, v, w, d)[n] == face[n]);
                assert(on_cube_shell(face[0], w));
                assert(on_cube_shell(face[1], w));
                assert(on_cube_shell(face[2], w));
                assert(on_cube_shell(face[3], w));
                assert(on_cube_shell(face[4], w));
                assert(on_cube_shell(face[5], w));
            }
        }
    }
}

proof fn lemma_cube_from_shell(u: int, w: int, d: int)
    requires
        0 < w <= MAX_DIM,
        0 < d,
        -w <= u,
    ensures
        forall|n: int|
            0 <= n < cube_points_from(u, w, d).len() ==> on_cube_shell(
                #[trigger] cube_points_from(u, w, d)[n],
                w,
            ),
    decreases w + d - u,
{
    if u < w {
        lemma_cube_row_shell(u, -w, w, d);
        lemma_cube_from_shell(u + d, w, d);
        let row = cube_row(u, -w, w, d);
        let rest = cube_points_from(u + d, w, d);
        assert(cube_points_from(u, w, d) == row + rest);
        assert forall|n: int| 0 <= n < cube_points_from(u, w, d).len() implies on_cube_shell(
            cube_points_from(u, w, d)[n],
            w,
        ) by {
            if n >= row.len() {
                assert(cube_points_from(u, w, d)[n] == rest[n - row.len()]);
            } else {
                assert(cube_points_from(u, w, d)[n] == row[n]);
            }
        }
    }
}

/// Law: every point generated for a cube of half-width `w` lies on the
/// boundary planes `x == ±w`, `y == ±w` or `z == ±w`, and never outside
/// the closed cube `[-w, w]^3`.
pub proof fn lemma_cube_points_on_shell(w: int, d: int)
    requires
        0 < w <= MAX_DIM,
        0 < d,
    ensures
        forall|n: int|
            0 <= n < cube_points_spec(w, d).len() ==> on_cube_shell(
                #[trigger] cube_points_spec(w, d)[n],
                w,
            ),
{
    lemma_cube_from_shell(-w, w, d);
}

/// A solid sphere surface of the given radius, sampled over spherical
/// coordinates at half the configured density.
pub struct Sphere {
    pub radius: i64,
}

impl Sphere {
    /// Positive and within the admitted dimension range.
    pub open spec fn wf(&self) -> bool {
        0 < self.radius <= MAX_DIM
    }

    /// A sphere of the given radius.
    pub fn new(radius: i64) -> (s: Sphere)
        requires
            0 < radius <= MAX_DIM,
        ensures
            s.radius == radius,
            s.wf(),
    {
        Sphere { radius }
    }

    /// Sweep latitude over `[0, PI_FP)` and longitude over
    /// `[0, TWO_PI_FP)`, both at half the density, converting each
    /// spherical sample to Cartesian coordinates.
    pub fn generate_points(&self, density: i64) -> (points: Vec<Point>)
        requires
            self.wf(),
            1 < density <= MAX_DIM,
        ensures
            points@ == sphere_points_spec(self.radius as int, density as int),
            forall|n: int| 0 <= n < points@.len() ==> (#[trigger] points@[n]).wf(),
    {
        let rad: i64 = self.radius;
        let d2: i64 = density / 2;
        let mut points: Vec<Point> = Vec::new();
        let mut phi: i64 = 0;
        while phi < PI_FP
            invariant
                0 < rad <= MAX_DIM,
                0 < d2 <= MAX_DIM,
                0 <= phi < PI_FP + d2,
                d2 == density as int / 2,
                rad == self.radius,
                sphere_points_spec(rad as int, density as int) == points@ + sphere_phis(
                    rad as int,
                    phi as int,
                    d2 as int,
                ),
                forall|n: int| 0 <= n < points@.len() ==> (#[trigger] points@[n]).wf(),
            decreases PI_FP + d2 - phi,
        {
            let sp: i64 = sin_fp(phi);
            let cp: i64 = cos_fp(phi);
            let mut theta: i64 = 0;
            while theta < TWO_PI_FP
                invariant
                    0 < rad <= MAX_DIM,
                    0 < d2 <= MAX_DIM,
                    0 <= phi < PI_FP,
                    0 <= theta < TWO_PI_FP + d2,
                    sp == sin_fp_spec(phi as int),
                    cp == cos_fp_spec(phi as int),
                    -SCALE <= sp <= SCALE,
                    -SCALE <= cp <= SCALE,
                    sphere_points_spec(rad as int, density as int) == points@ + sphere_thetas(
                        rad as int,
                        phi as int,
                        theta as int,
                        d2 as int,
                    ) + sphere_phis(rad as int, phi as int + d2 as int, d2 as int),
                    forall|n: int| 0 <= n < points@.len() ==> (#[trigger] points@[n]).wf(),
                decreases TWO_PI_FP + d2 - theta,
            {
                let ghost prev = points@;
                let st: i64 = sin_fp(theta);
                let ct: i64 = cos_fp(theta);
                let x: i64 = mul_fp(mul_fp(rad, sp), ct);
                let y: i64 = mul_fp(mul_fp(rad, sp), st);
                let z: i64 = mul_fp(rad, cp);
                points.push(Point { x, y, z, character: 'o' });
                proof {
                    assert(points@ =~= prev + seq![
                        sphere_point(rad as int, phi as int, theta as int),
                    ]);
                    assert(prev + sphere_thetas(rad as int, phi as int, theta as int, d2 as int)
                        + sphere_phis(rad as int, phi as int + d2 as int, d2 as int) =~= points@
                        + sphere_thetas(rad as int, phi as int, theta as int + d2 as int, d2 as int)
                        + sphere_phis(rad as int, phi as int + d2 as int, d2 as int));
                }
                theta = theta + d2;
            }
            proof {
                assert(points@ + sphere_thetas(rad as int, phi as int, theta as int, d2 as int)
                    + sphere_phis(rad as int, phi as int + d2 as int, d2 as int) =~= points@
                    + sphere_phis(rad as int, phi as int + d2 as int, d2 as int));
            }
            phi = phi + d2;
        }
        points
    }
}

/// One spherical sample converted to Cartesian coordinates.
pub open spec fn sphere_point(r: int, phi: int, theta: int) -> Point {
    Point {
        x: fmul(fmul(r, sin_fp_spec(phi)), cos_fp_spec(theta)) as i64,
        y: fmul(fmul(r, sin_fp_spec(phi)), sin_fp_spec(theta)) as i64,
        z: fmul(r, cos_fp_spec(phi)) as i64,
        character: 'o',
    }
}

/// One latitude ring of the sphere: `theta` sweeps `[0, TWO_PI_FP)`.
pub open spec fn sphere_thetas(r: int, phi: int, theta: int, d2: int) -> Seq<Point>
    decreases TWO_PI_FP + d2 - theta when d2 > 0
{
    if d2 <= 0 || theta >= TWO_PI_FP {
        Seq::empty()
    } else {
        seq![sphere_point(r, phi, theta)] + sphere_thetas(r, phi, theta + d2, d2)
    }
}

/// The sphere's rings from latitude `phi` upward.
pub open spec fn sphere_phis(r: int, phi: int, d2: int) -> Seq<Point>
    decreases PI_FP + d2 - phi when d2 > 0
{
    if d2 <= 0 || phi >= PI_FP {
        Seq::empty()
    } else {
        sphere_thetas(r, phi, 0, d2) + sphere_phis(r, phi + d2, d2)
    }
}

/// The full point cloud of `Sphere { radius: r }` at density `d`.
pub open spec fn sphere_points_spec(r: int, d: int) -> Seq<Point> {
    sphere_phis(r, 0, d / 2)
}

/// One sixth of a turn in fixed-point radians: exactly `PI_FP / 3`, the
/// angular spacing of the hexagon's vertices.
pub const HEX_STEP_FP: i64 = 10472;

/// A prism over a regular hexagon: six vertical edges, outlined and
/// filled top and bottom faces, and filled side faces.
pub struct HexagonalPrism {
    pub radius: i64,
    pub height: i64,
}

impl HexagonalPrism {
    /// Both dimensions positive and within the admitted range.
    pub open spec fn wf(&self) -> bool {
        &&& 0 < self.radius <= MAX_DIM
        &&& 0 < self.height <= MAX_DIM
    }

    /// A prism with the given circumradius and height.
    pub fn new(radius: i64, height: i64) -> (p: HexagonalPrism)
        requires
            0 < radius <= MAX_DIM,
            0 < height <= MAX_DIM,
        ensures
            p.radius == radius,
            p.height == height,
            p.wf(),
    {
        HexagonalPrism { radius, height }
    }

    /// For each of the six edges: the vertical edge, the outlines of the
    /// two caps, the filled disks of the two caps, and the filled side
    /// face.
    pub fn generate_points(&self, density: i64) -> (points: Vec<Point>)
        requires
            self.wf(),
            0 < density <= MAX_DIM,
        ensures
            points@ == hex_points_spec(self.radius as int, self.height as int, density as int),
            forall|n: int| 0 <= n < points@.len() ==> (#[trigger] points@[n]).wf(),
    {
        let r: i64 = self.radius;
        let hh: i64 = self.height / 2;
        let d: i64 = density;
        let mut points: Vec<Point> = Vec::new();
        let mut i: i64 = 0;
        while i < 6
            invariant
                0 < r <= MAX_DIM,
                0 <= hh <= MAX_DIM,
                hh == self.height as int / 2,
                0 < d <= MAX_DIM,
                0 <= i <= 6,
                hex_points_spec(self.radius as int, self.height as int, d as int) == points@
                    + hex_edges(r as int, hh as int, d as int, i as int),
                r == self.radius,
                forall|n: int| 0 <= n < points@.len() ==> (#[trigger] points@[n]).wf(),
            decreases 6 - i,
        {
            let ghost before = points@;
            let j: i64 = if i == 5 {
                0
            } else {
                i + 1
            };
            let (x1, y1) = hex_vertex(r, i);
            let (x2, y2) = hex_vertex(r, j);
            emit_vert_edge(&mut points, x1, y1, hh, d);
            let ghost after_a = points@;
            emit_cap_edges(&mut points, x1, y1, x2, y2, hh, d);
            let ghost after_b = points@;
            emit_disk(&mut points, r, hh, d);
            let ghost after_c = points@;
            emit_side(&mut points, x1, y1, x2, y2, hh, d);
            proof {
                assert(points@ =~= before + hex_edge(r as int, hh as int, d as int, i as int));
                assert(before + hex_edges(r as int, hh as int, d as int, i as int) =~= points@
                    + hex_edges(r as int, hh as int, d as int, i as int + 1));
            }
            i = i + 1;
        }
        points
    }
}

/// The x coordinate of hexagon vertex `i` (spacing of one sixth turn).
pub open spec fn hex_vertex_x(r: int, i: int) -> int {
    fmul(r, cos_fp_spec(HEX_STEP_FP * i))
}

/// The y coordinate of hexagon vertex `i`.
pub open spec fn hex_vertex_y(r: int, i: int) -> int {
    fmul(r, sin_fp_spec(HEX_STEP_FP * i))
}

/// Both coordinates of hexagon vertex `idx`.
fn hex_vertex(r: i64, idx: i64) -> (v: (i64, i64))
    requires
        0 < r <= MAX_DIM,
        0 <= idx < 6,
    ensures
        v.0 == hex_vertex_x(r as int, idx as int),
        v.1 == hex_vertex_y(r as int, idx as int),
        -MAX_DIM <= v.0 <= MAX_DIM,
        -MAX_DIM <= v.1 <= MAX_DIM,
{
    let ang: i64 = HEX_STEP_FP * idx;
    (mul_fp(r, cos_fp(ang)), mul_fp(r, sin_fp(ang)))
}

/// The points of one vertical edge: `z` sweeps `[-hh, hh)` at step `d`.
pub open spec fn hex_vert_edge(x1: int, y1: int, h: int, hh: int, d: int) -> Seq<Point>
    decreases hh + d - h when d > 0
{
    if d <= 0 || h >= hh {
        Seq::empty()
    } else {
        seq![Point { x: x1 as i64, y: y1 as i64, z: h as i64, character: '|' }] + hex_vert_edge(
            x1,
            y1,
            h + d,
            hh,
            d,
        )
    }
}

/// The pair of cap-outline points at interpolation parameter `t`: one on
/// the top face, one on the bottom face.
pub open spec fn hex_cap_pair(x1: int, y1: int, x2: int, y2: int, t: int, hh: int) -> Seq<Point> {
    let x = x1 + fmul(x2 - x1, t);
    let y = y1 + fmul(y2 - y1, t);
    seq![
        Point { x: x as i64, y: y as i64, z: hh as i64, character: '-' },
        Point { x: x as i64, y: y as i64, z: (-hh) as i64, character: '-' },
    ]
}

/// The outlines of both caps along one edge: `t` sweeps `[0, SCALE)`.
pub open spec fn hex_cap_edges(
    x1: int,
    y1: int,
    x2: int,
    y2: int,
    t: int,
    hh: int,
    d: int,
) -> Seq<Point>
    decreases SCALE + d - t when d > 0
{
    if d <= 0 || t >= SCALE {
        Seq::empty()
    } else {
        hex_cap_pair(x1, y1, x2, y2, t, hh) + hex_cap_edges(x1, y1, x2, y2, t + d, hh, d)
    }
}

/// The number of angular samples on the polar ring of radius `rr`:
/// the circumference over the density, rounded up.
pub open spec fn hex_ring_steps(rr: int, d: int) -> int {
    (TWO_PI_FP * rr + SCALE * d - 1) / (SCALE * d)
}

/// The disk points contributed at one polar sample, if it passes the
/// hexagon containment test: one on each cap.
pub open spec fn hex_ring_cell(r: int, rr: int, s: int, steps: int, hh: int) -> Seq<Point> {
    let ang = (TWO_PI_FP * s) / steps;
    let x = fmul(rr, cos_fp_spec(ang));
    let y = fmul(rr, sin_fp_spec(ang));
    if in_hexagon_spec(x, y, r) {
        seq![
            Point { x: x as i64, y: y as i64, z: hh as i64, character: '.' },
            Point { x: x as i64, y: y as i64, z: (-hh) as i64, character: '.' },
        ]
    } else {
        Seq::empty()
    }
}

/// One polar ring of the cap disks: `s` counts up to `steps`.
pub open spec fn hex_ring(r: int, rr: int, s: int, steps: int, hh: int) -> Seq<Point>
    decreases steps - s,
{
    if s >= steps {
        Seq::empty()
    } else {
        hex_ring_cell(r, rr, s, steps, hh) + hex_ring(r, rr, s + 1, steps, hh)
    }
}

/// The filled cap disks: ring radius `rr` sweeps `[0, r)` at step `d`.
pub open spec fn hex_disk(r: int, rr: int, hh: int, d: int) -> Seq<Point>
    decreases r + d - rr when d > 0
{
    if d <= 0 || rr >= r {
        Seq::empty()
    } else {
        hex_ring(r, rr, 0, hex_ring_steps(rr, d), hh) + hex_disk(r, rr + d, hh, d)
    }
}

/// One side-face point at height `h` and interpolation parameter `t`.
pub open spec fn hex_side_point(x1: int, y1: int, x2: int, y2: int, t: int, h: int) -> Point {
    Point {
        x: (x1 + fmul(x2 - x1, t)) as i64,
        y: (y1 + fmul(y2 - y1, t)) as i64,
        z: h as i64,
        character: '#',
    }
}

/// One row of a side face: `t` sweeps `[0, SCALE)` at step `d`.
pub open spec fn hex_side_row(
    x1: int,
    y1: int,
    x2: int,
    y2: int,
    t: int,
    h: int,
    d: int,
) -> Seq<Point>
    decreases SCALE + d - t when d > 0
{
    if d <= 0 || t >= SCALE {
        Seq::empty()
    } else {
        seq![hex_side_point(x1, y1, x2, y2, t, h)] + hex_side_row(x1, y1, x2, y2, t + d, h, d)
    }
}

/// A filled side face: `h` sweeps `[-hh, hh)` at step `d`.
pub open spec fn hex_side(x1: int, y1: int, x2: int, y2: int, h: int, hh: int, d: int) -> Seq<
    Point,
>
    decreases hh + d - h when d > 0
{
    if d <= 0 || h >= hh {
        Seq::empty()
    } else {
        hex_side_row(x1, y1, x2, y2, 0, h, d) + hex_side(x1, y1, x2, y2, h + d, hh, d)
    }
}

/// Everything one edge of the hexagon contributes: vertical edge, cap
/// outlines, cap disks and side face, in that order.
pub open spec fn hex_edge(r: int, hh: int, d: int, i: int) -> Seq<Point> {
    let j = if i == 5 {
        0
    } else {
        i + 1
    };
    let x1 = hex_vertex_x(r, i);
    let y1 = hex_vertex_y(r, i);
    let x2 = hex_vertex_x(r, j);
    let y2 = hex_vertex_y(r, j);
    hex_vert_edge(x1, y1, -hh, hh, d) + hex_cap_edges(x1, y1, x2, y2, 0, hh, d) + hex_disk(
        r,
        0,
        hh,
        d,
    ) + hex_side(x1, y1, x2, y2, -hh, hh, d)
}

/// The contributions of edges `i` through five.
pub open spec fn hex_edges(r: int, hh: int, d: int, i: int) -> Seq<Point>
    decreases 6 - i,
{
    if i >= 6 {
        Seq::empty()
    } else {
        hex_edge(r, hh, d, i) + hex_edges(r, hh, d, i + 1)
    }
}

/// The full point cloud of a hexagonal prism.
pub open spec fn hex_points_spec(r: int, height: int, d: int) -> Seq<Point> {
    hex_edges(r, height / 2, d, 0)
}

/// Push one vertical edge's points.
fn emit_vert_edge(points: &mut Vec<Point>, x1: i64, y1: i64, hh: i64, d: i64)
    requires
        -MAX_DIM <= x1 <= MAX_DIM,
        -MAX_DIM <= y1 <= MAX_DIM,
        0 <= hh <= MAX_DIM,
        0 < d <= MAX_DIM,
        forall|n: int| 0 <= n < old(points)@.len() ==> (#[trigger] old(points)@[n]).wf(),
    ensures
        final(points)@ == old(points)@ + hex_vert_edge(
            x1 as int,
            y1 as int,
            -(hh as int),
            hh as int,
            d as int,
        ),
        forall|n: int| 0 <= n < final(points)@.len() ==> (#[trigger] final(points)@[n]).wf(),
{
    let ghost orig = points@;
    let mut h: i64 = -hh;
    while h < hh
        invariant
            -MAX_DIM <= x1 <= MAX_DIM,
            -MAX_DIM <= y1 <= MAX_DIM,
            0 <= hh <= MAX_DIM,
            0 < d <= MAX_DIM,
            -hh <= h,
            h < hh + d,
            orig + hex_vert_edge(x1 as int, y1 as int, -(hh as int), hh as int, d as int)
                == points@ + hex_vert_edge(x1 as int, y1 as int, h as int, hh as int, d as int),
            forall|n: int| 0 <= n < points@.len() ==> (#[trigger] points@[n]).wf(),
        decreases hh + d - h,
    {
        let ghost prev = points@;
        points.push(Point { x: x1, y: y1, z: h, character: '|' });
        proof {
            assert(points@ =~= prev + seq![
                Point { x: x1, y: y1, z: h, character: '|' },
            ]);
            assert(prev + hex_vert_edge(x1 as int, y1 as int, h as int, hh as int, d as int)
                =~= points@ + hex_vert_edge(
                x1 as int,
                y1 as int,
                h as int + d as int,
                hh as int,
                d as int,
            ));
        }
        h = h + d;
    }
}

/// Push the outlines of both caps along one edge.
fn emit_cap_edges(points: &mut Vec<Point>, x1: i64, y1: i64, x2: i64, y2: i64, hh: i64, d: i64)
    requires
        -MAX_DIM <= x1 <= MAX_DIM,
        -MAX_DIM <= y1 <= MAX_DIM,
        -MAX_DIM <= x2 <= MAX_DIM,
        -MAX_DIM <= y2 <= MAX_DIM,
        0 <= hh <= MAX_DIM,
        0 < d <= MAX_DIM,
        forall|n: int| 0 <= n < old(points)@.len() ==> (#[trigger] old(points)@[n]).wf(),
    ensures
        final(points)@ == old(points)@ + hex_cap_edges(
            x1 as int,
            y1 as int,
            x2 as int,
            y2 as int,
            0,
            hh as int,
            d as int,
        ),
        forall|n: int| 0 <= n < final(points)@.len() ==> (#[trigger] final(points)@[n]).wf(),
{
    let ghost orig = points@;
    let mut t: i64 = 0;
    while t < SCALE
        invariant
            -MAX_DIM <= x1 <= MAX_DIM,
            -MAX_DIM <= y1 <= MAX_DIM,
            -MAX_DIM <= x2 <= MAX_DIM,
            -MAX_DIM <= y2 <= MAX_DIM,
            0 <= hh <= MAX_DIM,
            0 < d <= MAX_DIM,
            0 <= t,
            t < SCALE + d,
            orig + hex_cap_edges(
                x1 as int,
                y1 as int,
                x2 as int,
                y2 as int,
                0,
                hh as int,
                d as int,
            ) == points@ + hex_cap_edges(
                x1 as int,
                y1 as int,
                x2 as int,
                y2 as int,
                t as int,
                hh as int,
                d as int,
            ),
            forall|n: int| 0 <= n < points@.len() ==> (#[trigger] points@[n]).wf(),
        decreases SCALE + d - t,
    {
        let ghost prev = points@;
        let x: i64 = x1 + mul_fp(x2 - x1, t);
        let y: i64 = y1 + mul_fp(y2 - y1, t);
        points.push(Point { x, y, z: hh, character: '-' });
        points.push(Point { x, y, z: -hh, character: '-' });
        proof {
            assert(points@ =~= prev + hex_cap_pair(
                x1 as int,
                y1 as int,
                x2 as int,
                y2 as int,
                t as int,
                hh as int,
            ));
            assert(prev + hex_cap_edges(
                x1 as int,
                y1 as int,
                x2 as int,
                y2 as int,
                t as int,
                hh as int,
                d as int,
            ) =~= points@ + hex_cap_edges(
                x1 as int,
                y1 as int,
                x2 as int,
                y2 as int,
                t as int + d as int,
                hh as int,
                d as int,
            ));
        }
        t = t + d;
    }
}

/// Push the filled cap disks (both caps at once), sampling each polar
/// ring and keeping the samples that pass the hexagon test.
fn emit_disk(points: &mut Vec<Point>, r: i64, hh: i64, d: i64)
    requires
        0 < r <= MAX_DIM,
        0 <= hh <= MAX_DIM,
        0 < d <= MAX_DIM,
        forall|n: int| 0 <= n < old(points)@.len() ==> (#[trigger] old(points)@[n]).wf(),
    ensures
        final(points)@ == old(points)@ + hex_disk(r as int, 0, hh as int, d as int),
        forall|n: int| 0 <= n < final(points)@.len() ==> (#[trigger] final(points)@[n]).wf(),
{
    let ghost orig = points@;
    let mut rr: i64 = 0;
    while rr < r
        invariant
            0 < r <= MAX_DIM,
            0 <= hh <= MAX_DIM,
            0 < d <= MAX_DIM,
            0 <= rr,
            rr < r + d,
            orig + hex_disk(r as int, 0, hh as int, d as int) == points@ + hex_disk(
                r as int,
                rr as int,
                hh as int,
                d as int,
            ),
            forall|n: int| 0 <= n < points@.len() ==> (#[trigger] points@[n]).wf(),
        decreases r + d - rr,
    {
        proof {
            lemma_mul_nonnegative(TWO_PI_FP as int, rr as int);
            lemma_mul_bounds(TWO_PI_FP as int, rr as int, TWO_PI_FP as int, MAX_DIM as int);
            lemma_mul_bounds(SCALE as int, d as int, SCALE as int, MAX_DIM as int);
        }
        let num: i64 = TWO_PI_FP * rr + SCALE * d - 1;
        let den: i64 = SCALE * d;
        proof {
            assert(0 < den) by (nonlinear_arith)
                requires
                    SCALE > 0,
                    d > 0,
                    den == SCALE * d,
            ;
            lemma_div_pos_is_pos(num as int, den as int);
            lemma_div_nonincreasing(num as int, den as int);
        }
        let steps: i64 = num / den;
        let mut s: i64 = 0;
        while s < steps
            invariant
                0 < r <= MAX_DIM,
                0 <= hh <= MAX_DIM,
                0 < d <= MAX_DIM,
                0 <= rr < r,
                0 <= s <= steps,
                steps == hex_ring_steps(rr as int, d as int),
                steps <= 100_000_000_000_000,
                orig + hex_disk(r as int, 0, hh as int, d as int) == points@ + hex_ring(
                    r as int,
                    rr as int,
                    s as int,
                    steps as int,
                    hh as int,
                ) + hex_disk(r as int, rr as int + d as int, hh as int, d as int),
                forall|n: int| 0 <= n < points@.len() ==> (#[trigger] points@[n]).wf(),
            decreases steps - s,
        {
            let ghost prev = points@;
            proof {
                lemma_angle_in_turn(s as int, steps as int);
                lemma_mul_bounds(TWO_PI_FP as int, s as int, TWO_PI_FP as int, steps as int);
                lemma_mul_bounds(TWO_PI_FP as int, steps as int, TWO_PI_FP as int,
                    100_000_000_000_000,
                );
            }
            let ang: i64 = (TWO_PI_FP * s) / steps;
            let x: i64 = mul_fp(rr, cos_fp(ang));
            let y: i64 = mul_fp(rr, sin_fp(ang));
            if is_point_in_hexagon(x, y, r) {
                points.push(Point { x, y, z: hh, character: '.' });
                points.push(Point { x, y, z: -hh, character: '.' });
            }
            proof {
                assert(points@ =~= prev + hex_ring_cell(
                    r as int,
                    rr as int,
                    s as int,
                    steps as int,
                    hh as int,
                ));
                assert(prev + hex_ring(r as int, rr as int, s as int, steps as int, hh as int)
                    =~= points@ + hex_ring(
                    r as int,
                    rr as int,
                    s as int + 1,
                    steps as int,
                    hh as int,
                ));
            }
            s = s + 1;
        }
        proof {
            assert(points@ + hex_ring(r as int, rr as int, s as int, steps as int, hh as int)
                + hex_disk(r as int, rr as int + d as int, hh as int, d as int) =~= points@
                + hex_disk(r as int, rr as int + d as int, hh as int, d as int));
        }
        rr = rr + d;
    }
}

/// Push one filled side face.
fn emit_side(points: &mut Vec<Point>, x1: i64, y1: i64, x2: i64, y2: i64, hh: i64, d: i64)
    requires
        -MAX_DIM <= x1 <= MAX_DIM,
        -MAX_DIM <= y1 <= MAX_DIM,
        -MAX_DIM <= x2 <= MAX_DIM,
        -MAX_DIM <= y2 <= MAX_DIM,
        0 <= hh <= MAX_DIM,
        0 < d <= MAX_DIM,
        forall|n: int| 0 <= n < old(points)@.len() ==> (#[trigger] old(points)@[n]).wf(),
    ensures
        final(points)@ == old(points)@ + hex_side(
            x1 as int,
            y1 as int,
            x2 as int,
            y2 as int,
            -(hh as int),
            hh as int,
            d as int,
        ),
        forall|n: int| 0 <= n < final(points)@.len() ==> (#[trigger] final(points)@[n]).wf(),
{
    let ghost orig = points@;
    let mut h: i64 = -hh;
    while h < hh
        invariant
            -MAX_DIM <= x1 <= MAX_DIM,
            -MAX_DIM <= y1 <= MAX_DIM,
            -MAX_DIM <= x2 <= MAX_DIM,
            -MAX_DIM <= y2 <= MAX_DIM,
            0 <= hh <= MAX_DIM,
            0 < d <= MAX_DIM,
            -hh <= h,
            h < hh + d,
            orig + hex_side(
                x1 as int,
                y1 as int,
                x2 as int,
                y2 as int,
                -(hh as int),
                hh as int,
                d as int,
            ) == points@ + hex_side(
                x1 as int,
                y1 as int,
                x2 as int,
                y2 as int,
                h as int,
                hh as int,
                d as int,
            ),
            forall|n: int| 0 <= n < points@.len() ==> (#[trigger] points@[n]).wf(),
        decreases hh + d - h,
    {
        let mut t: i64 = 0;
        while t < SCALE
            invariant
                -MAX_DIM <= x1 <= MAX_DIM,
                -MAX_DIM <= y1 <= MAX_DIM,
                -MAX_DIM <= x2 <= MAX_DIM,
                -MAX_DIM <= y2 <= MAX_DIM,
                0 <= hh <= MAX_DIM,
                0 < d <= MAX_DIM,
                -hh <= h < hh,
                0 <= t,
                t < SCALE + d,
                orig + hex_side(
                    x1 as int,
                    y1 as int,
                    x2 as int,
                    y2 as int,
                    -(hh as int),
                    hh as int,
                    d as int,
                ) == points@ + hex_side_row(
                    x1 as int,
                    y1 as int,
                    x2 as int,
                    y2 as int,
                    t as int,
                    h as int,
                    d as int,
                ) + hex_side(
                    x1 as int,
                    y1 as int,
                    x2 as int,
                    y2 as int,
                    h as int + d as int,
                    hh as int,
                    d as int,
                ),
                forall|n: int| 0 <= n < points@.len() ==> (#[trigger] points@[n]).wf(),
            decreases SCALE + d - t,
        {
            let ghost prev = points@;
            let x: i64 = x1 + mul_fp(x2 - x1, t);
            let y: i64 = y1 + mul_fp(y2 - y1, t);
            points.push(Point { x, y, z: h, character: '#' });
            proof {
                assert(points@ =~= prev + seq![
                    hex_side_point(x1 as int, y1 as int, x2 as int, y2 as int, t as int, h as int),
                ]);
                assert(prev + hex_side_row(
                    x1 as int,
                    y1 as int,
                    x2 as int,
                    y2 as int,
                    t as int,
                    h as int,
                    d as int,
                ) =~= points@ + hex_side_row(
                    x1 as int,
                    y1 as int,
                    x2 as int,
                    y2 as int,
                    t as int + d as int,
                    h as int,
                    d as int,
                ));
            }
            t = t + d;
        }
        proof {
            assert(points@ + hex_side_row(
                x1 as int,
                y1 as int,
                x2 as int,
                y2 as int,
                t as int,
                h as int,
                d as int,
            ) + hex_side(
                x1 as int,
                y1 as int,
                x2 as int,
                y2 as int,
                h as int + d as int,
                hh as int,
                d as int,
            ) =~= points@ + hex_side(
                x1 as int,
                y1 as int,
                x2 as int,
                y2 as int,
                h as int + d as int,
                hh as int,
                d as int,
            ));
        }
        h = h + d;
    }
}

/// Largest accumulated animation time `TwistedTorus::update` accepts,
/// far from the `i64` range so the per-frame addition cannot overflow.
pub const MAX_TIME: i64 = 1_000_000_000_000_000_000;

/// The twist factor derived from accumulated time: two units plus the
/// sine of half the time.
pub open spec fn twist_factor_spec(t: int) -> int {
    2 * SCALE + sin_fp_spec(reduce_spec(t / 2))
}

/// A torus whose cross-section rotates along its major circumference by
/// an angle growing linearly in the ring parameter, scaled by a
/// time-varying twist factor.
pub struct TwistedTorus {
    pub major_radius: i64,
    pub minor_radius: i64,
    pub twist_factor: i64,
    pub time: i64,
}

impl TwistedTorus {
    /// Radii in range, time accumulated so far nonnegative and bounded,
    /// and the twist factor exactly the one its time determines.
    pub open spec fn wf(&self) -> bool {
        &&& 0 < self.major_radius <= MAX_DIM
        &&& 0 < self.minor_radius <= MAX_DIM
        &&& 0 <= self.time <= MAX_TIME
        &&& self.twist_factor == twist_factor_spec(self.time as int)
        &&& SCALE <= self.twist_factor <= 3 * SCALE
    }

    /// A torus with the given radii, at time zero, with the twist factor
    /// exactly two units.
    pub fn new(major_radius: i64, minor_radius: i64) -> (t: TwistedTorus)
        requires
            0 < major_radius <= MAX_DIM,
            0 < minor_radius <= MAX_DIM,
        ensures
            t.major_radius == major_radius,
            t.minor_radius == minor_radius,
            t.twist_factor == 2 * SCALE,
            t.time == 0,
            t.wf(),
    {
        proof {
            lemma_twist_factor_time_zero();
        }
        TwistedTorus { major_radius, minor_radius, twist_factor: 2 * SCALE, time: 0 }
    }

    /// Accumulate one frame's time step and rederive the twist factor
    /// from the new total.
    pub fn update(&mut self, delta_time: i64)
        requires
            old(self).wf(),
            0 <= delta_time,
            old(self).time + delta_time <= MAX_TIME,
        ensures
            final(self).wf(),
            final(self).time == old(self).time + delta_time,
            final(self).twist_factor == twist_factor_spec(final(self).time as int),
            final(self).major_radius == old(self).major_radius,
            final(self).minor_radius == old(self).minor_radius,
    {
        self.time = self.time + delta_time;
        let red: i64 = reduce_angle(self.time / 2);
        self.twist_factor = 2 * SCALE + sin_fp(red);
    }

    /// Walk the two angular grids, whose step counts scale with the two
    /// radii, and emit each grid point of the twisted surface.
    pub fn generate_points(&self) -> (points: Vec<Point>)
        requires
            self.wf(),
        ensures
            points@ == torus_points_spec(
                self.major_radius as int,
                self.minor_radius as int,
                self.twist_factor as int,
            ),
            forall|n: int| 0 <= n < points@.len() ==> (#[trigger] points@[n]).wf(),
    {
        let mr: i64 = self.major_radius;
        let nr: i64 = self.minor_radius;
        let tf: i64 = self.twist_factor;
        let u_steps: i64 = (mr * 15) / SCALE;
        let v_steps: i64 = (nr * 15) / SCALE;
        let mut points: Vec<Point> = Vec::new();
        let mut u_step: i64 = 0;
        while u_step < u_steps
            invariant
                0 < mr <= MAX_DIM,
                0 < nr <= MAX_DIM,
                SCALE <= tf <= 3 * SCALE,
                0 <= u_steps <= 2_000_000,
                0 <= v_steps <= 2_000_000,
                u_steps == (mr * 15) / (SCALE as int),
                v_steps == (nr * 15) / (SCALE as int),
                0 <= u_step <= u_steps,
                torus_points_spec(mr as int, nr as int, tf as int) == points@ + torus_rings(
                    mr as int,
                    nr as int,
                    tf as int,
                    u_step as int,
                    u_steps as int,
                    v_steps as int,
                ),
                forall|n: int| 0 <= n < points@.len() ==> (#[trigger] points@[n]).wf(),
            decreases u_steps - u_step,
        {
            proof {
                lemma_angle_in_turn(u_step as int, u_steps as int);
            }
            let u: i64 = (TWO_PI_FP * u_step) / u_steps;
            let cu: i64 = cos_fp(u);
            let su: i64 = sin_fp(u);
            proof {
                lemma_mul_bounds(tf as int, u as int, 3 * SCALE as int, TWO_PI_FP as int);
            }
            let twist: i64 = div_trunc(tf * u, SCALE);
            let tw: i64 = reduce_angle(twist);
            let ctw: i64 = cos_fp(tw);
            let stw: i64 = sin_fp(tw);
            let mut v_step: i64 = 0;
            while v_step < v_steps
                invariant
                    0 < mr <= MAX_DIM,
                    0 < nr <= MAX_DIM,
                    SCALE <= tf <= 3 * SCALE,
                    0 <= u_steps <= 2_000_000,
                    0 <= v_steps <= 2_000_000,
                    0 <= u_step < u_steps,
                    0 <= v_step <= v_steps,
                    0 <= u < TWO_PI_FP,
                    u == (TWO_PI_FP * u_step as int) / (u_steps as int),
                    cu == cos_fp_spec(u as int),
                    su == sin_fp_spec(u as int),
                    tw == reduce_spec(fmul(tf as int, u as int)),
                    ctw == cos_fp_spec(tw as int),
                    stw == sin_fp_spec(tw as int),
                    -SCALE <= cu <= SCALE,
                    -SCALE <= su <= SCALE,
                    -SCALE <= ctw <= SCALE,
                    -SCALE <= stw <= SCALE,
                    torus_points_spec(mr as int, nr as int, tf as int) == points@ + torus_ring(
                        mr as int,
                        nr as int,
                        tf as int,
                        u_step as int,
                        u_steps as int,
                        v_step as int,
                        v_steps as int,
                    ) + torus_rings(
                        mr as int,
                        nr as int,
                        tf as int,
                        u_step as int + 1,
                        u_steps as int,
                        v_steps as int,
                    ),
                    forall|n: int| 0 <= n < points@.len() ==> (#[trigger] points@[n]).wf(),
                decreases v_steps - v_step,
            {
                let ghost prev = points@;
                proof {
                    lemma_angle_in_turn(v_step as int, v_steps as int);
                }
                let v: i64 = (TWO_PI_FP * v_step) / v_steps;
                let cv: i64 = cos_fp(v);
                let sv: i64 = sin_fp(v);
                let ring: i64 = mr + mul_fp(nr, cv);
                let x: i64 = mul_fp(ring, cu);
                let y: i64 = mul_fp(ring, su);
                let z: i64 = mul_fp(nr, sv);
                let twisted_x: i64 = mul_fp(x, ctw) - mul_fp(y, stw);
                let twisted_y: i64 = mul_fp(x, stw) + mul_fp(y, ctw);
                let character: char = match (v_step % 3, u_step % 2) {
                    (0, 0) => '.',
                    (0, _) => '|',
                    (1, 0) => '○',
                    (1, _) => '&',
                    (_, 0) => '-',
                    (_, _) => '#',
                };
                points.push(Point { x: twisted_x, y: twisted_y, z, character });
                proof {
                    assert(points@ =~= prev + seq![
                        torus_point(
                            mr as int,
                            nr as int,
                            tf as int,
                            u_step as int,
                            u_steps as int,
                            v_step as int,
                            v_steps as int,
                        ),
                    ]);
                    assert(prev + torus_ring(
                        mr as int,
                        nr as int,
                        tf as int,
                        u_step as int,
                        u_steps as int,
                        v_step as int,
                        v_steps as int,
                    ) + torus_rings(
                        mr as int,
                        nr as int,
                        tf as int,
                        u_step as int + 1,
                        u_steps as int,
                        v_steps as int,
                    ) =~= points@ + torus_ring(
                        mr as int,
                        nr as int,
                        tf as int,
                        u_step as int,
                        u_steps as int,
                        v_step as int + 1,
                        v_steps as int,
                    ) + torus_rings(
                        mr as int,
                        nr as int,
                        tf as int,
                        u_step as int + 1,
                        u_steps as int,
                        v_steps as int,
                    ));
                }
                v_step = v_step + 1;
            }
            proof {
                assert(points@ + torus_ring(
                    mr as int,
                    nr as int,
                    tf as int,
                    u_step as int,
                    u_steps as int,
                    v_step as int,
                    v_steps as int,
                ) + torus_rings(
                    mr as int,
                    nr as int,
                    tf as int,
                    u_step as int + 1,
                    u_steps as int,
                    v_steps as int,
                ) =~= points@ + torus_rings(
                    mr as int,
                    nr as int,
                    tf as int,
                    u_step as int + 1,
                    u_steps as int,
                    v_steps as int,
                ));
            }
            u_step = u_step + 1;
        }
        points
    }
}

/// The glyph of one torus grid point: a three-by-two repeating pattern
/// keyed by the two step indices.
pub open spec fn torus_glyph(u_step: int, v_step: int) -> char {
    if v_step % 3 == 0 && u_step % 2 == 0 {
        '.'
    } else if v_step % 3 == 0 {
        '|'
    } else if v_step % 3 == 1 && u_step % 2 == 0 {
        '○'
    } else if v_step % 3 == 1 {
        '&'
    } else if u_step % 2 == 0 {
        '-'
    } else {
        '#'
    }
}

/// One torus grid point: base torus coordinates, then the cross-section
/// rotated in the x-y plane by the twist angle `tf * u`.
pub open spec fn torus_point(
    mr: int,
    nr: int,
    tf: int,
    u_step: int,
    u_steps: int,
    v_step: int,
    v_steps: int,
) -> Point {
    let u = (TWO_PI_FP * u_step) / u_steps;
    let v = (TWO_PI_FP * v_step) / v_steps;
    let tw = reduce_spec(fmul(tf, u));
    let ring = mr + fmul(nr, cos_fp_spec(v));
    let x = fmul(ring, cos_fp_spec(u));
    let y = fmul(ring, sin_fp_spec(u));
    Point {
        x: (fmul(x, cos_fp_spec(tw)) - fmul(y, sin_fp_spec(tw))) as i64,
        y: (fmul(x, sin_fp_spec(tw)) + fmul(y, cos_fp_spec(tw))) as i64,
        z: fmul(nr, sin_fp_spec(v)) as i64,
        character: torus_glyph(u_step, v_step),
    }
}

/// One ring of the torus: `v_step` counts up to `v_steps`.
pub open spec fn torus_ring(
    mr: int,
    nr: int,
    tf: int,
    u_step: int,
    u_steps: int,
    v_step: int,
    v_steps: int,
) -> Seq<Point>
    decreases v_steps - v_step,
{
    if v_step >= v_steps {
        Seq::empty()
    } else {
        seq![torus_point(mr, nr, tf, u_step, u_steps, v_step, v_steps)] + torus_ring(
            mr,
            nr,
            tf,
            u_step,
            u_steps,
            v_step + 1,
            v_steps,
        )
    }
}

/// The torus's rings from `u_step` onward.
pub open spec fn torus_rings(
    mr: int,
    nr: int,
    tf: int,
    u_step: int,
    u_steps: int,
    v_steps: int,
) -> Seq<Point>
    decreases u_steps - u_step,
{
    if u_step >= u_steps {
        Seq::empty()
    } else {
        torus_ring(mr, nr, tf, u_step, u_steps, 0, v_steps) + torus_rings(
            mr,
            nr,
            tf,
            u_step + 1,
            u_steps,
            v_steps,
        )
    }
}

/// The full point cloud of a twisted torus with the given radii and
/// twist factor; the grid resolutions are fifteen steps per unit of
/// each radius.
pub open spec fn torus_points_spec(mr: int, nr: int, tf: int) -> Seq<Point> {
    torus_rings(mr, nr, tf, 0, (mr * 15) / (SCALE as int), (nr * 15) / (SCALE as int))
}

/// Law: the twist factor at time zero is exactly two units.
pub proof fn lemma_twist_factor_time_zero()
    ensures
        twist_factor_spec(0) == 2 * SCALE,
{
    lemma_sin_zero();
    lemma_fundamental_div_mod_converse_mod(0, TWO_PI_FP as int, 0, 0);
}

/// A grid index strictly below its step count yields an angle within
/// one turn.
proof fn lemma_angle_in_turn(step: int, steps: int)
    requires
        0 <= step < steps,
    ensures
        0 <= (TWO_PI_FP * step) / steps < TWO_PI_FP,
{
    lemma_mul_nonnegative(TWO_PI_FP as int, step);
    lemma_div_pos_is_pos(TWO_PI_FP * step, steps);
    assert(TWO_PI_FP * step < steps * TWO_PI_FP) by (nonlinear_arith)
        requires
            0 <= step < steps,
            TWO_PI_FP > 0,
    ;
    lemma_multiply_divide_lt(TWO_PI_FP * step, steps, TWO_PI_FP as int);
}

/// The one polymorphic shape interface: every variant generates a point
/// cloud, and the variant carrying animation state also answers to a
/// per-frame update, which leaves the other variants unchanged.
pub enum Shape {
    Cube(Cube),
    Sphere(Sphere),
    HexagonalPrism(HexagonalPrism),
    TwistedTorus(TwistedTorus),
}

/// The shape after one animation update: only the twisted torus
/// carries animation state.
pub open spec fn shape_after_update(s: Shape, delta_time: int) -> Shape {
    match s {
        Shape::TwistedTorus(t) => Shape::TwistedTorus(
            TwistedTorus {
                major_radius: t.major_radius,
                minor_radius: t.minor_radius,
                twist_factor: twist_factor_spec(t.time + delta_time) as i64,
                time: (t.time + delta_time) as i64,
            },
        ),
        _ => s,
    }
}

impl Shape {
    /// The carried shape is well formed.
    pub open spec fn wf(&self) -> bool {
        match self {
            Shape::Cube(c) => c.wf(),
            Shape::Sphere(s) => s.wf(),
            Shape::HexagonalPrism(p) => p.wf(),
            Shape::TwistedTorus(t) => t.wf(),
        }
    }

    /// Whether an update by `delta_time` stays within the admitted
    /// accumulated time.
    pub open spec fn can_update(&self, delta_time: int) -> bool {
        match self {
            Shape::TwistedTorus(t) => t.time + delta_time <= MAX_TIME,
            _ => true,
        }
    }

    /// The point cloud this shape generates at the given density.
    pub open spec fn points_spec(&self, density: int) -> Seq<Point> {
        match self {
            Shape::Cube(c) => cube_points_spec(c.width as int, density),
            Shape::Sphere(s) => sphere_points_spec(s.radius as int, density),
            Shape::HexagonalPrism(p) => hex_points_spec(
                p.radius as int,
                p.height as int,
                density,
            ),
            Shape::TwistedTorus(t) => torus_points_spec(
                t.major_radius as int,
                t.minor_radius as int,
                t.twist_factor as int,
            ),
        }
    }

    /// Generate the active shape's point cloud; the torus's resolution
    /// comes from its radii rather than the density.
    pub fn generate_points(&self, density: i64) -> (points: Vec<Point>)
        requires
            self.wf(),
            1 < density <= MAX_DIM,
        ensures
            points@ == self.points_spec(density as int),
            forall|n: int| 0 <= n < points@.len() ==> (#[trigger] points@[n]).wf(),
    {
        match self {
            Shape::Cube(c) => c.generate_points(density),
            Shape::Sphere(s) => s.generate_points(density),
            Shape::HexagonalPrism(p) => p.generate_points(density),
            Shape::TwistedTorus(t) => t.generate_points(),
        }
    }

    /// Advance animation state by one frame; shapes without animation
    /// state are left untouched.
    pub fn update(&mut self, delta_time: i64)
        requires
            old(self).wf(),
            0 <= delta_time,
            old(self).can_update(delta_time as int),
        ensures
            final(self).wf(),
            *final(self) == shape_after_update(*old(self), delta_time as int),
    {
        match self {
            Shape::TwistedTorus(t) => t.update(delta_time),
            _ => (),
        }
    }
}

/// The hexagon containment test, over absolute values: inside iff
/// `|y| <= sqrt3 * r / 2` and `|y| <= sqrt3 * (r - |x|)`, stated without
/// division by cross-multiplying with `SCALE`.
pub open spec fn in_hexagon_spec(x: int, y: int, r: int) -> bool {
    let xa = iabs(x);
    let ya = iabs(y);
    &&& 2 * SCALE * ya <= SQRT3_FP * r
    &&& SCALE * ya <= SQRT3_FP * (r - xa)
}

/// Whether `(x, y)` lies within the regular hexagon of circumradius
/// `radius` centred at the origin (boundary inclusive).
pub fn is_point_in_hexagon(x: i64, y: i64, radius: i64) -> (inside: bool)
    requires
        -COORD_LIMIT <= x <= COORD_LIMIT,
        -COORD_LIMIT <= y <= COORD_LIMIT,
        0 <= radius <= COORD_LIMIT,
    ensures
        inside == in_hexagon_spec(x as int, y as int, radius as int),
{
    let xa: i64 = if x >= 0 {
        x
    } else {
        -x
    };
    let ya: i64 = if y >= 0 {
        y
    } else {
        -y
    };
    proof {
        lemma_mul_bounds(2 * SCALE as int, ya as int, 2 * SCALE as int, COORD_LIMIT as int);
        lemma_mul_bounds(SCALE as int, ya as int, SCALE as int, COORD_LIMIT as int);
        lemma_mul_bounds(SQRT3_FP as int, radius as int, SQRT3_FP as int, COORD_LIMIT as int);
        lemma_mul_bounds(
            SQRT3_FP as int,
            radius - xa,
            SQRT3_FP as int,
            2 * COORD_LIMIT as int,
        );
    }
    2 * SCALE * ya <= SQRT3_FP * radius && SCALE * ya <= SQRT3_FP * (radius - xa)
}

/// Law: the centre is always inside the hexagon; any point past the
/// circumradius on the x axis is outside; the two x-axis vertices
/// themselves are inside (the boundary is inclusive).
pub proof fn lemma_hexagon_containment_edges(r: int, eps: int)
    requires
        0 <= r,
        0 < eps,
    ensures
        in_hexagon_spec(0, 0, r),
        !in_hexagon_spec(r + eps, 0, r),
        in_hexagon_spec(r, 0, r),
        in_hexagon_spec(-r, 0, r),
{
    lemma_mul_nonnegative(SQRT3_FP as int, r);
    assert(2 * SCALE * iabs(0) == 0) by (nonlinear_arith);
    assert(SCALE * iabs(0) == 0) by (nonlinear_arith);
    assert(SQRT3_FP * (r - iabs(0)) == SQRT3_FP * r);
    assert(SQRT3_FP * (r - (r + eps)) < 0) by (nonlinear_arith)
        requires
            0 < eps,
            SQRT3_FP > 0,
    ;
    assert(SQRT3_FP * (r - r) == 0) by (nonlinear_arith);
}

} // verus!
