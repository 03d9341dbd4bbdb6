//! Perspective projection, the depth-buffered rasterizer, and the frame
//! driver that runs a shape's whole point cloud into a character grid.

use vstd::prelude::*;
use vstd::arithmetic::div_mod::{lemma_div_nonincreasing, lemma_div_pos_is_pos};
use crate::fixed::{
    div_trunc_i128, lemma_mul_bounds, tdiv, COORD_LIMIT, SCALE, SCALE_CUBED,
};
use crate::rotation::{calc_x_spec, calc_y_spec, calc_z_spec, calculate_x, calculate_y,
    calculate_z, Scalars};
use crate::shapes::{Point, Shape, MAX_DIM};
use crate::trig::TWO_PI_FP;

verus! {

/// Largest screen dimension (in character cells) a configuration may
/// ask for.
pub const MAX_SCREEN: usize = 4096;

/// The fixed configuration of the renderer: screen geometry, camera,
/// sampling density and the per-frame rotation deltas.
#[derive(Clone, Copy, Debug)]
pub struct Config {
    /// Screen width in character cells.
    pub screen_width: usize,
    /// Screen height in character cells.
    pub screen_height: usize,
    /// The glyph every cell is reset to at the start of a frame.
    pub background: char,
    /// Camera distance added to every rotated depth, in fixed-point
    /// units.
    pub camera_distance: i64,
    /// The perspective scale constant, a plain multiplier.
    pub k1: i64,
    /// Horizontal centring offset in character cells.
    pub width_offset: i64,
    /// Sampling step of the shape generators, in fixed-point units.
    pub density: i64,
    /// Per-frame increments of the three rotation angles, in
    /// fixed-point radians.
    pub delta_a: i64,
    pub delta_b: i64,
    pub delta_c: i64,
}

impl Config {
    /// All fields within the ranges the pipeline's arithmetic admits.
    pub open spec fn wf(&self) -> bool {
        &&& 0 < self.screen_width <= MAX_SCREEN
        &&& 0 < self.screen_height <= MAX_SCREEN
        &&& -COORD_LIMIT <= self.camera_distance <= COORD_LIMIT
        &&& 0 <= self.k1 <= 1_000_000
        &&& -1_000_000 <= self.width_offset <= 1_000_000
        &&& 1 < self.density <= MAX_DIM
        &&& -TWO_PI_FP <= self.delta_a <= TWO_PI_FP
        &&& -TWO_PI_FP <= self.delta_b <= TWO_PI_FP
        &&& -TWO_PI_FP <= self.delta_c <= TWO_PI_FP
    }
}

impl Default for Config {
    /// The stock configuration: a 160 by 55 cell screen blanked to
    /// spaces, camera distance 70, perspective constant 100, sampling
    /// density one half, and the stock per-frame angle deltas.
    fn default() -> (c: Config)
        ensures
            c.screen_width == 160,
            c.screen_height == 55,
            c.background == ' ',
            c.camera_distance == 70 * SCALE,
            c.k1 == 100,
            c.width_offset == 10,
            c.density == SCALE / 2,
            c.delta_a == -300,
            c.delta_b == 200,
            c.delta_c == -400,
            c.wf(),
    {
        Config {
            screen_width: 160,
            screen_height: 55,
            background: ' ',
            camera_distance: 70 * SCALE,
            k1: 100,
            width_offset: 10,
            density: SCALE / 2,
            delta_a: -300,
            delta_b: 200,
            delta_c: -400,
        }
    }
}

/// The per-frame drawing state: a glyph grid and a depth grid over the
/// same address space, both reset at the start of every frame.
pub struct FrameBuffers {
    pub glyphs: Vec<char>,
    pub depth: Vec<i64>,
    pub width: usize,
    pub height: usize,
}

impl FrameBuffers {
    /// Both grids cover exactly `width * height` cells.
    pub open spec fn wf(&self) -> bool {
        &&& 0 < self.width <= MAX_SCREEN
        &&& 0 < self.height <= MAX_SCREEN
        &&& self.glyphs@.len() == self.width * self.height
        &&& self.depth@.len() == self.width * self.height
    }

    /// Write one projected sample: only if its cell index is on screen
    /// and it is strictly nearer than the cell's current occupant.
    pub fn plot(&mut self, idx: i128, character: char, ooz: i64)
        requires
            old(self).wf(),
        ensures
            final(self).wf(),
            final(self).width == old(self).width,
            final(self).height == old(self).height,
            final(self).glyphs@ == plot_glyphs_spec(
                old(self).glyphs@,
                old(self).depth@,
                old(self).width as int,
                old(self).height as int,
                idx as int,
                character,
                ooz,
            ),
            final(self).depth@ == plot_depth_spec(
                old(self).depth@,
                old(self).width as int,
                old(self).height as int,
                idx as int,
                ooz,
            ),
    {
        proof {
            lemma_mul_bounds(
                self.width as int,
                self.height as int,
                MAX_SCREEN as int,
                MAX_SCREEN as int,
            );
        }
        let n: usize = self.width * self.height;
        if 0 <= idx && idx < n as i128 {
            let i: usize = idx as usize;
            if ooz > self.depth[i] {
                self.depth.set(i, ooz);
                self.glyphs.set(i, character);
            }
        }
    }
}

/// What the glyph grid becomes when one sample is offered to it: the
/// glyph lands only if the index is on screen and the sample is
/// strictly nearer than the cell's current depth.
pub open spec fn plot_glyphs_spec(
    glyphs: Seq<char>,
    depth: Seq<i64>,
    w: int,
    h: int,
    idx: int,
    character: char,
    ooz: i64,
) -> Seq<char> {
    if 0 <= idx < w * h && ooz > depth[idx] {
        glyphs.update(idx, character)
    } else {
        glyphs
    }
}

/// What the depth grid becomes when one sample is offered to it.
pub open spec fn plot_depth_spec(depth: Seq<i64>, w: int, h: int, idx: int, ooz: i64) -> Seq<
    i64,
> {
    if 0 <= idx < w * h && ooz > depth[idx] {
        depth.update(idx, ooz)
    } else {
        depth
    }
}

/// Law: offering the identical sample twice leaves both grids exactly
/// as after the first offer; the repeated depth is no longer strictly
/// nearer, so the second offer is a no-op.
pub proof fn lemma_plot_idempotent(
    glyphs: Seq<char>,
    depth: Seq<i64>,
    w: int,
    h: int,
    idx: int,
    character: char,
    ooz: i64,
)
    requires
        glyphs.len() == w * h,
        depth.len() == w * h,
    ensures
        plot_glyphs_spec(
            plot_glyphs_spec(glyphs, depth, w, h, idx, character, ooz),
            plot_depth_spec(depth, w, h, idx, ooz),
            w,
            h,
            idx,
            character,
            ooz,
        ) == plot_glyphs_spec(glyphs, depth, w, h, idx, character, ooz),
        plot_depth_spec(plot_depth_spec(depth, w, h, idx, ooz), w, h, idx, ooz)
            == plot_depth_spec(depth, w, h, idx, ooz),
{
}

/// Law: a strictly nearer sample offered after a successful write at
/// the same cell always overwrites both grids.
pub proof fn lemma_plot_nearer_overwrites(
    glyphs: Seq<char>,
    depth: Seq<i64>,
    w: int,
    h: int,
    idx: int,
    c1: char,
    ooz1: i64,
    c2: char,
    ooz2: i64,
)
    requires
        glyphs.len() == w * h,
        depth.len() == w * h,
        0 <= idx < w * h,
        depth[idx] < ooz1 < ooz2,
    ensures
        plot_glyphs_spec(
            plot_glyphs_spec(glyphs, depth, w, h, idx, c1, ooz1),
            plot_depth_spec(depth, w, h, idx, ooz1),
            w,
            h,
            idx,
            c2,
            ooz2,
        ) == glyphs.update(idx, c1).update(idx, c2),
        plot_depth_spec(plot_depth_spec(depth, w, h, idx, ooz1), w, h, idx, ooz2)
            == depth.update(idx, ooz1).update(idx, ooz2),
{
}

/// Law: a sample whose index falls outside the screen's address space
/// never changes either grid.
pub proof fn lemma_plot_out_of_bounds(
    glyphs: Seq<char>,
    depth: Seq<i64>,
    w: int,
    h: int,
    idx: int,
    character: char,
    ooz: i64,
)
    requires
        !(0 <= idx < w * h),
    ensures
        plot_glyphs_spec(glyphs, depth, w, h, idx, character, ooz) == glyphs,
        plot_depth_spec(depth, w, h, idx, ooz) == depth,
{
}

/// Fresh per-frame buffers: every glyph the background, every depth
/// zero, meaning infinitely far.
pub fn new_frame(cfg: &Config) -> (bufs: FrameBuffers)
    requires
        cfg.wf(),
    ensures
        bufs.wf(),
        bufs.width == cfg.screen_width,
        bufs.height == cfg.screen_height,
        bufs.glyphs@ == Seq::new((cfg.screen_width * cfg.screen_height) as nat, |n: int| cfg.background),
        bufs.depth@ == Seq::new((cfg.screen_width * cfg.screen_height) as nat, |n: int| 0i64),
{
    proof {
        lemma_mul_bounds(
            cfg.screen_width as int,
            cfg.screen_height as int,
            MAX_SCREEN as int,
            MAX_SCREEN as int,
        );
    }
    let n: usize = cfg.screen_width * cfg.screen_height;
    let mut glyphs: Vec<char> = Vec::new();
    let mut depth: Vec<i64> = Vec::new();
    let mut i: usize = 0;
    while i < n
        invariant
            i <= n,
            glyphs@.len() == i,
            depth@.len() == i,
            forall|k: int| 0 <= k < i ==> glyphs@[k] == cfg.background,
            forall|k: int| 0 <= k < i ==> depth@[k] == 0i64,
        decreases n - i,
    {
        glyphs.push(cfg.background);
        depth.push(0);
        i = i + 1;
    }
    proof {
        assert(glyphs@ =~= Seq::new((cfg.screen_width * cfg.screen_height) as nat, |k: int| cfg.background));
        assert(depth@ =~= Seq::new((cfg.screen_width * cfg.screen_height) as nat, |k: int| 0i64));
    }
    FrameBuffers { glyphs, depth, width: cfg.screen_width, height: cfg.screen_height }
}

/// The inverse depth of a rotated point, at the scale of `SCALE_CUBED`:
/// the reciprocal of `z` plus the camera distance, truncated toward
/// zero, and zero only in the degenerate zero-depth case.
pub open spec fn ooz_spec(z: int, dist: int) -> int {
    let dep = z + dist;
    if dep > 0 {
        (SCALE_CUBED as int) / dep
    } else if dep < 0 {
        -((SCALE_CUBED as int) / -dep)
    } else {
        0
    }
}

/// The projected column of a rotated point given its inverse depth.
pub open spec fn project_x_spec(x: int, ooz: int, cfg: Config) -> int {
    cfg.screen_width / 2 - 2 * cfg.width_offset + tdiv(2 * cfg.k1 * ooz * x, SCALE_CUBED as int)
}

/// The projected row of a rotated point given its inverse depth.
pub open spec fn project_y_spec(y: int, ooz: int, cfg: Config) -> int {
    cfg.screen_height / 2 + tdiv(cfg.k1 * ooz * y, SCALE_CUBED as int)
}

/// Project one rotated point to screen coordinates and an inverse
/// depth. A point at exactly the camera plane (depth zero) has no
/// finite inverse depth and is skipped: the declared policy for the
/// degenerate case the division cannot serve.
pub fn project_point(x: i64, y: i64, z: i64, cfg: &Config) -> (r: Option<(i128, i128, i64)>)
    requires
        cfg.wf(),
        -5 * COORD_LIMIT <= x <= 5 * COORD_LIMIT,
        -5 * COORD_LIMIT <= y <= 5 * COORD_LIMIT,
        -5 * COORD_LIMIT <= z <= 5 * COORD_LIMIT,
    ensures
        match r {
            None => z + cfg.camera_distance == 0,
            Some(p) => {
                &&& z + cfg.camera_distance != 0
                &&& p.2 == ooz_spec(z as int, cfg.camera_distance as int)
                &&& p.0 == project_x_spec(x as int, p.2 as int, *cfg)
                &&& p.1 == project_y_spec(y as int, p.2 as int, *cfg)
                &&& -100_000_000_000_000_000_000 <= p.0 <= 100_000_000_000_000_000_000
                &&& -100_000_000_000_000_000_000 <= p.1 <= 100_000_000_000_000_000_000
            },
        },
{
    let depth: i64 = z + cfg.camera_distance;
    if depth == 0 {
        return None;
    }
    let ooz: i64 = if depth > 0 {
        proof {
            lemma_div_pos_is_pos(SCALE_CUBED as int, depth as int);
            lemma_div_nonincreasing(SCALE_CUBED as int, depth as int);
        }
        SCALE_CUBED / depth
    } else {
        proof {
            lemma_div_pos_is_pos(SCALE_CUBED as int, -(depth as int));
            lemma_div_nonincreasing(SCALE_CUBED as int, -(depth as int));
        }
        -(SCALE_CUBED / -depth)
    };
    proof {
        lemma_mul_bounds(2 * cfg.k1 as int, ooz as int, 2_000_000, SCALE_CUBED as int);
        lemma_mul_bounds(
            2 * cfg.k1 * ooz,
            x as int,
            2_000_000 * SCALE_CUBED,
            5 * COORD_LIMIT as int,
        );
        lemma_mul_bounds(cfg.k1 as int, ooz as int, 1_000_000, SCALE_CUBED as int);
        lemma_mul_bounds(
            cfg.k1 * ooz,
            y as int,
            1_000_000 * SCALE_CUBED,
            5 * COORD_LIMIT as int,
        );
        crate::fixed::lemma_tdiv_bound(
            2 * cfg.k1 * ooz * x,
            SCALE_CUBED as int,
            2_000_000 * SCALE_CUBED * 5 * COORD_LIMIT / (SCALE_CUBED as int),
        );
    }
    let tx: i128 = 2 * (cfg.k1 as i128) * (ooz as i128) * (x as i128);
    let ty: i128 = (cfg.k1 as i128) * (ooz as i128) * (y as i128);
    let qx: i128 = div_trunc_i128(tx, SCALE_CUBED as i128);
    let qy: i128 = div_trunc_i128(ty, SCALE_CUBED as i128);
    let xp: i128 = (cfg.screen_width / 2) as i128 - 2 * (cfg.width_offset as i128) + qx;
    let yp: i128 = (cfg.screen_height / 2) as i128 + qy;
    Some((xp, yp, ooz))
}

/// What one generated point does to the glyph grid: rotate, project,
/// then offer the sample to the rasterizer; the zero-depth point is
/// skipped.
pub open spec fn surface_glyphs_spec(
    glyphs: Seq<char>,
    depth: Seq<i64>,
    x: int,
    y: int,
    z: int,
    a: int,
    b: int,
    c: int,
    character: char,
    cfg: Config,
) -> Seq<char> {
    let rx = calc_x_spec(x, y, z, a, b, c);
    let ry = calc_y_spec(x, y, z, a, b, c);
    let rz = calc_z_spec(x, y, z, a, b, c);
    if rz + cfg.camera_distance == 0 {
        glyphs
    } else {
        let ooz = ooz_spec(rz, cfg.camera_distance as int);
        let idx = project_x_spec(rx, ooz, cfg) + project_y_spec(ry, ooz, cfg)
            * cfg.screen_width;
        plot_glyphs_spec(
            glyphs,
            depth,
            cfg.screen_width as int,
            cfg.screen_height as int,
            idx,
            character,
            ooz as i64,
        )
    }
}

/// What one generated point does to the depth grid.
pub open spec fn surface_depth_spec(
    depth: Seq<i64>,
    x: int,
    y: int,
    z: int,
    a: int,
    b: int,
    c: int,
    cfg: Config,
) -> Seq<i64> {
    let rx = calc_x_spec(x, y, z, a, b, c);
    let ry = calc_y_spec(x, y, z, a, b, c);
    let rz = calc_z_spec(x, y, z, a, b, c);
    if rz + cfg.camera_distance == 0 {
        depth
    } else {
        let ooz = ooz_spec(rz, cfg.camera_distance as int);
        let idx = project_x_spec(rx, ooz, cfg) + project_y_spec(ry, ooz, cfg)
            * cfg.screen_width;
        plot_depth_spec(
            depth,
            cfg.screen_width as int,
            cfg.screen_height as int,
            idx,
            ooz as i64,
        )
    }
}

/// Run one generated point through rotation, projection and the
/// rasterizer.
pub fn calculate_surface(
    x: i64,
    y: i64,
    z: i64,
    scalars: &Scalars,
    character: char,
    bufs: &mut FrameBuffers,
    cfg: &Config,
)
    requires
        old(bufs).wf(),
        scalars.wf(),
        cfg.wf(),
        old(bufs).width == cfg.screen_width,
        old(bufs).height == cfg.screen_height,
        -COORD_LIMIT <= x <= COORD_LIMIT,
        -COORD_LIMIT <= y <= COORD_LIMIT,
        -COORD_LIMIT <= z <= COORD_LIMIT,
    ensures
        final(bufs).wf(),
        final(bufs).width == old(bufs).width,
        final(bufs).height == old(bufs).height,
        final(bufs).glyphs@ == surface_glyphs_spec(
            old(bufs).glyphs@,
            old(bufs).depth@,
            x as int,
            y as int,
            z as int,
            scalars.a as int,
            scalars.b as int,
            scalars.c as int,
            character,
            *cfg,
        ),
        final(bufs).depth@ == surface_depth_spec(
            old(bufs).depth@,
            x as int,
            y as int,
            z as int,
            scalars.a as int,
            scalars.b as int,
            scalars.c as int,
            *cfg,
        ),
{
    let rx: i64 = calculate_x(x, y, z, scalars);
    let ry: i64 = calculate_y(x, y, z, scalars);
    let rz: i64 = calculate_z(x, y, z, scalars);
    match project_point(rx, ry, rz, cfg) {
        None => (),
        Some((xp, yp, ooz)) => {
            proof {
                lemma_mul_bounds(
                    yp as int,
                    cfg.screen_width as int,
                    100_000_000_000_000_000_000,
                    MAX_SCREEN as int,
                );
            }
            let idx: i128 = xp + yp * (cfg.screen_width as i128);
            bufs.plot(idx, character, ooz);
        },
    }
}

/// The two grids after the first `k` points of a cloud have been run
/// through the pipeline, starting from freshly reset buffers.
pub open spec fn render_state(
    points: Seq<Point>,
    k: int,
    a: int,
    b: int,
    c: int,
    cfg: Config,
) -> (Seq<char>, Seq<i64>)
    decreases k,
{
    if k <= 0 {
        (
            Seq::new((cfg.screen_width * cfg.screen_height) as nat, |n: int| cfg.background),
            Seq::new((cfg.screen_width * cfg.screen_height) as nat, |n: int| 0i64),
        )
    } else {
        let prev = render_state(points, k - 1, a, b, c, cfg);
        let p = points[k - 1];
        (
            surface_glyphs_spec(
                prev.0,
                prev.1,
                p.x as int,
                p.y as int,
                p.z as int,
                a,
                b,
                c,
                p.character,
                cfg,
            ),
            surface_depth_spec(prev.1, p.x as int, p.y as int, p.z as int, a, b, c, cfg),
        )
    }
}

/// Reset the buffers and run a whole point cloud through the pipeline.
pub fn render_points(points: &Vec<Point>, scalars: &Scalars, cfg: &Config) -> (bufs: FrameBuffers)
    requires
        scalars.wf(),
        cfg.wf(),
        forall|n: int| 0 <= n < points@.len() ==> (#[trigger] points@[n]).wf(),
    ensures
        bufs.wf(),
        bufs.width == cfg.screen_width,
        bufs.height == cfg.screen_height,
        bufs.glyphs@ == render_state(
            points@,
            points@.len() as int,
            scalars.a as int,
            scalars.b as int,
            scalars.c as int,
            *cfg,
        ).0,
        bufs.depth@ == render_state(
            points@,
            points@.len() as int,
            scalars.a as int,
            scalars.b as int,
            scalars.c as int,
            *cfg,
        ).1,
{
    let mut bufs = new_frame(cfg);
    let mut k: usize = 0;
    while k < points.len()
        invariant
            scalars.wf(),
            cfg.wf(),
            forall|n: int| 0 <= n < points@.len() ==> (#[trigger] points@[n]).wf(),
            k <= points@.len(),
            bufs.wf(),
            bufs.width == cfg.screen_width,
            bufs.height == cfg.screen_height,
            bufs.glyphs@ == render_state(
                points@,
                k as int,
                scalars.a as int,
                scalars.b as int,
                scalars.c as int,
                *cfg,
            ).0,
            bufs.depth@ == render_state(
                points@,
                k as int,
                scalars.a as int,
                scalars.b as int,
                scalars.c as int,
                *cfg,
            ).1,
        decreases points@.len() - k,
    {
        let p = points[k];
        calculate_surface(p.x, p.y, p.z, scalars, p.character, &mut bufs, cfg);
        k = k + 1;
    }
    bufs
}

/// The frame text up to cell `i`: each cell's glyph, with a line break
/// inserted at the start of every row.
pub open spec fn frame_text_prefix(glyphs: Seq<char>, w: int, i: int) -> Seq<char>
    decreases i,
{
    if i <= 0 {
        Seq::empty()
    } else {
        frame_text_prefix(glyphs, w, i - 1) + (if (i - 1) % w == 0 {
            seq!['\n']
        } else {
            Seq::empty()
        }) + seq![glyphs[i - 1]]
    }
}

/// The full frame text of a glyph grid.
pub open spec fn frame_text_spec(glyphs: Seq<char>, w: int) -> Seq<char> {
    frame_text_prefix(glyphs, w, glyphs.len() as int)
}

/// Lay the glyph grid out row-major as characters, a line break at the
/// start of every row.
pub fn frame_chars(bufs: &FrameBuffers) -> (out: Vec<char>)
    requires
        bufs.wf(),
    ensures
        out@ == frame_text_spec(bufs.glyphs@, bufs.width as int),
{
    let mut out: Vec<char> = Vec::new();
    let n: usize = bufs.glyphs.len();
    let mut i: usize = 0;
    while i < n
        invariant
            bufs.wf(),
            n == bufs.glyphs@.len(),
            i <= n,
            out@ == frame_text_prefix(bufs.glyphs@, bufs.width as int, i as int),
        decreases n - i,
    {
        let ghost prev = out@;
        if i % bufs.width == 0 {
            out.push('\n');
        }
        out.push(bufs.glyphs[i]);
        proof {
            assert(out@ =~= prev + (if (i as int) % (bufs.width as int) == 0 {
                seq!['\n']
            } else {
                Seq::<char>::empty()
            }) + seq![bufs.glyphs@[i as int]]);
        }
        i = i + 1;
    }
    out
}

/// The full frame a shape yields under given angles and configuration:
/// a pure function of the three, which is the pipeline's determinism.
pub open spec fn frame_spec(shape: Shape, a: int, b: int, c: int, cfg: Config) -> Seq<char> {
    let pts = shape.points_spec(cfg.density as int);
    frame_text_spec(render_state(pts, pts.len() as int, a, b, c, cfg).0, cfg.screen_width as int)
}

/// Drive one frame: generate the active shape's points, run them all
/// through rotation, projection and rasterization, and lay the glyph
/// grid out as text.
pub fn render_frame(shape: &Shape, scalars: &Scalars, cfg: &Config) -> (out: Vec<char>)
    requires
        shape.wf(),
        scalars.wf(),
        cfg.wf(),
    ensures
        out@ == frame_spec(*shape, scalars.a as int, scalars.b as int, scalars.c as int, *cfg),
{
    let points = shape.generate_points(cfg.density);
    let bufs = render_points(&points, scalars, cfg);
    frame_chars(&bufs)
}

} // verus!
