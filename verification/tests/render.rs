use ascii3d::fixed::SCALE;
use ascii3d::render::{
    frame_chars, new_frame, project_point, render_frame, render_points, Config, FrameBuffers,
};
use ascii3d::rotation::Scalars;
use ascii3d::shapes::{Cube, HexagonalPrism, Shape, Sphere, TwistedTorus};

fn small_config() -> Config {
    Config { screen_width: 4, screen_height: 3, ..Config::default() }
}

#[test]
fn default_config_matches_stock_constants() {
    let cfg = Config::default();
    assert_eq!(cfg.screen_width, 160);
    assert_eq!(cfg.screen_height, 55);
    assert_eq!(cfg.background, ' ');
    assert_eq!(cfg.camera_distance, 70 * SCALE);
    assert_eq!(cfg.k1, 100);
    assert_eq!(cfg.width_offset, 10);
    assert_eq!(cfg.density, SCALE / 2);
    assert_eq!((cfg.delta_a, cfg.delta_b, cfg.delta_c), (-300, 200, -400));
}

#[test]
fn fresh_buffers_are_blank_and_far() {
    let bufs = new_frame(&small_config());
    assert_eq!(bufs.width, 4);
    assert_eq!(bufs.height, 3);
    assert_eq!(bufs.glyphs.len(), 12);
    assert_eq!(bufs.depth.len(), 12);
    assert!(bufs.glyphs.iter().all(|&g| g == ' '));
    assert!(bufs.depth.iter().all(|&z| z == 0));
}

fn snapshot(bufs: &FrameBuffers) -> (Vec<char>, Vec<i64>) {
    (bufs.glyphs.clone(), bufs.depth.clone())
}

#[test]
fn plot_same_sample_twice_is_a_no_op() {
    let mut bufs = new_frame(&small_config());
    bufs.plot(5, '#', 100);
    assert_eq!(bufs.glyphs[5], '#');
    assert_eq!(bufs.depth[5], 100);
    let first = snapshot(&bufs);
    // the identical sample is not strictly nearer, so nothing changes
    bufs.plot(5, '#', 100);
    assert_eq!(snapshot(&bufs), first);
}

#[test]
fn plot_strictly_nearer_sample_overwrites() {
    let mut bufs = new_frame(&small_config());
    bufs.plot(5, '#', 100);
    bufs.plot(5, '@', 200);
    assert_eq!(bufs.glyphs[5], '@');
    assert_eq!(bufs.depth[5], 200);
    // a farther or equally near sample never displaces the occupant
    bufs.plot(5, '!', 200);
    bufs.plot(5, '!', 150);
    assert_eq!(bufs.glyphs[5], '@');
    assert_eq!(bufs.depth[5], 200);
}

#[test]
fn plot_out_of_bounds_never_mutates() {
    let mut bufs = new_frame(&small_config());
    let before = snapshot(&bufs);
    bufs.plot(-1, '#', 100);
    bufs.plot(12, '#', 100); // one past the last cell
    bufs.plot(1_000_000, '#', 100);
    bufs.plot(i128::MIN + 1, '#', 100);
    assert_eq!(snapshot(&bufs), before);
}

#[test]
fn negative_depth_never_displaces_the_background() {
    let mut bufs = new_frame(&small_config());
    let before = snapshot(&bufs);
    // a point behind the camera has a negative inverse depth
    bufs.plot(5, '#', -100);
    assert_eq!(snapshot(&bufs), before);
}

#[test]
fn projector_places_front_face_centre() {
    let cfg = Config::default();
    // the cube's front-face centre, already rotated by zero angles
    let r = project_point(0, 0, -100_000, &cfg);
    // depth 60, inverse depth 1/60 at the cubed scale, dead centre
    // horizontally after the width offset
    assert_eq!(r, Some((60, 27, 1_666_666)));
    let (xp, yp, _) = r.unwrap();
    let idx = xp + yp * 160;
    assert_eq!(idx, 4_380);
}

#[test]
fn projector_skips_zero_depth() {
    let cfg = Config::default();
    assert_eq!(project_point(123, 456, -70 * SCALE, &cfg), None);
}

#[test]
fn frame_text_breaks_lines_at_row_starts() {
    let bufs = new_frame(&small_config());
    let text = frame_chars(&bufs);
    // three rows of four glyphs, one line break before each row
    assert_eq!(text.len(), 15);
    let s: String = text.into_iter().collect();
    assert_eq!(s, "\n    \n    \n    ");
}

#[test]
fn cube_frame_is_deterministic() {
    let cfg = Config::default();
    let scalars = Scalars::new();
    let shape = Shape::Cube(Cube::new(100_000));
    let first = render_frame(&shape, &scalars, &cfg);
    let second = render_frame(&shape, &scalars, &cfg);
    assert_eq!(first, second);
    // the front face's centre glyph lands at cell (60, 27); in the
    // text that cell sits after 28 inserted line breaks
    assert_eq!(first[4_380 + 28], '.');
}

#[test]
fn every_shape_renders_a_full_grid() {
    let cfg = Config::default();
    let scalars = Scalars::new();
    let shapes = vec![
        Shape::TwistedTorus(TwistedTorus::new(150_000, 50_000)),
        Shape::Cube(Cube::new(100_000)),
        Shape::Sphere(Sphere::new(100_000)),
        Shape::HexagonalPrism(HexagonalPrism::new(100_000, 200_000)),
    ];
    for shape in &shapes {
        let frame = render_frame(shape, &scalars, &cfg);
        // 55 rows of 160 glyphs, one line break before each row
        assert_eq!(frame.len(), 160 * 55 + 55);
        // every frame is reproducible
        assert_eq!(render_frame(shape, &scalars, &cfg), frame);
    }
}

#[test]
fn render_points_fills_only_projected_cells() {
    let cfg = Config::default();
    let scalars = Scalars::new();
    let shape = Shape::Cube(Cube::new(100_000));
    let points = shape.generate_points(cfg.density);
    let bufs = render_points(&points, &scalars, &cfg);
    assert_eq!(bufs.glyphs.len(), 160 * 55);
    // the centre cell holds the nearest face's glyph with its depth
    assert_eq!(bufs.glyphs[4_380], '.');
    assert_eq!(bufs.depth[4_380], 1_666_666);
    // a corner cell stays background and infinitely far
    assert_eq!(bufs.glyphs[0], ' ');
    assert_eq!(bufs.depth[0], 0);
}
