use ascii3d::fixed::{div_trunc, mul_fp, SCALE};
use ascii3d::rotation::{calculate_x, calculate_y, calculate_z, Scalars};
use ascii3d::shapes::{
    is_point_in_hexagon, Cube, HexagonalPrism, Shape, Sphere, TwistedTorus,
};
use ascii3d::trig::{cos_fp, reduce_angle, sin_fp, HALF_PI_FP, PI_FP, TWO_PI_FP};

#[test]
fn fixed_point_multiply_and_divide() {
    // 2.5 * 0.5 == 1.25
    assert_eq!(mul_fp(25_000, 5_000), 12_500);
    // multiplying by one and by zero
    assert_eq!(mul_fp(-123_456, SCALE), -123_456);
    assert_eq!(mul_fp(987_654, 0), 0);
    // division truncates toward zero on both signs
    assert_eq!(div_trunc(7, 2), 3);
    assert_eq!(div_trunc(-7, 2), -3);
}

#[test]
fn sine_and_cosine_exact_values() {
    assert_eq!(sin_fp(0), 0);
    assert_eq!(sin_fp(HALF_PI_FP), SCALE);
    assert_eq!(sin_fp(PI_FP), 0);
    assert_eq!(sin_fp(PI_FP + HALF_PI_FP), -SCALE);
    assert_eq!(cos_fp(0), SCALE);
    assert_eq!(cos_fp(HALF_PI_FP), 0);
    assert_eq!(cos_fp(PI_FP), -SCALE);
}

#[test]
fn angle_reduction() {
    assert_eq!(reduce_angle(0), 0);
    assert_eq!(reduce_angle(TWO_PI_FP), 0);
    assert_eq!(reduce_angle(TWO_PI_FP + 5), 5);
    assert_eq!(reduce_angle(-300), TWO_PI_FP - 300);
    assert_eq!(reduce_angle(-TWO_PI_FP), 0);
}

#[test]
fn rotation_zero_angles_is_identity() {
    let scalars = Scalars::new();
    let (i, j, k) = (123_456, -654_321, 42);
    assert_eq!(calculate_x(i, j, k, &scalars), i);
    assert_eq!(calculate_y(i, j, k, &scalars), j);
    assert_eq!(calculate_z(i, j, k, &scalars), k);
}

#[test]
fn scalars_advance_reduces_to_one_turn() {
    let mut scalars = Scalars::new();
    scalars.advance(-300, 200, -400);
    assert_eq!(scalars.a, TWO_PI_FP - 300);
    assert_eq!(scalars.b, 200);
    assert_eq!(scalars.c, TWO_PI_FP - 400);
}

#[test]
fn cube_points_lie_on_the_shell() {
    let w = 100_000; // half-width 10
    let cube = Cube::new(w);
    let points = cube.generate_points(5_000); // density one half
    assert_eq!(points.len(), 40 * 40 * 6);
    for p in &points {
        assert!(-w <= p.x && p.x <= w);
        assert!(-w <= p.y && p.y <= w);
        assert!(-w <= p.z && p.z <= w);
        assert!(
            p.x == w || p.x == -w || p.y == w || p.y == -w || p.z == w || p.z == -w,
            "interior point generated"
        );
    }
}

#[test]
fn cube_single_cell_grid() {
    // density larger than the sweep: exactly one grid cell, six points
    let cube = Cube::new(5_000);
    let points = cube.generate_points(20_000);
    assert_eq!(points.len(), 6);
    assert_eq!(points[0].x, -5_000);
    assert_eq!(points[0].y, -5_000);
    assert_eq!(points[0].z, -5_000);
    assert_eq!(points[0].character, '.');
    assert_eq!(points[1].x, 5_000);
    assert_eq!(points[1].character, '$');
    assert_eq!(points[5].y, 5_000);
    assert_eq!(points[5].character, '-');
}

#[test]
fn sphere_points_stay_in_the_ball() {
    let r = 100_000;
    let sphere = Sphere::new(r);
    let points = sphere.generate_points(5_000);
    assert!(points.len() > 0);
    for p in &points {
        assert!(-r <= p.x && p.x <= r);
        assert!(-r <= p.y && p.y <= r);
        assert!(-r <= p.z && p.z <= r);
        assert_eq!(p.character, 'o');
    }
}

#[test]
fn hexagon_containment_centre_vertex_outside() {
    let r = 100_000;
    // the centre is always inside
    assert!(is_point_in_hexagon(0, 0, r));
    // just past the circumradius on the x axis is outside
    assert!(!is_point_in_hexagon(r + 1, 0, r));
    // the x-axis vertices are boundary cases, inclusive
    assert!(is_point_in_hexagon(r, 0, r));
    assert!(is_point_in_hexagon(-r, 0, r));
    // clearly outside vertically
    assert!(!is_point_in_hexagon(0, r, r));
}

#[test]
fn hexagonal_prism_points_stay_in_the_slab() {
    let prism = HexagonalPrism::new(100_000, 200_000);
    let points = prism.generate_points(5_000);
    assert!(points.len() > 0);
    let hh = 100_000;
    for p in &points {
        assert!(-hh <= p.z && p.z <= hh);
        assert!(
            p.character == '|' || p.character == '-' || p.character == '.'
                || p.character == '#'
        );
    }
}

#[test]
fn twisted_torus_twist_factor_tracks_time() {
    let mut torus = TwistedTorus::new(150_000, 50_000);
    // at time zero the twist factor is exactly two units
    assert_eq!(torus.time, 0);
    assert_eq!(torus.twist_factor, 2 * SCALE);
    // after accumulating steps it is two units plus the sine of half
    // the accumulated time, recomputed here independently
    let mut accumulated = 0i64;
    for _ in 0..100 {
        torus.update(110);
        accumulated += 110;
        assert_eq!(torus.time, accumulated);
        let expected = 2 * SCALE + sin_fp(reduce_angle(accumulated / 2));
        assert_eq!(torus.twist_factor, expected);
    }
}

#[test]
fn twisted_torus_generates_grid_sized_cloud() {
    let torus = TwistedTorus::new(150_000, 50_000);
    let points = torus.generate_points();
    // fifteen steps per unit of each radius: 225 * 75 grid points
    assert_eq!(points.len(), 225 * 75);
    let bound = 4 * 200_000;
    for p in &points {
        assert!(-bound <= p.x && p.x <= bound);
        assert!(-bound <= p.y && p.y <= bound);
        assert!(-50_000 <= p.z && p.z <= 50_000);
    }
}

#[test]
fn twisted_torus_tiny_radius_yields_nothing() {
    // radii below one fifteenth of a unit give zero grid steps
    let torus = TwistedTorus::new(600, 600);
    let points = torus.generate_points();
    assert_eq!(points.len(), 0);
}

#[test]
fn shape_interface_dispatches_and_updates() {
    let cube = Cube::new(100_000);
    let direct = cube.generate_points(5_000);
    let mut shape = Shape::Cube(Cube::new(100_000));
    let via_shape = shape.generate_points(5_000);
    assert_eq!(direct, via_shape);
    // updating a static shape changes nothing
    shape.update(110);
    assert_eq!(shape.generate_points(5_000), direct);
    // updating an animated shape advances its time
    let mut animated = Shape::TwistedTorus(TwistedTorus::new(150_000, 50_000));
    animated.update(110);
    match animated {
        Shape::TwistedTorus(t) => assert_eq!(t.time, 110),
        _ => panic!("variant changed by update"),
    }
}
