use shipwave::geometry::{dist_sq, isqrt, toward, Vec2, COORD_LIMIT};

fn v(x: i64, y: i64) -> Vec2 {
    Vec2 { x, y }
}

#[test]
fn integer_square_roots() {
    assert_eq!(isqrt(0), 0);
    assert_eq!(isqrt(1), 1);
    assert_eq!(isqrt(15), 3);
    assert_eq!(isqrt(16), 4);
    assert_eq!(isqrt(u128::MAX), u64::MAX);
}

#[test]
fn squared_distance_at_the_world_corners() {
    let a = v(-COORD_LIMIT, -COORD_LIMIT);
    let b = v(COORD_LIMIT, COORD_LIMIT);
    let side = 2 * COORD_LIMIT as u128;
    assert_eq!(dist_sq(a, b), 2 * side * side);
    assert_eq!(dist_sq(v(0, 0), v(3, 4)), 25);
}

#[test]
fn toward_scales_the_direction() {
    assert_eq!(toward(v(0, 0), v(3000, 4000), 500), v(300, 400));
    assert_eq!(toward(v(0, 0), v(-3000, 4000), 500), v(-300, 400));
    assert_eq!(toward(v(1, 1), v(1, 1), 500), v(0, 0));
    assert_eq!(toward(v(0, 0), v(1, 1), 1000), v(1000, 1000));
}
