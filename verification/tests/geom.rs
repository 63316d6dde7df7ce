use depths::geom::{isqrt_u64, normalize_or_zero, rotation_target_degrees, Vec2I, UNIT};

fn v(x: i64, y: i64) -> Vec2I {
    Vec2I { x, y }
}

#[test]
fn isqrt_small_values() {
    assert_eq!(isqrt_u64(0), 0);
    assert_eq!(isqrt_u64(1), 1);
    assert_eq!(isqrt_u64(3), 1);
    assert_eq!(isqrt_u64(4), 2);
    assert_eq!(isqrt_u64(8), 2);
    assert_eq!(isqrt_u64(9), 3);
    assert_eq!(isqrt_u64(99), 9);
    assert_eq!(isqrt_u64(100), 10);
}

#[test]
fn isqrt_large_values() {
    assert_eq!(isqrt_u64(10_000_000_000), 100_000);
    assert_eq!(isqrt_u64(u64::MAX), 4_294_967_295);
    let near = 4_294_967_295u64;
    assert_eq!(isqrt_u64(near * near), near);
    assert_eq!(isqrt_u64(near * near - 1), near - 1);
}

#[test]
fn normalize_axis_and_zero() {
    assert_eq!(normalize_or_zero(v(0, 0)), v(0, 0));
    assert_eq!(normalize_or_zero(v(100_000, 0)), v(UNIT, 0));
    assert_eq!(normalize_or_zero(v(0, -7_000)), v(0, -UNIT));
}

#[test]
fn normalize_pythagorean() {
    assert_eq!(normalize_or_zero(v(3_000, 4_000)), v(600, 800));
    assert_eq!(normalize_or_zero(v(-3_000, 4_000)), v(-600, 800));
    assert_eq!(normalize_or_zero(v(3_000, -4_000)), v(600, -800));
}

#[test]
fn normalize_rounds_toward_zero() {
    // |(1, 1)| is sqrt(2): each component becomes floor(1000 / 1.414...).
    let d = normalize_or_zero(v(1, 1));
    assert_eq!(d, v(1000, 1000));
    let e = normalize_or_zero(v(2, 1));
    // length floor of sqrt(5) is 2: x: 2000/2, y: 1000/2
    assert_eq!(e, v(1000, 500));
}

#[test]
fn normalize_never_exceeds_unit() {
    let samples = [
        v(123_456, -654_321),
        v(-1, 999_999_999),
        v(2_000_000_000, 2_000_000_000),
        v(17, 19),
    ];
    for s in samples {
        let d = normalize_or_zero(s);
        assert!(d.x.abs() <= UNIT && d.y.abs() <= UNIT);
        assert!(d != v(0, 0));
    }
}

#[test]
fn rotation_targets_on_rays() {
    assert_eq!(rotation_target_degrees(v(5, 0)), Some(-90));
    assert_eq!(rotation_target_degrees(v(5, 5)), Some(45 - 90));
    assert_eq!(rotation_target_degrees(v(0, 5)), Some(0));
    assert_eq!(rotation_target_degrees(v(-5, 5)), Some(135 - 90));
    assert_eq!(rotation_target_degrees(v(-5, 0)), Some(90));
    assert_eq!(rotation_target_degrees(v(-5, -5)), Some(-135 - 90));
    assert_eq!(rotation_target_degrees(v(0, -5)), Some(-180));
    assert_eq!(rotation_target_degrees(v(5, -5)), Some(-45 - 90));
    // the zero vector keeps the convention of heading zero
    assert_eq!(rotation_target_degrees(v(0, 0)), Some(-90));
}

#[test]
fn rotation_target_off_ray_is_none() {
    assert_eq!(rotation_target_degrees(v(600, 800)), None);
    assert_eq!(rotation_target_degrees(v(2, 1)), None);
}
