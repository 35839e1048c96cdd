use tucoflyer::fixed::{abs64, clamp64, fixmul, isqrt, UNIT};
use tucoflyer::geometry::{
    rect_area, rect_center, rect_centered_on_origin, rect_constrain, rect_translate, vec2_add,
    vec2_mul, vec2_scale, Rect, Vec2,
};

#[test]
fn fixmul_exact_values() {
    assert_eq!(UNIT, 1_000);
    assert_eq!(fixmul(2_000, 3_000), 6_000); // 2.0 * 3.0 == 6.0
    assert_eq!(fixmul(1_234, 1_000), 1_234); // identity by 1.0
    assert_eq!(fixmul(500, 500), 250); // 0.5 * 0.5 == 0.25
    assert_eq!(fixmul(-1_500, 1_000), -1_500);
    assert_eq!(fixmul(-1, 1), 0); // truncation toward zero
    assert_eq!(fixmul(-1_001, 500), -500); // -0.5005 -> -0.500
    assert_eq!(fixmul(1_001, 500), 500);
}

#[test]
fn isqrt_exact_values() {
    assert_eq!(isqrt(0), 0);
    assert_eq!(isqrt(1), 1);
    assert_eq!(isqrt(3), 1);
    assert_eq!(isqrt(4), 2);
    assert_eq!(isqrt(17), 4);
    assert_eq!(isqrt(16_000_000), 4_000);
    assert_eq!(isqrt(i64::MAX), 3_037_000_499);
}

#[test]
fn abs_and_clamp() {
    assert_eq!(abs64(-7), 7);
    assert_eq!(abs64(7), 7);
    assert_eq!(clamp64(5, -3, 3), 3);
    assert_eq!(clamp64(-5, -3, 3), -3);
    assert_eq!(clamp64(2, -3, 3), 2);
}

#[test]
fn vector_operations() {
    let a = Vec2 { x: 1_000, y: -2_000 };
    let b = Vec2 { x: 500, y: 500 };
    assert_eq!(vec2_add(a, b), Vec2 { x: 1_500, y: -1_500 });
    assert_eq!(vec2_scale(a, 2_000), Vec2 { x: 2_000, y: -4_000 });
    assert_eq!(vec2_mul(a, b), Vec2 { x: 500, y: -1_000 });
}

#[test]
fn rect_operations() {
    let r = Rect { min_x: -2_000, min_y: -1_000, max_x: 2_000, max_y: 3_000 };
    assert_eq!(rect_center(r), Vec2 { x: 0, y: 1_000 });
    assert_eq!(rect_area(r), 16_000_000); // 4.0 * 4.0 units
    assert_eq!(
        rect_centered_on_origin(4_000, 2_000),
        Rect { min_x: -2_000, min_y: -1_000, max_x: 2_000, max_y: 1_000 },
    );
    assert_eq!(
        rect_translate(r, Vec2 { x: 100, y: -100 }),
        Rect { min_x: -1_900, min_y: -1_100, max_x: 2_100, max_y: 2_900 },
    );
}

#[test]
fn rect_constrain_shifts_into_border() {
    let border = Rect { min_x: -10_000, min_y: -10_000, max_x: 10_000, max_y: 10_000 };
    // Already inside: untouched.
    let inside = Rect { min_x: -1_000, min_y: -1_000, max_x: 1_000, max_y: 1_000 };
    assert_eq!(rect_constrain(inside, border), inside);
    // Past the max corner: shifted back, size kept.
    let past = Rect { min_x: 9_000, min_y: 0, max_x: 12_000, max_y: 2_000 };
    assert_eq!(
        rect_constrain(past, border),
        Rect { min_x: 7_000, min_y: 0, max_x: 10_000, max_y: 2_000 },
    );
    // Past the min corner on Y only.
    let below = Rect { min_x: 0, min_y: -13_000, max_x: 2_000, max_y: -11_000 };
    assert_eq!(
        rect_constrain(below, border),
        Rect { min_x: 0, min_y: -10_000, max_x: 2_000, max_y: -8_000 },
    );
}
