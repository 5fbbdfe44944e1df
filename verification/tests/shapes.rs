use physics_debug_overlay::geometry::{transform_point, Transform2, Vec2};
use physics_debug_overlay::shapes::{shape_outline, ColliderShape, Outline, OutlineError, Segment};

fn v(x: i64, y: i64) -> Vec2 {
    Vec2 { x, y }
}

/// A quarter-turn rotation combined with a translation, in fixed-point
/// (the linear part is scaled by 1000).
fn quarter_turn_at(tx: i64, ty: i64) -> Transform2 {
    Transform2 { m00: 0, m01: -1000, m10: 1000, m11: 0, tx, ty }
}

#[test]
fn ball_outline_is_circle_at_translation() {
    let t = Transform2::from_translation(2000, 3000);
    let shape = ColliderShape::Ball { radius: 1000 };
    let outline = shape_outline(&shape, &t).unwrap();
    assert_eq!(outline, Outline::Circle { center: v(2000, 3000), radius: 1000 });
}

#[test]
fn ball_outline_ignores_rotation() {
    let plain = Transform2::from_translation(2000, 3000);
    let rotated = quarter_turn_at(2000, 3000);
    let shape = ColliderShape::Ball { radius: 1000 };
    let a = shape_outline(&shape, &plain).unwrap();
    let b = shape_outline(&shape, &rotated).unwrap();
    assert_eq!(a, b);
    assert_eq!(a, Outline::Circle { center: v(2000, 3000), radius: 1000 });
}

#[test]
fn triangle_outline_under_identity() {
    let t = Transform2::identity();
    let shape = ColliderShape::Triangle { a: v(0, 0), b: v(1000, 0), c: v(0, 1000) };
    let outline = shape_outline(&shape, &t).unwrap();
    let expected = vec![
        Segment { start: v(0, 0), end: v(1000, 0) },
        Segment { start: v(1000, 0), end: v(0, 1000) },
        Segment { start: v(0, 1000), end: v(0, 0) },
    ];
    assert_eq!(outline, Outline::Segments(expected));
}

#[test]
fn square_polygon_starts_with_closing_edge() {
    let t = Transform2::identity();
    let shape = ColliderShape::ConvexPolygon {
        points: vec![v(0, 0), v(1000, 0), v(1000, 1000), v(0, 1000)],
    };
    let outline = shape_outline(&shape, &t).unwrap();
    let expected = vec![
        Segment { start: v(0, 1000), end: v(0, 0) },
        Segment { start: v(0, 0), end: v(1000, 0) },
        Segment { start: v(1000, 0), end: v(1000, 1000) },
        Segment { start: v(1000, 1000), end: v(0, 1000) },
    ];
    assert_eq!(outline, Outline::Segments(expected));
}

#[test]
fn polygon_outline_closes_loop() {
    let t = Transform2::from_translation(500, -500);
    let points = vec![v(0, 0), v(2000, 0), v(3000, 1000), v(1000, 2000), v(-1000, 1000)];
    let n = points.len();
    let shape = ColliderShape::ConvexPolygon { points };
    let outline = shape_outline(&shape, &t).unwrap();
    match outline {
        Outline::Segments(segs) => {
            assert_eq!(segs.len(), n);
            assert_eq!(segs[n - 1].end, segs[0].start);
            for i in 1..n {
                assert_eq!(segs[i].start, segs[i - 1].end);
            }
        }
        other => panic!("expected segments, got {:?}", other),
    }
}

#[test]
fn cuboid_outline_matches_four_point_polygon() {
    let t = quarter_turn_at(100, -200);
    let cuboid = ColliderShape::Cuboid { half_extents: v(500, 300) };
    let polygon = ColliderShape::ConvexPolygon {
        points: vec![v(-500, -300), v(500, -300), v(500, 300), v(-500, 300)],
    };
    assert_eq!(shape_outline(&cuboid, &t).unwrap(), shape_outline(&polygon, &t).unwrap());
}

#[test]
fn unsupported_shape_is_signalled() {
    let t = Transform2::identity();
    let r = shape_outline(&ColliderShape::Unsupported, &t);
    assert_eq!(r, Err(OutlineError::UnsupportedShapeKind));
}

#[test]
fn transform_point_rotates_and_translates() {
    let t = quarter_turn_at(10, 20);
    assert_eq!(transform_point(&t, v(1000, 0)), v(10, 1020));
    assert_eq!(transform_point(&t, v(0, 1000)), v(-990, 20));
}

#[test]
fn transform_point_truncates_toward_zero() {
    // A half-scale linear part: 500 / 1000.
    let t = Transform2 { m00: 500, m01: 0, m10: 0, m11: 500, tx: 0, ty: 0 };
    assert_eq!(transform_point(&t, v(3, 3)), v(1, 1));
    assert_eq!(transform_point(&t, v(-3, -3)), v(-1, -1));
}
