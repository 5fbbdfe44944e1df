use physics_debug_overlay::geometry::{Transform2, Vec2};
use physics_debug_overlay::render::{center_marker, debug_render_aabbs, debug_render_colliders,
    debug_render_contacts, ColliderAabb, ContactPair, DrawCall, DrawColor, PhysicsDebugConfig};
use physics_debug_overlay::shapes::ColliderShape;

fn v(x: i64, y: i64) -> Vec2 {
    Vec2 { x, y }
}

fn all_enabled() -> PhysicsDebugConfig {
    PhysicsDebugConfig { render_aabbs: true, render_contacts: true, render_colliders: true }
}

#[test]
fn default_config_enables_every_pass() {
    let config = PhysicsDebugConfig::default();
    assert!(config.render_aabbs);
    assert!(config.render_contacts);
    assert!(config.render_colliders);
}

#[test]
fn aabb_pass_draws_center_and_full_extents() {
    let aabbs = vec![ColliderAabb { center: v(1000, 2000), half_extents: v(500, 250) }];
    let draws = debug_render_aabbs(&all_enabled(), &aabbs);
    assert_eq!(
        draws,
        vec![DrawCall::Rect {
            center: v(1000, 2000),
            extents: v(1000, 500),
            color: DrawColor::Gray,
        }]
    );
}

#[test]
fn aabb_pass_disabled_draws_nothing() {
    let config = PhysicsDebugConfig { render_aabbs: false, ..all_enabled() };
    let aabbs = vec![
        ColliderAabb { center: v(0, 0), half_extents: v(100, 100) },
        ColliderAabb { center: v(5000, 0), half_extents: v(200, 300) },
        ColliderAabb { center: v(0, -5000), half_extents: v(1, 2) },
    ];
    assert_eq!(debug_render_aabbs(&config, &aabbs), vec![]);
}

#[test]
fn contact_pass_with_no_events_draws_nothing() {
    let draws = debug_render_contacts(&all_enabled(), &vec![]);
    assert_eq!(draws, vec![]);
}

#[test]
fn contact_pass_draws_two_crosses_per_event() {
    let events = vec![ContactPair { point1: v(0, 0), point2: v(1000, 1000) }];
    let draws = debug_render_contacts(&all_enabled(), &events);
    let expected = vec![
        DrawCall::Line { start: v(-300, 0), end: v(300, 0), color: DrawColor::Cyan },
        DrawCall::Line { start: v(0, -300), end: v(0, 300), color: DrawColor::Cyan },
        DrawCall::Line { start: v(700, 1000), end: v(1300, 1000), color: DrawColor::Cyan },
        DrawCall::Line { start: v(1000, 700), end: v(1000, 1300), color: DrawColor::Cyan },
    ];
    assert_eq!(draws, expected);
}

#[test]
fn contact_pass_keeps_event_order() {
    let events = vec![
        ContactPair { point1: v(0, 0), point2: v(0, 0) },
        ContactPair { point1: v(10000, 0), point2: v(10000, 0) },
    ];
    let draws = debug_render_contacts(&all_enabled(), &events);
    assert_eq!(draws.len(), 8);
    assert_eq!(
        draws[4],
        DrawCall::Line { start: v(9700, 0), end: v(10300, 0), color: DrawColor::Cyan }
    );
}

#[test]
fn contact_pass_disabled_draws_nothing() {
    let config = PhysicsDebugConfig { render_contacts: false, ..all_enabled() };
    let events = vec![ContactPair { point1: v(0, 0), point2: v(1000, 0) }];
    assert_eq!(debug_render_contacts(&config, &events), vec![]);
}

#[test]
fn center_marker_is_two_gray_arms() {
    let t = Transform2::from_translation(2000, 3000);
    let draws = center_marker(&t);
    let expected = vec![
        DrawCall::Line { start: v(2000, 6000), end: v(2000, 0), color: DrawColor::Gray },
        DrawCall::Line { start: v(5000, 3000), end: v(-1000, 3000), color: DrawColor::Gray },
    ];
    assert_eq!(draws, expected);
}

#[test]
fn collider_pass_draws_cross_then_outline() {
    let colliders = vec![
        (ColliderShape::Ball { radius: 1000 }, Transform2::from_translation(2000, 3000)),
    ];
    let (draws, warnings) = debug_render_colliders(&all_enabled(), &colliders);
    let expected = vec![
        DrawCall::Line { start: v(2000, 6000), end: v(2000, 0), color: DrawColor::Gray },
        DrawCall::Line { start: v(5000, 3000), end: v(-1000, 3000), color: DrawColor::Gray },
        DrawCall::Circle { center: v(2000, 3000), radius: 1000, color: DrawColor::White },
    ];
    assert_eq!(draws, expected);
    assert_eq!(warnings, vec![]);
}

#[test]
fn collider_pass_skips_unsupported_and_continues() {
    let colliders = vec![
        (ColliderShape::Ball { radius: 500 }, Transform2::identity()),
        (ColliderShape::Unsupported, Transform2::identity()),
        (ColliderShape::Ball { radius: 700 }, Transform2::identity()),
    ];
    let (draws, warnings) = debug_render_colliders(&all_enabled(), &colliders);
    // Two cross lines per collider; a circle for each ball; nothing for the
    // unsupported shape.
    assert_eq!(draws.len(), 8);
    assert_eq!(warnings, vec![1]);
    assert_eq!(
        draws[2],
        DrawCall::Circle { center: v(0, 0), radius: 500, color: DrawColor::White }
    );
    assert_eq!(draws[3], DrawCall::Line { start: v(0, 3000), end: v(0, -3000), color: DrawColor::Gray });
    assert_eq!(
        draws[7],
        DrawCall::Circle { center: v(0, 0), radius: 700, color: DrawColor::White }
    );
}

#[test]
fn collider_pass_disabled_draws_nothing() {
    let config = PhysicsDebugConfig { render_colliders: false, ..all_enabled() };
    let colliders = vec![
        (ColliderShape::Ball { radius: 500 }, Transform2::identity()),
        (ColliderShape::Unsupported, Transform2::identity()),
    ];
    let (draws, warnings) = debug_render_colliders(&config, &colliders);
    assert_eq!(draws, vec![]);
    assert_eq!(warnings, vec![]);
}

#[test]
fn collider_pass_outlines_triangle_after_cross() {
    let colliders = vec![
        (
            ColliderShape::Triangle { a: v(0, 0), b: v(1000, 0), c: v(0, 1000) },
            Transform2::identity(),
        ),
    ];
    let (draws, warnings) = debug_render_colliders(&all_enabled(), &colliders);
    let expected = vec![
        DrawCall::Line { start: v(0, 3000), end: v(0, -3000), color: DrawColor::Gray },
        DrawCall::Line { start: v(3000, 0), end: v(-3000, 0), color: DrawColor::Gray },
        DrawCall::Line { start: v(0, 0), end: v(1000, 0), color: DrawColor::White },
        DrawCall::Line { start: v(1000, 0), end: v(0, 1000), color: DrawColor::White },
        DrawCall::Line { start: v(0, 1000), end: v(0, 0), color: DrawColor::White },
    ];
    assert_eq!(draws, expected);
    assert_eq!(warnings, vec![]);
}

#[test]
fn passes_with_no_entities_draw_nothing() {
    let config = all_enabled();
    assert_eq!(debug_render_aabbs(&config, &vec![]), vec![]);
    assert_eq!(debug_render_contacts(&config, &vec![]), vec![]);
    let (draws, warnings) = debug_render_colliders(&config, &vec![]);
    assert_eq!(draws, vec![]);
    assert_eq!(warnings, vec![]);
}
