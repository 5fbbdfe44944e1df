//! The three per-frame overlay passes.
//!
//! Each pass is a pure function from simulation data and the overlay
//! configuration to an ordered sequence of draw calls for the host's
//! drawing surface: bounding volumes first, then collider shapes (cross
//! marker and outline per entity), then contact markers. A pass whose
//! toggle is disabled contributes nothing.

use vstd::prelude::*;

use crate::geometry::{fits_i64, maps_in_range, transform_point, world_point, Transform2, Vec2,
    UNITS_PER_WORLD};
use crate::shapes::{outline_in_range, shape_outline, spec_outline, ColliderShape, Outline,
    OutlineError, OutlineModel, Segment};

verus! {

/// Arm length of the gray cross drawn at each collider's origin: three
/// world units, in local space.
pub const CROSS_ARM: i64 = 3 * UNITS_PER_WORLD;

/// Half-length of a contact marker's arms: three tenths of a world unit
/// (`UNITS_PER_WORLD` is 1000), in world space.
pub const CONTACT_ARM: i64 = 300;

/// Which overlay passes run. Three independent toggles, read once at the
/// start of the pass they control.
#[derive(Clone, Copy, PartialEq, Eq, Structural, Debug)]
pub struct PhysicsDebugConfig {
    /// Renders the axis-aligned bounding boxes of colliders.
    pub render_aabbs: bool,
    /// Renders contact points.
    pub render_contacts: bool,
    /// Renders collider shapes.
    pub render_colliders: bool,
}

impl Default for PhysicsDebugConfig {
    /// Every pass starts enabled.
    fn default() -> (r: Self)
        ensures
            r.render_aabbs,
            r.render_contacts,
            r.render_colliders,
    {
        PhysicsDebugConfig { render_aabbs: true, render_contacts: true, render_colliders: true }
    }
}

/// The color of one debug primitive.
#[derive(Clone, Copy, PartialEq, Eq, Structural, Debug)]
pub enum DrawColor {
    Gray,
    White,
    Cyan,
}

/// One immediate-mode primitive for the host's drawing surface.
#[derive(Clone, Copy, PartialEq, Eq, Structural, Debug)]
pub enum DrawCall {
    /// A line segment between two world-space points.
    Line { start: Vec2, end: Vec2, color: DrawColor },
    /// A circle with a world-space center and a fixed-point radius.
    Circle { center: Vec2, radius: i64, color: DrawColor },
    /// An axis-aligned box with a world-space center and full extents.
    Rect { center: Vec2, extents: Vec2, color: DrawColor },
}

/// A collider's cached axis-aligned bounding box, already in world space.
#[derive(Clone, Copy, PartialEq, Eq, Structural, Debug)]
pub struct ColliderAabb {
    pub center: Vec2,
    pub half_extents: Vec2,
}

/// The two world-space surface points of one collision contact event.
#[derive(Clone, Copy, PartialEq, Eq, Structural, Debug)]
pub struct ContactPair {
    pub point1: Vec2,
    pub point2: Vec2,
}

// --- Bounding-volume pass -------------------------------------------------

/// The gray box for one bounding volume: its own center, with full extents
/// twice the half-extents.
pub open spec fn aabb_rect(a: ColliderAabb) -> DrawCall {
    DrawCall::Rect {
        center: a.center,
        extents: Vec2 { x: (2 * a.half_extents.x) as i64, y: (2 * a.half_extents.y) as i64 },
        color: DrawColor::Gray,
    }
}

/// Doubling the half-extents stays inside the coordinate range.
pub open spec fn aabb_in_range(a: ColliderAabb) -> bool {
    fits_i64(2 * a.half_extents.x) && fits_i64(2 * a.half_extents.y)
}

/// The bounding-volume pass: disabled, it draws nothing; enabled, it draws
/// one gray box per bounding volume, in entity order.
pub open spec fn spec_render_aabbs(config: PhysicsDebugConfig, aabbs: Seq<ColliderAabb>) -> Seq<
    DrawCall,
> {
    if config.render_aabbs {
        aabbs.map_values(|a: ColliderAabb| aabb_rect(a))
    } else {
        Seq::empty()
    }
}

/// Renders the bounding-volume pass for one frame.
pub fn debug_render_aabbs(config: &PhysicsDebugConfig, aabbs: &Vec<ColliderAabb>) -> (r: Vec<
    DrawCall,
>)
    requires
        forall|i: int| 0 <= i < aabbs@.len() ==> aabb_in_range(#[trigger] aabbs@[i]),
    ensures
        r@ == spec_render_aabbs(*config, aabbs@),
{
    let mut draws: Vec<DrawCall> = Vec::new();
    if !config.render_aabbs {
        return draws;
    }
    let n = aabbs.len();
    let mut i: usize = 0;
    while i < n
        invariant
            n == aabbs@.len(),
            i <= n,
            forall|k: int| 0 <= k < aabbs@.len() ==> aabb_in_range(#[trigger] aabbs@[k]),
            draws@ =~= aabbs@.subrange(0, i as int).map_values(|a: ColliderAabb| aabb_rect(a)),
        decreases n - i,
    {
        let a = &aabbs[i];
        let ex: i64 = 2 * a.half_extents.x;
        let ey: i64 = 2 * a.half_extents.y;
        draws.push(DrawCall::Rect {
            center: a.center,
            extents: Vec2 { x: ex, y: ey },
            color: DrawColor::Gray,
        });
        i = i + 1;
    }
    proof {
        assert(aabbs@.subrange(0, n as int) =~= aabbs@);
    }
    draws
}

/// With the bounding-volume toggle disabled the pass emits zero draw
/// calls, however many bounding volumes the frame carries.
pub proof fn lemma_aabbs_disabled_no_draws(config: PhysicsDebugConfig, aabbs: Seq<ColliderAabb>)
    requires
        !config.render_aabbs,
    ensures
        spec_render_aabbs(config, aabbs).len() == 0,
{
}

// --- Contact-marker pass --------------------------------------------------

/// The point `p` shifted along x by `d`.
pub open spec fn shift_x(p: Vec2, d: int) -> Vec2 {
    Vec2 { x: (p.x + d) as i64, y: p.y }
}

/// The point `p` shifted along y by `d`.
pub open spec fn shift_y(p: Vec2, d: int) -> Vec2 {
    Vec2 { x: p.x, y: (p.y + d) as i64 }
}

/// The cyan cross at one contact point: its horizontal arm, then its
/// vertical arm.
pub open spec fn spec_point_marker(p: Vec2) -> Seq<DrawCall> {
    seq![
        DrawCall::Line {
            start: shift_x(p, -CONTACT_ARM as int),
            end: shift_x(p, CONTACT_ARM as int),
            color: DrawColor::Cyan,
        },
        DrawCall::Line {
            start: shift_y(p, -CONTACT_ARM as int),
            end: shift_y(p, CONTACT_ARM as int),
            color: DrawColor::Cyan,
        },
    ]
}

/// Both markers of one contact pair: the cross at `point1`, then the cross
/// at `point2`.
pub open spec fn spec_contact_draws(c: ContactPair) -> Seq<DrawCall> {
    spec_point_marker(c.point1) + spec_point_marker(c.point2)
}

/// Shifting either contact point by the marker arm stays in range.
pub open spec fn contact_in_range(c: ContactPair) -> bool {
    &&& fits_i64(c.point1.x - CONTACT_ARM)
    &&& fits_i64(c.point1.x + CONTACT_ARM)
    &&& fits_i64(c.point1.y - CONTACT_ARM)
    &&& fits_i64(c.point1.y + CONTACT_ARM)
    &&& fits_i64(c.point2.x - CONTACT_ARM)
    &&& fits_i64(c.point2.x + CONTACT_ARM)
    &&& fits_i64(c.point2.y - CONTACT_ARM)
    &&& fits_i64(c.point2.y + CONTACT_ARM)
}

/// Markers of a prefix of this frame's contact events, in event order.
pub open spec fn spec_contacts_draws(events: Seq<ContactPair>) -> Seq<DrawCall>
    decreases events.len(),
{
    if events.len() == 0 {
        Seq::empty()
    } else {
        spec_contacts_draws(events.drop_last()) + spec_contact_draws(events.last())
    }
}

/// The contact-marker pass: disabled, it draws nothing; enabled, each
/// event independently contributes two cyan crosses, in event order.
pub open spec fn spec_render_contacts(config: PhysicsDebugConfig, events: Seq<ContactPair>) -> Seq<
    DrawCall,
> {
    if config.render_contacts {
        spec_contacts_draws(events)
    } else {
        Seq::empty()
    }
}

/// Renders the contact-marker pass for one frame's events.
pub fn debug_render_contacts(config: &PhysicsDebugConfig, events: &Vec<ContactPair>) -> (r: Vec<
    DrawCall,
>)
    requires
        forall|i: int| 0 <= i < events@.len() ==> contact_in_range(#[trigger] events@[i]),
    ensures
        r@ == spec_render_contacts(*config, events@),
{
    let mut draws: Vec<DrawCall> = Vec::new();
    if !config.render_contacts {
        return draws;
    }
    let n = events.len();
    let mut i: usize = 0;
    while i < n
        invariant
            n == events@.len(),
            i <= n,
            forall|k: int| 0 <= k < events@.len() ==> contact_in_range(#[trigger] events@[k]),
            draws@ == spec_contacts_draws(events@.subrange(0, i as int)),
        decreases n - i,
    {
        let c = &events[i];
        push_point_marker(&mut draws, c.point1);
        push_point_marker(&mut draws, c.point2);
        proof {
            let pre = events@.subrange(0, i as int);
            let post = events@.subrange(0, i + 1 as int);
            assert(post.drop_last() =~= pre);
            assert(post.last() == events@[i as int]);
        }
        i = i + 1;
    }
    proof {
        assert(events@.subrange(0, n as int) =~= events@);
    }
    draws
}

/// Pushes the cyan cross for one contact point.
fn push_point_marker(draws: &mut Vec<DrawCall>, p: Vec2)
    requires
        fits_i64(p.x - CONTACT_ARM),
        fits_i64(p.x + CONTACT_ARM),
        fits_i64(p.y - CONTACT_ARM),
        fits_i64(p.y + CONTACT_ARM),
    ensures
        final(draws)@ == old(draws)@ + spec_point_marker(p),
{
    let left = Vec2 { x: p.x - CONTACT_ARM, y: p.y };
    let right = Vec2 { x: p.x + CONTACT_ARM, y: p.y };
    let down = Vec2 { x: p.x, y: p.y - CONTACT_ARM };
    let up = Vec2 { x: p.x, y: p.y + CONTACT_ARM };
    draws.push(DrawCall::Line { start: left, end: right, color: DrawColor::Cyan });
    draws.push(DrawCall::Line { start: down, end: up, color: DrawColor::Cyan });
    proof {
        assert(draws@ =~= old(draws)@ + spec_point_marker(p));
    }
}

/// A frame with zero contact events draws zero contact markers, whatever
/// the configuration says.
pub proof fn lemma_no_contact_events_no_draws(config: PhysicsDebugConfig, events: Seq<ContactPair>)
    requires
        events.len() == 0,
    ensures
        spec_render_contacts(config, events).len() == 0,
{
}

// --- Collider-shape pass --------------------------------------------------

/// The two gray cross-marker lines at a collider's origin: the vertical
/// arm first, then the horizontal arm.
pub open spec fn spec_center_marker(t: Transform2) -> Seq<DrawCall> {
    seq![
        DrawCall::Line {
            start: world_point(t, Vec2 { x: 0, y: CROSS_ARM }),
            end: world_point(t, Vec2 { x: 0, y: (-CROSS_ARM) as i64 }),
            color: DrawColor::Gray,
        },
        DrawCall::Line {
            start: world_point(t, Vec2 { x: CROSS_ARM, y: 0 }),
            end: world_point(t, Vec2 { x: (-CROSS_ARM) as i64, y: 0 }),
            color: DrawColor::Gray,
        },
    ]
}

/// All four cross-arm tips stay in coordinate range under `t`.
pub open spec fn marker_in_range(t: Transform2) -> bool {
    &&& maps_in_range(t, Vec2 { x: 0, y: CROSS_ARM })
    &&& maps_in_range(t, Vec2 { x: 0, y: (-CROSS_ARM) as i64 })
    &&& maps_in_range(t, Vec2 { x: CROSS_ARM, y: 0 })
    &&& maps_in_range(t, Vec2 { x: (-CROSS_ARM) as i64, y: 0 })
}

/// Emits the origin cross marker for one collider.
pub fn center_marker(t: &Transform2) -> (r: Vec<DrawCall>)
    requires
        marker_in_range(*t),
    ensures
        r@ == spec_center_marker(*t),
{
    let top = transform_point(t, Vec2 { x: 0, y: CROSS_ARM });
    let bottom = transform_point(t, Vec2 { x: 0, y: (-CROSS_ARM) as i64 });
    let right = transform_point(t, Vec2 { x: CROSS_ARM, y: 0 });
    let left = transform_point(t, Vec2 { x: (-CROSS_ARM) as i64, y: 0 });
    let mut draws: Vec<DrawCall> = Vec::new();
    draws.push(DrawCall::Line { start: top, end: bottom, color: DrawColor::Gray });
    draws.push(DrawCall::Line { start: right, end: left, color: DrawColor::Gray });
    proof {
        assert(draws@ =~= spec_center_marker(*t));
    }
    draws
}

/// The white line for one outline segment.
pub open spec fn segment_line(sg: Segment) -> DrawCall {
    DrawCall::Line { start: sg.start, end: sg.end, color: DrawColor::White }
}

/// The white draw calls of one shape's outline; an unsupported shape
/// contributes none.
pub open spec fn spec_outline_draws(s: ColliderShape, t: Transform2) -> Seq<DrawCall> {
    match spec_outline(s, t) {
        None => Seq::empty(),
        Some(OutlineModel::Circle { center, radius }) => seq![
            DrawCall::Circle { center, radius, color: DrawColor::White },
        ],
        Some(OutlineModel::Segments(segs)) => segs.map_values(|sg: Segment| segment_line(sg)),
    }
}

/// Everything one collider contributes to the pass: its cross marker,
/// then its outline.
pub open spec fn spec_collider_draws(s: ColliderShape, t: Transform2) -> Seq<DrawCall> {
    spec_center_marker(t) + spec_outline_draws(s, t)
}

/// Draws of a prefix of the collider list, in entity order.
pub open spec fn spec_colliders_draws(colliders: Seq<(ColliderShape, Transform2)>) -> Seq<DrawCall>
    decreases colliders.len(),
{
    if colliders.len() == 0 {
        Seq::empty()
    } else {
        spec_colliders_draws(colliders.drop_last()) + spec_collider_draws(
            colliders.last().0,
            colliders.last().1,
        )
    }
}

/// Indices of the colliders whose shape kind the dispatcher rejects.
pub open spec fn spec_unsupported_indices(colliders: Seq<(ColliderShape, Transform2)>) -> Seq<usize>
    decreases colliders.len(),
{
    if colliders.len() == 0 {
        Seq::empty()
    } else {
        spec_unsupported_indices(colliders.drop_last()) + (if colliders.last().0 is Unsupported {
            seq![(colliders.len() - 1) as usize]
        } else {
            Seq::empty()
        })
    }
}

/// The collider-shape pass: disabled, it draws nothing; enabled, each
/// collider contributes its cross marker and its outline, in entity order.
pub open spec fn spec_render_colliders(
    config: PhysicsDebugConfig,
    colliders: Seq<(ColliderShape, Transform2)>,
) -> Seq<DrawCall> {
    if config.render_colliders {
        spec_colliders_draws(colliders)
    } else {
        Seq::empty()
    }
}

/// The unsupported-shape warnings the pass owes: one index per rejected
/// collider when the pass runs, none when it is disabled.
pub open spec fn spec_collider_warnings(
    config: PhysicsDebugConfig,
    colliders: Seq<(ColliderShape, Transform2)>,
) -> Seq<usize> {
    if config.render_colliders {
        spec_unsupported_indices(colliders)
    } else {
        Seq::empty()
    }
}

/// An unsupported shape kind produces zero outline draw calls, so within
/// the pass it contributes its origin cross and nothing else; every other
/// collider in the frame is unaffected.
pub proof fn lemma_unsupported_shape_draws_no_outline(t: Transform2)
    ensures
        spec_outline(ColliderShape::Unsupported, t) is None,
        spec_outline_draws(ColliderShape::Unsupported, t).len() == 0,
        spec_collider_draws(ColliderShape::Unsupported, t) == spec_center_marker(t),
{
    assert(spec_center_marker(t) + spec_outline_draws(ColliderShape::Unsupported, t)
        =~= spec_center_marker(t));
}

/// A collider the pass accepts: a well-formed shape whose cross marker and
/// outline both land in coordinate range.
pub open spec fn collider_in_range(c: (ColliderShape, Transform2)) -> bool {
    c.0.wf() && marker_in_range(c.1) && outline_in_range(c.1, c.0)
}

/// Appends all of `src` to `dst`, in order.
fn push_all(dst: &mut Vec<DrawCall>, src: &Vec<DrawCall>)
    ensures
        final(dst)@ == old(dst)@ + src@,
{
    let n = src.len();
    let mut i: usize = 0;
    while i < n
        invariant
            n == src@.len(),
            i <= n,
            dst@ == old(dst)@ + src@.subrange(0, i as int),
        decreases n - i,
    {
        dst.push(src[i]);
        proof {
            assert(src@.subrange(0, i + 1 as int) =~= src@.subrange(0, i as int).push(
                src@[i as int],
            ));
        }
        i = i + 1;
    }
    proof {
        assert(src@.subrange(0, n as int) =~= src@);
    }
}

/// Appends one white line per outline segment, in order.
fn push_segment_lines(dst: &mut Vec<DrawCall>, segs: &Vec<Segment>)
    ensures
        final(dst)@ == old(dst)@ + segs@.map_values(|sg: Segment| segment_line(sg)),
{
    let n = segs.len();
    let mut i: usize = 0;
    while i < n
        invariant
            n == segs@.len(),
            i <= n,
            dst@ =~= old(dst)@ + segs@.subrange(0, i as int).map_values(
                |sg: Segment| segment_line(sg),
            ),
        decreases n - i,
    {
        let sg = &segs[i];
        dst.push(DrawCall::Line { start: sg.start, end: sg.end, color: DrawColor::White });
        proof {
            assert(segs@.subrange(0, i + 1 as int).map_values(|sg: Segment| segment_line(sg))
                =~= segs@.subrange(0, i as int).map_values(|sg: Segment| segment_line(sg)).push(
                segment_line(segs@[i as int]),
            ));
        }
        i = i + 1;
    }
    proof {
        assert(segs@.subrange(0, n as int) =~= segs@);
    }
}

/// Renders the collider-shape pass for one frame: per collider, first a
/// gray origin cross, then the white shape outline. A collider whose shape
/// kind cannot be outlined keeps its cross, contributes no outline, and is
/// reported by index in the second result so the host can warn and carry
/// on; it never aborts the frame.
pub fn debug_render_colliders(
    config: &PhysicsDebugConfig,
    colliders: &Vec<(ColliderShape, Transform2)>,
) -> (r: (Vec<DrawCall>, Vec<usize>))
    requires
        forall|i: int| 0 <= i < colliders@.len() ==> collider_in_range(#[trigger] colliders@[i]),
    ensures
        r.0@ == spec_render_colliders(*config, colliders@),
        r.1@ == spec_collider_warnings(*config, colliders@),
{
    let mut draws: Vec<DrawCall> = Vec::new();
    let mut warnings: Vec<usize> = Vec::new();
    if !config.render_colliders {
        return (draws, warnings);
    }
    let n = colliders.len();
    let mut i: usize = 0;
    while i < n
        invariant
            n == colliders@.len(),
            i <= n,
            forall|k: int| 0 <= k < colliders@.len() ==> collider_in_range(
                #[trigger] colliders@[k],
            ),
            draws@ == spec_colliders_draws(colliders@.subrange(0, i as int)),
            warnings@ == spec_unsupported_indices(colliders@.subrange(0, i as int)),
        decreases n - i,
    {
        let entity = &colliders[i];
        let shape = &entity.0;
        let t = &entity.1;
        let marker = center_marker(t);
        push_all(&mut draws, &marker);
        match shape_outline(shape, t) {
            Ok(Outline::Circle { center, radius }) => {
                draws.push(DrawCall::Circle { center, radius, color: DrawColor::White });
            },
            Ok(Outline::Segments(segs)) => {
                push_segment_lines(&mut draws, &segs);
            },
            Err(OutlineError::UnsupportedShapeKind) => {
                warnings.push(i);
            },
        }
        proof {
            let pre = colliders@.subrange(0, i as int);
            let post = colliders@.subrange(0, i + 1 as int);
            assert(post.drop_last() =~= pre);
            assert(post.last() == colliders@[i as int]);
            assert(draws@ =~= spec_colliders_draws(post));
            assert(warnings@ =~= spec_unsupported_indices(post));
        }
        i = i + 1;
    }
    proof {
        assert(colliders@.subrange(0, n as int) =~= colliders@);
    }
    (draws, warnings)
}

} // verus!
