//! Collider shapes and the outline dispatcher.
//!
//! Given one shape and its world transform, the dispatcher decides which
//! primitive decomposition outlines it — a circle for a ball, a closed
//! segment loop for the polygonal kinds — and computes the transformed
//! world-space geometry. A shape outside the supported kinds is signalled
//! as an error the caller can skip over.

use vstd::prelude::*;

use crate::geometry::{maps_in_range, transform_point, world_point, Transform2, Vec2};

verus! {

/// One collider shape, as a closed tagged union.
///
/// Kinds are dispatched in the fixed priority `Ball`, `Triangle`,
/// `ConvexPolygon`, `Cuboid`; exactly one kind matches per value.
/// `Unsupported` stands for any future shape kind the overlay cannot
/// outline yet.
#[derive(Clone, PartialEq, Eq, Debug)]
pub enum ColliderShape {
    /// A circle of the given fixed-point radius around the collider's
    /// origin.
    Ball { radius: i64 },
    /// Three local-space vertices, outlined `a -> b -> c -> a`.
    Triangle { a: Vec2, b: Vec2, c: Vec2 },
    /// At least three local-space vertices; insertion order is winding
    /// order, and the outline closes the loop from the last point back to
    /// the first.
    ConvexPolygon { points: Vec<Vec2> },
    /// An axis-aligned box given by its local-space half-extents.
    Cuboid { half_extents: Vec2 },
    /// A shape kind the overlay does not know how to outline.
    Unsupported,
}

/// One world-space line segment of a shape outline.
#[derive(Clone, Copy, PartialEq, Eq, Structural, Debug)]
pub struct Segment {
    pub start: Vec2,
    pub end: Vec2,
}

/// The world-space outline of one collider shape.
#[derive(Clone, PartialEq, Eq, Debug)]
pub enum Outline {
    /// A single circle primitive: a ball renders as a true circle
    /// whatever the transform's rotation.
    Circle { center: Vec2, radius: i64 },
    /// An ordered, finite sequence of line segments.
    Segments(Vec<Segment>),
}

/// The only error the overlay signals.
#[derive(Clone, Copy, PartialEq, Eq, Structural, Debug)]
pub enum OutlineError {
    /// The shape matches none of the supported kinds. Non-fatal: the
    /// caller warns, skips the entity, and continues with the frame.
    UnsupportedShapeKind,
}

/// The ghost view of an outline, with the segments as a `Seq`.
pub enum OutlineModel {
    Circle { center: Vec2, radius: i64 },
    Segments(Seq<Segment>),
}

/// The outline view of an executable outline value.
pub open spec fn outline_model(o: Outline) -> OutlineModel {
    match o {
        Outline::Circle { center, radius } => OutlineModel::Circle { center, radius },
        Outline::Segments(segs) => OutlineModel::Segments(segs@),
    }
}

/// The segment from `a` to `b`, both mapped through `t`.
pub open spec fn world_segment(t: Transform2, a: Vec2, b: Vec2) -> Segment {
    Segment { start: world_point(t, a), end: world_point(t, b) }
}

/// The closed outline of `points` under `t`: one segment per point,
/// beginning with the edge from the last point back to the first.
pub open spec fn closed_loop_segments(t: Transform2, points: Seq<Vec2>) -> Seq<Segment> {
    Seq::new(
        points.len(),
        |i: int|
            if i == 0 {
                world_segment(t, points[points.len() - 1], points[0])
            } else {
                world_segment(t, points[i - 1], points[i])
            },
    )
}

/// The four corners of a cuboid with half-extents `he`: the boundary loop
/// of a four-point convex polygon, counterclockwise from the bottom-left
/// corner.
pub open spec fn cuboid_corners(he: Vec2) -> Seq<Vec2> {
    seq![
        Vec2 { x: (-he.x) as i64, y: (-he.y) as i64 },
        Vec2 { x: he.x, y: (-he.y) as i64 },
        Vec2 { x: he.x, y: he.y },
        Vec2 { x: (-he.x) as i64, y: he.y },
    ]
}

impl ColliderShape {
    /// Structural constraints the overlay expects of a shape: a convex
    /// polygon carries at least three points, and a cuboid's half-extents
    /// can be negated without leaving the coordinate range.
    pub open spec fn wf(self) -> bool {
        match self {
            ColliderShape::ConvexPolygon { points } => points@.len() >= 3,
            ColliderShape::Cuboid { half_extents } => half_extents.x > i64::MIN
                && half_extents.y > i64::MIN,
            _ => true,
        }
    }
}

/// Every local point of `s` lands inside the coordinate range under `t`.
pub open spec fn outline_in_range(t: Transform2, s: ColliderShape) -> bool {
    match s {
        ColliderShape::Ball { .. } => true,
        ColliderShape::Triangle { a, b, c } => maps_in_range(t, a) && maps_in_range(t, b)
            && maps_in_range(t, c),
        ColliderShape::ConvexPolygon { points } => forall|i: int|
            0 <= i < points@.len() ==> maps_in_range(t, #[trigger] points@[i]),
        ColliderShape::Cuboid { half_extents } => forall|i: int|
            0 <= i < cuboid_corners(half_extents).len() ==> maps_in_range(
                t,
                #[trigger] cuboid_corners(half_extents)[i],
            ),
        ColliderShape::Unsupported => true,
    }
}

/// The outline owed for shape `s` under transform `t`: `None` exactly when
/// the shape kind is unsupported. A ball's circle sits at the transform's
/// translation and keeps the ball's own radius, untouched by the
/// transform's linear part.
pub open spec fn spec_outline(s: ColliderShape, t: Transform2) -> Option<OutlineModel> {
    match s {
        ColliderShape::Ball { radius } => Some(
            OutlineModel::Circle { center: Vec2 { x: t.tx, y: t.ty }, radius },
        ),
        ColliderShape::Triangle { a, b, c } => Some(
            OutlineModel::Segments(
                seq![world_segment(t, a, b), world_segment(t, b, c), world_segment(t, c, a)],
            ),
        ),
        ColliderShape::ConvexPolygon { points } => Some(
            OutlineModel::Segments(closed_loop_segments(t, points@)),
        ),
        ColliderShape::Cuboid { half_extents } => Some(
            OutlineModel::Segments(closed_loop_segments(t, cuboid_corners(half_extents))),
        ),
        ColliderShape::Unsupported => None,
    }
}

/// Outlines `points` as a closed loop under `t`, starting from the edge
/// that joins the last point back to the first.
fn outline_loop(t: &Transform2, points: &Vec<Vec2>) -> (segs: Vec<Segment>)
    requires
        points@.len() >= 1,
        forall|i: int| 0 <= i < points@.len() ==> maps_in_range(*t, #[trigger] points@[i]),
    ensures
        segs@ == closed_loop_segments(*t, points@),
{
    let n = points.len();
    let mut segs: Vec<Segment> = Vec::new();
    let mut prev: Vec2 = transform_point(t, points[n - 1]);
    let mut i: usize = 0;
    while i < n
        invariant
            1 <= n == points@.len(),
            i <= n,
            forall|k: int| 0 <= k < points@.len() ==> maps_in_range(*t, #[trigger] points@[k]),
            segs@.len() == i,
            forall|j: int| 0 <= j < i ==> segs@[j] == closed_loop_segments(*t, points@)[j],
            prev == (if i == 0 {
                world_point(*t, points@[n - 1])
            } else {
                world_point(*t, points@[i - 1])
            }),
        decreases n - i,
    {
        let cur = transform_point(t, points[i]);
        segs.push(Segment { start: prev, end: cur });
        prev = cur;
        i = i + 1;
    }
    proof {
        assert(segs@ =~= closed_loop_segments(*t, points@));
    }
    segs
}

/// Decides which primitive decomposition outlines `shape` under `t` and
/// computes the transformed world-space geometry. Kinds are tested in the
/// fixed priority Ball, Triangle, ConvexPolygon, Cuboid; a value outside
/// the supported kinds yields `UnsupportedShapeKind` and nothing else.
pub fn shape_outline(shape: &ColliderShape, t: &Transform2) -> (r: Result<Outline, OutlineError>)
    requires
        shape.wf(),
        outline_in_range(*t, *shape),
    ensures
        r is Err <==> *shape is Unsupported,
        r matches Err(e) ==> e == OutlineError::UnsupportedShapeKind,
        r matches Ok(o) ==> Some(outline_model(o)) == spec_outline(*shape, *t),
{
    match shape {
        ColliderShape::Ball { radius } => Ok(
            Outline::Circle { center: Vec2 { x: t.tx, y: t.ty }, radius: *radius },
        ),
        ColliderShape::Triangle { a, b, c } => {
            let pa = transform_point(t, *a);
            let pb = transform_point(t, *b);
            let pc = transform_point(t, *c);
            let mut segs: Vec<Segment> = Vec::new();
            segs.push(Segment { start: pa, end: pb });
            segs.push(Segment { start: pb, end: pc });
            segs.push(Segment { start: pc, end: pa });
            proof {
                assert(segs@ =~= seq![
                    world_segment(*t, *a, *b),
                    world_segment(*t, *b, *c),
                    world_segment(*t, *c, *a),
                ]);
            }
            Ok(Outline::Segments(segs))
        },
        ColliderShape::ConvexPolygon { points } => Ok(Outline::Segments(outline_loop(t, points))),
        ColliderShape::Cuboid { half_extents } => {
            let mut corners: Vec<Vec2> = Vec::new();
            corners.push(Vec2 { x: -half_extents.x, y: -half_extents.y });
            corners.push(Vec2 { x: half_extents.x, y: -half_extents.y });
            corners.push(Vec2 { x: half_extents.x, y: half_extents.y });
            corners.push(Vec2 { x: -half_extents.x, y: half_extents.y });
            proof {
                assert(corners@ =~= cuboid_corners(*half_extents));
            }
            Ok(Outline::Segments(outline_loop(t, &corners)))
        },
        ColliderShape::Unsupported => Err(OutlineError::UnsupportedShapeKind),
    }
}

/// A ball outlines as one circle at the transform's translation with the
/// ball's own radius; the transform's linear part (rotation, scale) plays
/// no role, so two transforms with the same translation outline a ball
/// identically.
pub proof fn lemma_ball_outline_ignores_rotation(radius: i64, t1: Transform2, t2: Transform2)
    requires
        t1.tx == t2.tx,
        t1.ty == t2.ty,
    ensures
        spec_outline((ColliderShape::Ball { radius }), t1) == Some(
            (OutlineModel::Circle { center: (Vec2 { x: t1.tx, y: t1.ty }), radius }),
        ),
        spec_outline((ColliderShape::Ball { radius }), t1) == spec_outline(
            (ColliderShape::Ball { radius }),
            t2,
        ),
{
}

/// A convex polygon with n points outlines as exactly n segments forming a
/// closed loop: every segment starts where its predecessor ends, and the
/// last segment ends where the first one starts.
pub proof fn lemma_polygon_outline_closed(t: Transform2, points: Seq<Vec2>)
    requires
        points.len() >= 3,
    ensures
        closed_loop_segments(t, points).len() == points.len(),
        closed_loop_segments(t, points).last().end == closed_loop_segments(t, points).first().start,
        forall|i: int|
            1 <= i < closed_loop_segments(t, points).len() ==> (#[trigger] closed_loop_segments(
                t,
                points,
            )[i]).start == closed_loop_segments(t, points)[i - 1].end,
{
}

/// A cuboid outlines exactly as the four-point convex polygon of its
/// corner loop: any `ConvexPolygon` whose points are the cuboid's corners
/// produces the same outline as the cuboid itself.
pub proof fn lemma_cuboid_outline_matches_polygon(
    poly: ColliderShape,
    half_extents: Vec2,
    t: Transform2,
)
    requires
        poly matches ColliderShape::ConvexPolygon { points } && points@ == cuboid_corners(
            half_extents,
        ),
    ensures
        spec_outline(poly, t) == spec_outline((ColliderShape::Cuboid { half_extents }), t),
{
}

} // verus!
