//! What the canvas reads of a drawing, as plain values: the names of the
//! things drawn, what a click can take hold of, the rules and the
//! measurements laid on them, and how the traits are joined.

use vstd::prelude::*;

use crate::gathered::Same;

verus! {

/// A point of the drawing, by its rank.
#[derive(Clone, Copy, Debug, PartialEq, Eq, Hash, Structural)]
pub struct PointId(pub usize);

/// A straight trait of the drawing, by its rank.
#[derive(Clone, Copy, Debug, PartialEq, Eq, Hash, Structural)]
pub struct SegmentId(pub usize);

/// A round, by its rank.
#[derive(Clone, Copy, Debug, PartialEq, Eq, Hash, Structural)]
pub struct CircleId(pub usize);

/// A curve cut from a round, by its rank.
#[derive(Clone, Copy, Debug, PartialEq, Eq, Hash, Structural)]
pub struct ArcId(pub usize);

/// An ellipse, by its rank.
#[derive(Clone, Copy, Debug, PartialEq, Eq, Hash, Structural)]
pub struct EllipseId(pub usize);

/// One of the sketch's own two axes.
#[derive(Clone, Copy, Debug, PartialEq, Eq, Hash, Structural)]
pub enum SketchAxis {
    /// The horizontal one.
    U,
    /// The vertical one.
    V,
}

/// Something drawn.
#[derive(Clone, Copy, Debug, PartialEq, Eq, Hash, Structural)]
pub enum Element {
    Point(PointId),
    Segment(SegmentId),
    Circle(CircleId),
    Arc(ArcId),
    Ellipse(EllipseId),
}

/// What a dimension measures.
#[derive(Clone, Copy, Debug, PartialEq, Eq, Hash, Structural)]
pub enum DimensionTarget {
    /// The length of a trait.
    Length(SegmentId),
    /// How far apart two points stand.
    Distance { from: PointId, to: PointId },
    /// How far apart two points stand along one axis.
    Projected { from: PointId, to: PointId, axis: SketchAxis },
    /// How far a point stands off a trait, square onto it.
    PointToSegment { point: PointId, segment: SegmentId },
    /// The angle two traits open.
    Angle { first: SegmentId, second: SegmentId },
    /// The angle a trait makes with an axis.
    AxisAngle { segment: SegmentId, axis: SketchAxis },
    /// How wide a round is.
    Diameter(CircleId),
    /// How far its rim stands from its centre.
    Radius(CircleId),
}

/// A rule laid on the drawing.
#[allow(inconsistent_fields)]
#[derive(Clone, Copy, Debug, PartialEq, Eq, Hash, Structural)]
pub enum Constraint {
    Perpendicular { first: SegmentId, second: SegmentId },
    Parallel { first: SegmentId, second: SegmentId },
    Collinear { first: SegmentId, second: SegmentId },
    /// A trait laid along one of the sketch's axes.
    AxisCollinear { segment: SegmentId, axis: SketchAxis },
    /// A trait running the same way as one of the sketch's axes.
    AxisParallel { segment: SegmentId, axis: SketchAxis },
    /// Two traits of one length: the second takes the first's.
    Equal { first: SegmentId, second: SegmentId },
    /// Two rounds of one radius.
    EqualRadius { first: CircleId, second: CircleId },
    /// A round touching a trait, at a point of the drawing when one is named.
    Tangent { circle: CircleId, segment: SegmentId, at: Option<PointId> },
    /// A point held halfway along a trait.
    Midpoint { point: PointId, segment: SegmentId },
    /// Something that does not move.
    Fixed { element: Element },
    /// A point held on a trait.
    OnSegment { point: PointId, segment: SegmentId },
    /// A point held on a round.
    OnCircle { point: PointId, circle: CircleId },
}

/// Something a point of the drawing can be held on.
#[derive(Clone, Copy, Debug, PartialEq, Eq, Hash, Structural)]
pub enum Support {
    Segment(SegmentId),
    Circle(CircleId),
    Arc(ArcId),
    Ellipse(EllipseId),
}

/// What the selection tool can take hold of.
#[derive(Clone, Copy, Debug, PartialEq, Eq, Hash, Structural)]
pub enum Selection {
    Element(Element),
    Dimension(DimensionTarget),
    Rule(Constraint),
}

impl Same for PointId {
    fn same(&self, other: &Self) -> (r: bool) {
        *self == *other
    }
}

impl Same for SegmentId {
    fn same(&self, other: &Self) -> (r: bool) {
        *self == *other
    }
}

impl Same for CircleId {
    fn same(&self, other: &Self) -> (r: bool) {
        *self == *other
    }
}

impl Same for Element {
    fn same(&self, other: &Self) -> (r: bool) {
        *self == *other
    }
}

impl Same for Selection {
    fn same(&self, other: &Self) -> (r: bool) {
        *self == *other
    }
}

impl Same for Support {
    fn same(&self, other: &Self) -> (r: bool) {
        *self == *other
    }
}

impl Same for usize {
    fn same(&self, other: &Self) -> (r: bool) {
        *self == *other
    }
}

/// How the drawing's things are joined, which is all the tools read of it
/// beyond what lies under the cursor: the point every measure starts from,
/// the two ends of each trait, and the centre of each round.
pub struct Topology {
    pub origin: PointId,
    pub segment_ends: Vec<(PointId, PointId)>,
    pub circle_centres: Vec<PointId>,
}

impl Topology {
    /// Whether `point` is the sketch's origin, which never moves and never
    /// gives way.
    pub open spec fn is_origin_spec(&self, point: PointId) -> bool {
        point == self.origin
    }

    pub fn is_origin(&self, point: PointId) -> (r: bool)
        ensures
            r == self.is_origin_spec(point),
    {
        point == self.origin
    }

    /// The two ends of a trait, when the drawing has it.
    pub open spec fn ends_spec(&self, segment: SegmentId) -> Option<(PointId, PointId)> {
        if segment.0 < self.segment_ends@.len() {
            Some(self.segment_ends@[segment.0 as int])
        } else {
            None
        }
    }

    pub fn ends(&self, segment: SegmentId) -> (r: Option<(PointId, PointId)>)
        ensures
            r == self.ends_spec(segment),
    {
        if segment.0 < self.segment_ends.len() {
            Some(self.segment_ends[segment.0])
        } else {
            None
        }
    }

    /// The centre of a round, when the drawing has it.
    pub open spec fn centre_spec(&self, circle: CircleId) -> Option<PointId> {
        if circle.0 < self.circle_centres@.len() {
            Some(self.circle_centres@[circle.0 as int])
        } else {
            None
        }
    }

    pub fn centre(&self, circle: CircleId) -> (r: Option<PointId>)
        ensures
            r == self.centre_spec(circle),
    {
        if circle.0 < self.circle_centres.len() {
            Some(self.circle_centres[circle.0])
        } else {
            None
        }
    }

    /// Whether a point is one of a trait's own ends: measuring a trait to its
    /// own corner would be a distance of nothing.
    pub open spec fn touches_spec(&self, segment: SegmentId, point: PointId) -> bool {
        match self.ends_spec(segment) {
            Some((start, end)) => start == point || end == point,
            None => false,
        }
    }

    pub fn touches(&self, segment: SegmentId, point: PointId) -> (r: bool)
        ensures
            r == self.touches_spec(segment, point),
    {
        match self.ends(segment) {
            Some((start, end)) => start == point || end == point,
            None => false,
        }
    }
}

} // verus!
