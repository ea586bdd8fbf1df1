//! The smart dimension tool: what a click measures, what it waits for, and
//! where the dimension in hand goes.
//!
//! Two-step measurements — point to point, angle — collect their first half
//! and wait; everything else is settled in a single click. A dimension chosen
//! then follows the cursor until a second click says where it goes.

use vstd::prelude::*;

use crate::model::{CircleId, DimensionTarget, PointId, SegmentId, SketchAxis, Topology};

verus! {

/// Which kind of measurement the tool is held to.
#[derive(Clone, Copy, Debug, PartialEq, Eq, Hash, Structural)]
pub enum DimensionMode {
    /// Whatever is under the cursor.
    Auto,
    /// Only lengths of traits.
    Length,
    /// Only rounds.
    Radius,
    /// Only angles.
    Angle,
    /// Only distances between two points.
    PointToPoint,
}

/// Whether a mode measures from points.
pub open spec fn takes_points_spec(mode: DimensionMode) -> bool {
    mode == DimensionMode::Auto || mode == DimensionMode::PointToPoint
}

impl DimensionMode {
    pub fn takes_points(self) -> (r: bool)
        ensures
            r == takes_points_spec(self),
    {
        match self {
            DimensionMode::Auto | DimensionMode::PointToPoint => true,
            _ => false,
        }
    }
}

/// What the tool is holding between clicks.
#[derive(Clone, Copy, Debug, PartialEq, Eq, Structural)]
pub struct DimensionState {
    /// A dimension chosen, waiting to be put down.
    pub placing: Option<DimensionTarget>,
    /// The first of two points.
    pub first_point: Option<PointId>,
    /// The first of two traits opening an angle.
    pub first_angle: Option<SegmentId>,
    /// An axis, waiting for the trait to measure against it.
    pub first_axis: Option<SketchAxis>,
}

/// What the drawing has under the cursor.
#[derive(Clone, Copy, Debug, PartialEq, Eq, Structural)]
pub struct Under {
    /// A point, within the slightly shorter reach a point is given.
    pub point: Option<PointId>,
    pub segment: Option<SegmentId>,
    pub circle: Option<CircleId>,
    /// The sketch axis the cursor lies on.
    pub axis: Option<SketchAxis>,
    /// The annotation of a dimension already there.
    pub annotation: Option<DimensionTarget>,
    /// Whether the trait under the cursor opens an angle with the one already
    /// in hand — the one being placed, or the first of an angle.
    pub opens: bool,
}

/// What the tool says.
#[derive(Clone, Copy, Debug, PartialEq, Eq, Structural)]
pub enum Prompt {
    /// Where to put the dimension down, or a second thing to measure it to.
    PlaceTheDimension,
    ChooseSecondPoint,
    ChooseSecondTraitOrAxis,
    /// An axis was chosen, and now a trait.
    AxisChosen(SketchAxis),
    TraitsDoNotTouch,
    NothingToMeasure,
}

/// What a click of the tool comes to.
#[derive(Clone, Copy, Debug, PartialEq, Eq, Structural)]
pub enum DimensionStep {
    /// The click changes nothing.
    Nothing,
    /// The tool waits, and says so.
    Waiting(Prompt),
    /// The dimension in hand goes down where the click landed.
    Place(DimensionTarget),
    /// The dimension already on the drawing is opened for its value to be
    /// typed again.
    Edit(DimensionTarget),
    /// A dimension is chosen: it follows the cursor until put down.
    Choose(DimensionTarget),
    /// Nothing is selected any more, and the tool says why.
    Refused(Prompt),
}

/// The state the tool keeps when it opens a dimension already there, or lets
/// go of everything: none of its halves.
pub open spec fn cleared() -> DimensionState {
    DimensionState { placing: None, first_point: None, first_angle: None, first_axis: None }
}

/// What a second thing under the cursor adds to the dimension in hand: the
/// centre turns a diameter into a radius; another trait opening an angle with
/// a length makes it that angle; a point off the trait makes it the distance
/// square onto it; an axis, with no trait in the way, the trait's direction.
pub open spec fn refine_spec(target: DimensionTarget, under: Under, topology: Topology) -> Option<
    DimensionTarget,
> {
    match target {
        DimensionTarget::Diameter(circle) => match topology.centre_spec(circle) {
            Some(centre) => if under.point == Some(centre) {
                Some(DimensionTarget::Radius(circle))
            } else {
                None
            },
            None => None,
        },
        DimensionTarget::Length(first) => if under.segment is Some && under.segment->0 != first
            && under.opens {
            Some(DimensionTarget::Angle { first, second: under.segment->0 })
        } else if under.point is Some && !topology.touches_spec(first, under.point->0) {
            Some(DimensionTarget::PointToSegment { point: under.point->0, segment: first })
        } else if under.segment is None && under.axis is Some {
            Some(DimensionTarget::AxisAngle { segment: first, axis: under.axis->0 })
        } else {
            None
        },
        _ => None,
    }
}

pub fn refine(target: DimensionTarget, under: &Under, topology: &Topology) -> (r: Option<
    DimensionTarget,
>)
    ensures
        r == refine_spec(target, *under, *topology),
{
    match target {
        DimensionTarget::Diameter(circle) => match topology.centre(circle) {
            Some(centre) => if under.point == Some(centre) {
                Some(DimensionTarget::Radius(circle))
            } else {
                None
            },
            None => None,
        },
        DimensionTarget::Length(first) => {
            if let Some(second) = under.segment {
                if second != first && under.opens {
                    return Some(DimensionTarget::Angle { first, second });
                }
            }
            if let Some(point) = under.point {
                if !topology.touches(first, point) {
                    return Some(DimensionTarget::PointToSegment { point, segment: first });
                }
            }
            if under.segment.is_none() {
                if let Some(axis) = under.axis {
                    return Some(DimensionTarget::AxisAngle { segment: first, axis });
                }
            }
            None
        },
        _ => None,
    }
}

/// One click of the smart dimension tool: the state it leaves and what the
/// click comes to.
///
/// A dimension in hand either takes the second half of a pair or goes down.
/// An annotation under the cursor, with no geometry there to take the click
/// first, means changing its value — never laying a second copy over it. A
/// point wins over a trait, being the smaller target; a point already picked
/// and now a trait gives the distance square onto it; an angle waits for its
/// second trait or an axis; an axis picked first waits for the trait; then a
/// trait's length, or a round's diameter.
pub open spec fn measure_spec(
    state: DimensionState,
    mode: DimensionMode,
    under: Under,
    topology: Topology,
) -> (DimensionState, DimensionStep) {
    let angles = mode == DimensionMode::Auto || mode == DimensionMode::Angle;
    let on_geometry = under.point is Some || under.segment is Some || under.circle is Some;
    if state.placing is Some {
        let target = state.placing->0;
        if mode == DimensionMode::Auto && refine_spec(target, under, topology) is Some {
            (
                DimensionState { placing: refine_spec(target, under, topology), ..state },
                DimensionStep::Waiting(Prompt::PlaceTheDimension),
            )
        } else {
            (DimensionState { placing: None, ..state }, DimensionStep::Place(target))
        }
    } else if !on_geometry && under.annotation is Some {
        (cleared(), DimensionStep::Edit(under.annotation->0))
    } else if takes_points_spec(mode) && under.point is Some {
        let point = under.point->0;
        match state.first_point {
            None => (
                DimensionState { first_point: Some(point), ..state },
                DimensionStep::Waiting(Prompt::ChooseSecondPoint),
            ),
            Some(first) => if first == point {
                (state, DimensionStep::Nothing)
            } else {
                (
                    DimensionState { first_point: None, ..state },
                    DimensionStep::Choose(DimensionTarget::Distance { from: first, to: point }),
                )
            },
        }
    } else if mode != DimensionMode::PointToPoint && state.first_point is Some
        && under.segment is Some {
        (
            DimensionState { first_point: None, ..state },
            DimensionStep::Choose(
                DimensionTarget::PointToSegment {
                    point: state.first_point->0,
                    segment: under.segment->0,
                },
            ),
        )
    } else if mode == DimensionMode::PointToPoint {
        (state, DimensionStep::Nothing)
    } else if angles && state.first_angle is Some {
        let first = state.first_angle->0;
        if under.segment is Some && under.segment->0 != first {
            if !under.opens {
                (
                    DimensionState { first_angle: None, ..state },
                    DimensionStep::Refused(Prompt::TraitsDoNotTouch),
                )
            } else {
                (
                    DimensionState { first_angle: None, ..state },
                    DimensionStep::Choose(
                        DimensionTarget::Angle { first, second: under.segment->0 },
                    ),
                )
            }
        } else if under.axis is Some {
            (
                DimensionState { first_angle: None, ..state },
                DimensionStep::Choose(
                    DimensionTarget::AxisAngle { segment: first, axis: under.axis->0 },
                ),
            )
        } else {
            (state, DimensionStep::Nothing)
        }
    } else if angles && under.axis is Some && under.segment is None {
        (
            DimensionState { first_axis: under.axis, ..state },
            DimensionStep::Waiting(Prompt::AxisChosen(under.axis->0)),
        )
    } else if mode != DimensionMode::Radius && under.segment is Some {
        let segment = under.segment->0;
        if state.first_axis is Some {
            (
                DimensionState { first_axis: None, ..state },
                DimensionStep::Choose(
                    DimensionTarget::AxisAngle { segment, axis: state.first_axis->0 },
                ),
            )
        } else if mode == DimensionMode::Angle {
            (
                DimensionState { first_angle: Some(segment), ..state },
                DimensionStep::Waiting(Prompt::ChooseSecondTraitOrAxis),
            )
        } else {
            (state, DimensionStep::Choose(DimensionTarget::Length(segment)))
        }
    } else if mode != DimensionMode::Length && under.circle is Some {
        (state, DimensionStep::Choose(DimensionTarget::Diameter(under.circle->0)))
    } else {
        (state, DimensionStep::Refused(Prompt::NothingToMeasure))
    }
}

pub fn measure(
    state: &mut DimensionState,
    mode: DimensionMode,
    under: &Under,
    topology: &Topology,
) -> (step: DimensionStep)
    ensures
        (*final(state), step) == measure_spec(*old(state), mode, *under, *topology),
{
    let angles = mode == DimensionMode::Auto || mode == DimensionMode::Angle;
    let on_geometry = under.point.is_some() || under.segment.is_some() || under.circle.is_some();
    if let Some(target) = state.placing {
        if mode == DimensionMode::Auto {
            let refined = refine(target, under, topology);
            if refined.is_some() {
                state.placing = refined;
                return DimensionStep::Waiting(Prompt::PlaceTheDimension);
            }
        }
        state.placing = None;
        return DimensionStep::Place(target);
    }
    if !on_geometry {
        if let Some(target) = under.annotation {
            *state = DimensionState {
                placing: None,
                first_point: None,
                first_angle: None,
                first_axis: None,
            };
            return DimensionStep::Edit(target);
        }
    }
    if mode.takes_points() {
        if let Some(point) = under.point {
            match state.first_point {
                None => {
                    state.first_point = Some(point);
                    return DimensionStep::Waiting(Prompt::ChooseSecondPoint);
                },
                Some(first) => {
                    if first == point {
                        return DimensionStep::Nothing;
                    }
                    state.first_point = None;
                    return DimensionStep::Choose(DimensionTarget::Distance { from: first, to: point });
                },
            }
        }
    }
    if mode != DimensionMode::PointToPoint {
        if let Some(point) = state.first_point {
            if let Some(segment) = under.segment {
                state.first_point = None;
                return DimensionStep::Choose(DimensionTarget::PointToSegment { point, segment });
            }
        }
    }
    if mode == DimensionMode::PointToPoint {
        return DimensionStep::Nothing;
    }
    if angles {
        if let Some(first) = state.first_angle {
            if let Some(second) = under.segment {
                if second != first {
                    state.first_angle = None;
                    if !under.opens {
                        return DimensionStep::Refused(Prompt::TraitsDoNotTouch);
                    }
                    return DimensionStep::Choose(DimensionTarget::Angle { first, second });
                }
            }
            if let Some(axis) = under.axis {
                state.first_angle = None;
                return DimensionStep::Choose(DimensionTarget::AxisAngle { segment: first, axis });
            }
            return DimensionStep::Nothing;
        }
        if under.segment.is_none() {
            if let Some(axis) = under.axis {
                state.first_axis = Some(axis);
                return DimensionStep::Waiting(Prompt::AxisChosen(axis));
            }
        }
    }
    if mode != DimensionMode::Radius {
        if let Some(segment) = under.segment {
            if let Some(axis) = state.first_axis {
                state.first_axis = None;
                return DimensionStep::Choose(DimensionTarget::AxisAngle { segment, axis });
            }
            if mode == DimensionMode::Angle {
                state.first_angle = Some(segment);
                return DimensionStep::Waiting(Prompt::ChooseSecondTraitOrAxis);
            }
            return DimensionStep::Choose(DimensionTarget::Length(segment));
        }
    }
    if mode != DimensionMode::Length {
        if let Some(circle) = under.circle {
            return DimensionStep::Choose(DimensionTarget::Diameter(circle));
        }
    }
    DimensionStep::Refused(Prompt::NothingToMeasure)
}

/// The dimension a click would choose right now, without choosing it: the
/// same reading of the cursor as a click, so that what is shown in advance is
/// what will be recorded.
pub open spec fn preview_spec(state: DimensionState, mode: DimensionMode, under: Under) -> Option<
    DimensionTarget,
> {
    let angles = mode == DimensionMode::Auto || mode == DimensionMode::Angle;
    if takes_points_spec(mode) && under.point is Some {
        match state.first_point {
            Some(first) => if first != under.point->0 {
                Some(DimensionTarget::Distance { from: first, to: under.point->0 })
            } else {
                None
            },
            None => None,
        }
    } else if mode == DimensionMode::PointToPoint {
        None
    } else if angles && state.first_angle is Some {
        let first = state.first_angle->0;
        if under.segment is Some && under.segment->0 != first {
            if under.opens {
                Some(DimensionTarget::Angle { first, second: under.segment->0 })
            } else {
                None
            }
        } else {
            match under.axis {
                Some(axis) => Some(DimensionTarget::AxisAngle { segment: first, axis }),
                None => None,
            }
        }
    } else if mode != DimensionMode::Radius && under.segment is Some {
        let segment = under.segment->0;
        match state.first_axis {
            Some(axis) => Some(DimensionTarget::AxisAngle { segment, axis }),
            None => if mode == DimensionMode::Angle {
                None
            } else {
                Some(DimensionTarget::Length(segment))
            },
        }
    } else if mode != DimensionMode::Length {
        match under.circle {
            Some(circle) => Some(DimensionTarget::Diameter(circle)),
            None => None,
        }
    } else {
        None
    }
}

pub fn preview(state: &DimensionState, mode: DimensionMode, under: &Under) -> (r: Option<
    DimensionTarget,
>)
    ensures
        r == preview_spec(*state, mode, *under),
{
    let angles = mode == DimensionMode::Auto || mode == DimensionMode::Angle;
    if mode.takes_points() {
        if let Some(point) = under.point {
            return match state.first_point {
                Some(first) => if first != point {
                    Some(DimensionTarget::Distance { from: first, to: point })
                } else {
                    None
                },
                None => None,
            };
        }
    }
    if mode == DimensionMode::PointToPoint {
        return None;
    }
    if angles {
        if let Some(first) = state.first_angle {
            if let Some(second) = under.segment {
                if second != first {
                    return if under.opens {
                        Some(DimensionTarget::Angle { first, second })
                    } else {
                        None
                    };
                }
            }
            return match under.axis {
                Some(axis) => Some(DimensionTarget::AxisAngle { segment: first, axis }),
                None => None,
            };
        }
    }
    if mode != DimensionMode::Radius {
        if let Some(segment) = under.segment {
            return match state.first_axis {
                Some(axis) => Some(DimensionTarget::AxisAngle { segment, axis }),
                None => if mode == DimensionMode::Angle {
                    None
                } else {
                    Some(DimensionTarget::Length(segment))
                },
            };
        }
    }
    if mode != DimensionMode::Length {
        return match under.circle {
            Some(circle) => Some(DimensionTarget::Diameter(circle)),
            None => None,
        };
    }
    None
}

/// What is previewed is what the click chooses: whenever a click with nothing
/// in hand would choose a dimension without waiting or refusing, the preview
/// shows exactly that one — save for a point already picked with a trait now
/// under the cursor, where the click measures the distance square onto the
/// trait and the preview shows the trait's length.
pub proof fn lemma_preview_is_what_a_click_chooses(
    state: DimensionState,
    mode: DimensionMode,
    under: Under,
    topology: Topology,
    target: DimensionTarget,
)
    requires
        state.placing is None,
        under.annotation is None,
        !(state.first_point is Some && under.segment is Some && !(takes_points_spec(mode)
            && under.point is Some)),
        measure_spec(state, mode, under, topology).1 == DimensionStep::Choose(target),
    ensures
        preview_spec(state, mode, under) == Some(target),
{
}

/// The two ends of what a straight dimension measures, when it has two: a
/// trait's own ends, or the two points a distance runs between.
pub open spec fn ends_of_spec(target: DimensionTarget, topology: Topology) -> Option<(PointId, PointId)> {
    match target {
        DimensionTarget::Length(segment) => topology.ends_spec(segment),
        DimensionTarget::Distance { from, to } => Some((from, to)),
        DimensionTarget::Projected { from, to, .. } => Some((from, to)),
        _ => None,
    }
}

pub fn ends_of(target: DimensionTarget, topology: &Topology) -> (r: Option<(PointId, PointId)>)
    ensures
        r == ends_of_spec(target, *topology),
{
    match target {
        DimensionTarget::Length(segment) => topology.ends(segment),
        DimensionTarget::Distance { from, to } => Some((from, to)),
        DimensionTarget::Projected { from, to, .. } => Some((from, to)),
        _ => None,
    }
}

/// What taking hold of a chosen dimension comes to.
#[derive(Clone, Copy, Debug, PartialEq, Eq, Structural)]
pub enum Chosen {
    /// The same measurement is already on the drawing: its value is opened to
    /// be typed again.
    Edit,
    /// It follows the cursor, and the tool says whether it adds anything to a
    /// shape already settled.
    Follow { redundant: bool },
}

/// A dimension chosen that is `dimensioned` already is opened rather than
/// laid a second time — unless its trait is `slanted`, which has a width and
/// a height to offer besides its length, and which one is wanted is only
/// known once it is placed.
pub fn take_hold(
    state: &mut DimensionState,
    target: DimensionTarget,
    slanted: bool,
    dimensioned: bool,
    redundant: bool,
) -> (r: Chosen)
    ensures
        !slanted && dimensioned ==> r == Chosen::Edit && *final(state) == cleared(),
        !(!slanted && dimensioned) ==> r == (Chosen::Follow { redundant }) && (*final(state)
            == (DimensionState { placing: Some(target), ..*old(state) })),
{
    if !slanted && dimensioned {
        *state = DimensionState {
            placing: None,
            first_point: None,
            first_angle: None,
            first_axis: None,
        };
        return Chosen::Edit;
    }
    state.placing = Some(target);
    Chosen::Follow { redundant }
}

/// What the dimension in hand does where it is put down: opens the one
/// already there rather than lay a copy, lays itself at the value the
/// geometry already measures — so placing one never moves the drawing — or,
/// with nothing to measure, does nothing.
#[derive(Clone, Copy, Debug, PartialEq, Eq, Structural)]
pub enum Placed {
    Edit,
    Lay,
    Nothing,
}

pub fn put_down(state: &mut DimensionState, dimensioned: bool, measured: bool) -> (r: Placed)
    ensures
        dimensioned ==> r == Placed::Edit && *final(state) == cleared(),
        !dimensioned && measured ==> r == Placed::Lay && *final(state) == *old(state),
        !dimensioned && !measured ==> r == Placed::Nothing && *final(state) == *old(state),
{
    if dimensioned {
        *state = DimensionState {
            placing: None,
            first_point: None,
            first_angle: None,
            first_axis: None,
        };
        Placed::Edit
    } else if measured {
        Placed::Lay
    } else {
        Placed::Nothing
    }
}

/// A click with no dimension in hand leaves none in hand and puts none down:
/// what it chooses is handed over to be taken hold of, never kept half-placed.
pub proof fn lemma_one_thing_in_hand(
    state: DimensionState,
    mode: DimensionMode,
    under: Under,
    topology: Topology,
)
    requires
        state.placing is None,
    ensures
        measure_spec(state, mode, under, topology).0.placing is None,
        measure_spec(state, mode, under, topology).1 matches DimensionStep::Place(_) ==> false,
{
}

/// With the first trait of an angle held and nothing in hand, a click on a
/// sketch axis, with no trait, point or annotation under the cursor, chooses
/// the angle between that trait and the axis, and lets go of the trait.
pub proof fn lemma_a_trait_then_an_axis_is_their_angle(
    state: DimensionState,
    mode: DimensionMode,
    under: Under,
    topology: Topology,
    first: SegmentId,
    axis: SketchAxis,
)
    requires
        state.placing is None,
        state.first_angle == Some(first),
        mode == DimensionMode::Auto || mode == DimensionMode::Angle,
        under.axis == Some(axis),
        under.segment is None,
        under.point is None,
        under.annotation is None,
    ensures
        measure_spec(state, mode, under, topology).1 == DimensionStep::Choose(
            DimensionTarget::AxisAngle { segment: first, axis },
        ),
        measure_spec(state, mode, under, topology).0.first_angle is None,
        measure_spec(state, mode, under, topology).0.placing is None,
        preview_spec(state, mode, under) == Some(DimensionTarget::AxisAngle { segment: first, axis }),
{
}

/// With the first trait of an angle held, a click on a second trait that
/// meets it chooses the angle between the two, the first clicked first.
pub proof fn lemma_a_trait_then_a_trait_is_their_angle(
    state: DimensionState,
    mode: DimensionMode,
    under: Under,
    topology: Topology,
    first: SegmentId,
    second: SegmentId,
)
    requires
        state.placing is None,
        state.first_angle == Some(first),
        state.first_point is None,
        mode == DimensionMode::Auto || mode == DimensionMode::Angle,
        under.segment == Some(second),
        second != first,
        under.opens,
        under.point is None,
    ensures
        measure_spec(state, mode, under, topology).1 == DimensionStep::Choose(
            DimensionTarget::Angle { first, second },
        ),
        measure_spec(state, mode, under, topology).0.first_angle is None,
{
}

/// With nothing in hand and no first half gathered, a click measures what it
/// lands on: a trait its length, a round its diameter, a point the first
/// half of a distance — except as the mode restricts it.
pub proof fn lemma_a_click_measures_what_it_lands_on(under: Under, topology: Topology)
    ensures
        ({
            let empty = DimensionState { placing: None, first_point: None, first_angle: None, first_axis: None };
            &&& (under.segment is Some && under.point is None && under.axis is None)
                ==> measure_spec(empty, DimensionMode::Auto, under, topology).1
                == DimensionStep::Choose(DimensionTarget::Length(under.segment->0))
            &&& (under.segment is Some && under.point is None) ==> measure_spec(
                empty,
                DimensionMode::Length,
                under,
                topology,
            ).1 == DimensionStep::Choose(DimensionTarget::Length(under.segment->0))
            &&& (under.circle is Some && under.point is None && under.segment is None
                && under.axis is None) ==> measure_spec(empty, DimensionMode::Auto, under, topology).1
                == DimensionStep::Choose(DimensionTarget::Diameter(under.circle->0))
            &&& (under.point is Some) ==> measure_spec(empty, DimensionMode::Auto, under, topology)
                == (DimensionState { first_point: under.point, ..empty }, DimensionStep::Waiting(
                Prompt::ChooseSecondPoint,
            ))
            &&& (under.circle is Some && under.segment is None && under.point is None) ==> measure_spec(
                empty,
                DimensionMode::Length,
                under,
                topology,
            ).1 == DimensionStep::Refused(Prompt::NothingToMeasure)
        }),
{
}

/// A second point, another than the first, measures the distance between the
/// two, from the first.
pub proof fn lemma_two_points_are_their_distance(state: DimensionState, under: Under, topology: Topology, from: PointId, to: PointId)
    requires
        state.placing is None,
        state.first_point == Some(from),
        under.point == Some(to),
        to != from,
        !(under.annotation is Some && under.segment is None && under.circle is None),
    ensures
        measure_spec(state, DimensionMode::Auto, under, topology).1 == DimensionStep::Choose(
            DimensionTarget::Distance { from, to },
        ),
        measure_spec(state, DimensionMode::PointToPoint, under, topology).1 == DimensionStep::Choose(
            DimensionTarget::Distance { from, to },
        ),
        measure_spec(state, DimensionMode::Auto, under, topology).0.first_point is None,
{
}

} // verus!
