//! The measure tool: reads what is under the cursor and shows it, and writes
//! nothing anywhere.
//!
//! It shares the dimension tool's aim — what a click means is read the same
//! way — and parts from it at the answer: a dimension is placed and recorded,
//! a measure is only shown.

use vstd::prelude::*;

use crate::dimensioning::{refine_spec, DimensionStep, Prompt, Under};
use crate::model::{DimensionTarget, SegmentId, SketchAxis, Topology};

verus! {

/// What the drawing makes of a click of the measuring aim.
#[derive(Clone, Copy, Debug, PartialEq, Eq, Hash, Structural)]
pub enum Pick {
    /// Something whole to read.
    Target(DimensionTarget),
    /// Two traits running the same way: they open no angle.
    TraitsAreParallel { first: SegmentId, second: SegmentId },
    WaitingForSecondPoint,
    WaitingForSecondTraitOrAxis,
    WaitingForTraitAfterAxis(SketchAxis),
    PointAlreadyOnTheTrait,
    PointInLineWithTheTrait,
    /// Nothing under the cursor.
    Nothing,
    /// A click that landed on nothing new.
    Unchanged,
}

/// What the measure tool says.
#[derive(Clone, Copy, Debug, PartialEq, Eq, Hash, Structural)]
pub enum MeasurePrompt {
    ChooseSecondPoint,
    ChooseSecondTraitOrAxis,
    AxisChosen(SketchAxis),
    PointAlreadyOnTheTrait,
    PointInLineWithTheTrait,
    NothingToMeasure,
}

/// What a measure on screen reads: something drawn, or the closed area a
/// click fell inside, kept by the place of the click (`Q`).
#[derive(Clone, Copy, Debug, PartialEq, Eq)]
pub enum Measured<Q> {
    Of(DimensionTarget),
    Inside(Q),
}

/// What the measure tool holds: the halves gathered so far, as the drawing
/// keeps them, and what is on screen.
#[derive(Clone, Copy, Debug, PartialEq, Eq)]
pub struct MeasureState<P, Q> {
    pub picks: P,
    pub showing: Option<Measured<Q>>,
}

/// The gap between two traits that run the same way, read as one end of the
/// first taken square onto the second — which end says nothing about the
/// answer, that being what parallel means, so the one it starts at is as good
/// as any. `readable` is whether the drawing can read that distance.
pub open spec fn across_to_spec(topology: Topology, first: SegmentId, second: SegmentId, readable: bool) -> Option<
    DimensionTarget,
> {
    match topology.ends_spec(first) {
        Some((start, _)) => if readable {
            Some(DimensionTarget::PointToSegment { point: start, segment: second })
        } else {
            None
        },
        None => None,
    }
}

pub fn across_to(topology: &Topology, first: SegmentId, second: SegmentId, readable: bool) -> (r:
    Option<DimensionTarget>)
    ensures
        r == across_to_spec(*topology, first, second, readable),
{
    match topology.ends(first) {
        Some((start, _)) => if readable {
            Some(DimensionTarget::PointToSegment { point: start, segment: second })
        } else {
            None
        },
        None => None,
    }
}

/// What a second click adds to the measure on screen: whatever the dimension
/// tool's own refinement gives (`refined`), and beyond it, for a length and a
/// second trait running the same way (`same_way`), the gap between them
/// (`across`) — which a dimension has nothing to put down for, and a measure
/// does.
pub open spec fn refined_spec(
    target: DimensionTarget,
    refined: Option<DimensionTarget>,
    segment: Option<SegmentId>,
    same_way: bool,
    across: Option<DimensionTarget>,
) -> Option<DimensionTarget> {
    if refined is Some {
        refined
    } else {
        match target {
            DimensionTarget::Length(first) => match segment {
                Some(second) => if second != first && same_way {
                    across
                } else {
                    None
                },
                None => None,
            },
            _ => None,
        }
    }
}

pub fn refined(
    target: DimensionTarget,
    refined_by_dimension: Option<DimensionTarget>,
    segment: Option<SegmentId>,
    same_way: bool,
    across: Option<DimensionTarget>,
) -> (r: Option<DimensionTarget>)
    ensures
        r == refined_spec(target, refined_by_dimension, segment, same_way, across),
{
    if refined_by_dimension.is_some() {
        return refined_by_dimension;
    }
    match target {
        DimensionTarget::Length(first) => match segment {
            Some(second) => if second != first && same_way {
                across
            } else {
                None
            },
            None => None,
        },
        _ => None,
    }
}

/// What a click shows, and what it says.
///
/// A second click on what is shown says more about it when it can. Otherwise
/// the click is read afresh: a measure left standing while the next one is
/// gathered would show a value nobody asks about any more, so only a click
/// that landed on nothing new leaves what is on screen alone. A click that
/// takes nothing drawn reads the closed area it fell inside (`inside`), and
/// where no area closes round it, clears what was shown.
pub open spec fn read_spec<P, Q>(
    state: MeasureState<P, Q>,
    refined: Option<DimensionTarget>,
    picked: P,
    pick: Pick,
    across: Option<DimensionTarget>,
    inside: Option<Q>,
) -> (MeasureState<P, Q>, Option<MeasurePrompt>) {
    if state.showing matches Some(Measured::Of(_)) && refined is Some {
        (MeasureState { picks: state.picks, showing: Some(Measured::Of(refined->0)) }, None)
    } else {
        let shown = |showing: Option<Measured<Q>>| MeasureState { picks: picked, showing };
        let of = |target: Option<DimensionTarget>| match target {
            Some(t) => Some(Measured::Of(t)),
            None => None,
        };
        match pick {
            Pick::Target(target) => (shown(Some(Measured::Of(target))), None),
            Pick::TraitsAreParallel { .. } => (shown(of(across)), None),
            Pick::WaitingForSecondPoint => (shown(None), Some(MeasurePrompt::ChooseSecondPoint)),
            Pick::WaitingForSecondTraitOrAxis => (
                shown(None),
                Some(MeasurePrompt::ChooseSecondTraitOrAxis),
            ),
            Pick::WaitingForTraitAfterAxis(axis) => (
                shown(None),
                Some(MeasurePrompt::AxisChosen(axis)),
            ),
            Pick::PointAlreadyOnTheTrait => (
                shown(None),
                Some(MeasurePrompt::PointAlreadyOnTheTrait),
            ),
            Pick::PointInLineWithTheTrait => (
                shown(None),
                Some(MeasurePrompt::PointInLineWithTheTrait),
            ),
            Pick::Nothing => match inside {
                Some(place) => (shown(Some(Measured::Inside(place))), None),
                None => (shown(None), Some(MeasurePrompt::NothingToMeasure)),
            },
            Pick::Unchanged => (shown(state.showing), None),
        }
    }
}

/// One click of the measure tool. `refined` is what a second click adds to
/// what is shown, `picked` and `pick` what the measuring aim makes of the
/// click, `across` the gap between the two traits when they turn out to run
/// the same way, and `inside` the closed area the click fell in, if any.
///
/// It answers whether the part changed — and a measure never changes the
/// part: that single answer is what leaving no trace comes down to.
pub fn read<P, Q: Copy>(
    state: &mut MeasureState<P, Q>,
    refined: Option<DimensionTarget>,
    picked: P,
    pick: Pick,
    across: Option<DimensionTarget>,
    inside: Option<Q>,
) -> (r: (bool, Option<MeasurePrompt>))
    ensures
        !r.0,
        (*final(state), r.1) == read_spec(*old(state), refined, picked, pick, across, inside),
{
    let refining = match (&state.showing, &refined) {
        (Some(Measured::Of(_)), Some(_)) => true,
        _ => false,
    };
    if refining {
        match refined {
            Some(target) => {
                state.showing = Some(Measured::Of(target));
            },
            None => {},
        }
        return (false, None);
    }
    let (showing, said) = match pick {
        Pick::Target(target) => (Some(Measured::Of(target)), None),
        Pick::TraitsAreParallel { .. } => (
            match across {
                Some(t) => Some(Measured::Of(t)),
                None => None,
            },
            None,
        ),
        Pick::WaitingForSecondPoint => (None, Some(MeasurePrompt::ChooseSecondPoint)),
        Pick::WaitingForSecondTraitOrAxis => (None, Some(MeasurePrompt::ChooseSecondTraitOrAxis)),
        Pick::WaitingForTraitAfterAxis(axis) => (None, Some(MeasurePrompt::AxisChosen(axis))),
        Pick::PointAlreadyOnTheTrait => (None, Some(MeasurePrompt::PointAlreadyOnTheTrait)),
        Pick::PointInLineWithTheTrait => (None, Some(MeasurePrompt::PointInLineWithTheTrait)),
        Pick::Nothing => match inside {
            Some(place) => (Some(Measured::Inside(place)), None),
            None => (None, Some(MeasurePrompt::NothingToMeasure)),
        },
        Pick::Unchanged => (state.showing, None),
    };
    *state = MeasureState { picks: picked, showing };
    (false, said)
}

/// One measure at a time: a click that reads something whole replaces what
/// was shown rather than joining it, and a click on nothing, where no area
/// closes round it, clears it.
pub proof fn lemma_one_measure_at_a_time<P, Q>(
    state: MeasureState<P, Q>,
    refined: Option<DimensionTarget>,
    picked: P,
    pick: Pick,
    across: Option<DimensionTarget>,
    inside: Option<Q>,
)
    requires
        !(state.showing matches Some(Measured::Of(_)) && refined is Some),
    ensures
        pick matches Pick::Target(t) ==> read_spec(
            state,
            refined,
            picked,
            pick,
            across,
            inside,
        ).0.showing == Some(Measured::<Q>::Of(t)),
        pick == Pick::Nothing && inside is None ==> read_spec(
            state,
            refined,
            picked,
            pick,
            across,
            inside,
        ).0.showing is None,
{
}

/// A measure is no less smart than a dimension: whatever the dimension
/// tool's refinement adds to what is shown, a second click of the measure
/// adds the very same.
pub proof fn lemma_a_measure_refines_as_a_dimension_does(
    target: DimensionTarget,
    under: Under,
    topology: Topology,
    segment: Option<SegmentId>,
    same_way: bool,
    across: Option<DimensionTarget>,
)
    requires
        refine_spec(target, under, topology) is Some,
    ensures
        refined_spec(target, refine_spec(target, under, topology), segment, same_way, across)
            == refine_spec(target, under, topology),
{
}

/// What the measuring aim makes of a click, read by the very aim the
/// dimension tool clicks with (`dimensioning::measure`, with nothing in hand):
/// a dimension chosen or opened is what to read, a wait says what it waits
/// for, a refusal is nothing to measure, and a click that changes nothing
/// changes nothing here either.
pub open spec fn pick_of_spec(step: DimensionStep) -> Pick {
    match step {
        DimensionStep::Choose(target) => Pick::Target(target),
        DimensionStep::Edit(target) => Pick::Target(target),
        DimensionStep::Place(target) => Pick::Target(target),
        DimensionStep::Waiting(Prompt::ChooseSecondPoint) => Pick::WaitingForSecondPoint,
        DimensionStep::Waiting(Prompt::ChooseSecondTraitOrAxis) => Pick::WaitingForSecondTraitOrAxis,
        DimensionStep::Waiting(Prompt::AxisChosen(axis)) => Pick::WaitingForTraitAfterAxis(axis),
        DimensionStep::Waiting(_) => Pick::Unchanged,
        DimensionStep::Refused(_) => Pick::Nothing,
        DimensionStep::Nothing => Pick::Unchanged,
    }
}

pub fn pick_of(step: DimensionStep) -> (r: Pick)
    ensures
        r == pick_of_spec(step),
{
    match step {
        DimensionStep::Choose(target) => Pick::Target(target),
        DimensionStep::Edit(target) => Pick::Target(target),
        DimensionStep::Place(target) => Pick::Target(target),
        DimensionStep::Waiting(Prompt::ChooseSecondPoint) => Pick::WaitingForSecondPoint,
        DimensionStep::Waiting(Prompt::ChooseSecondTraitOrAxis) => Pick::WaitingForSecondTraitOrAxis,
        DimensionStep::Waiting(Prompt::AxisChosen(axis)) => Pick::WaitingForTraitAfterAxis(axis),
        DimensionStep::Waiting(_) => Pick::Unchanged,
        DimensionStep::Refused(_) => Pick::Nothing,
        DimensionStep::Nothing => Pick::Unchanged,
    }
}

} // verus!
