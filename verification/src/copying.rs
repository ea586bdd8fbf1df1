//! The tools that lay copies down — the mirror, and the two patterns.
//!
//! All three gather what is held until Enter says the selection is done, and
//! then name the one thing they each need: an axis, a centre, a direction.

use vstd::prelude::*;

use crate::gathered::{toggle, toggled};
use crate::model::{Element, PointId, SegmentId, Selection, SketchAxis};

verus! {

/// The tool in hand.
#[derive(Clone, Copy, Debug, PartialEq, Eq, Hash, Structural)]
pub enum CopyTool {
    Mirror,
    CircularPattern,
    RectangularPattern,
}

/// What a copying tool holds between clicks.
#[derive(Clone, Debug, PartialEq, Eq)]
pub struct CopyState {
    /// What will be copied.
    pub held: Vec<Element>,
    /// Whether the selection is done, and the next click names where the
    /// copies go.
    pub naming_the_target: bool,
}

/// What the copying tools say.
#[derive(Clone, Copy, Debug, PartialEq, Eq, Hash, Structural)]
pub enum CopyPrompt {
    MirrorTakeElements,
    PatternTakeElements,
    MirrorClickTheAxis,
    PatternClickTheCentre,
    PatternClickTheDirection,
    MirrorNeedsAnAxis,
    PatternNeedsACentre,
    PatternNeedsItsValues,
    PatternNeedsADirection,
    PatternNeedsItsSteps,
}

/// What a tool laying copies calls the stage of gathering.
pub open spec fn gathering_spec(tool: CopyTool) -> CopyPrompt {
    match tool {
        CopyTool::Mirror => CopyPrompt::MirrorTakeElements,
        _ => CopyPrompt::PatternTakeElements,
    }
}

pub fn gathering(tool: CopyTool) -> (r: CopyPrompt)
    ensures
        r == gathering_spec(tool),
{
    match tool {
        CopyTool::Mirror => CopyPrompt::MirrorTakeElements,
        _ => CopyPrompt::PatternTakeElements,
    }
}

/// What each tool asks for once what is held is done.
pub open spec fn asking_spec(tool: CopyTool) -> CopyPrompt {
    match tool {
        CopyTool::CircularPattern => CopyPrompt::PatternClickTheCentre,
        CopyTool::RectangularPattern => CopyPrompt::PatternClickTheDirection,
        CopyTool::Mirror => CopyPrompt::MirrorClickTheAxis,
    }
}

pub fn asking(tool: CopyTool) -> (r: CopyPrompt)
    ensures
        r == asking_spec(tool),
{
    match tool {
        CopyTool::CircularPattern => CopyPrompt::PatternClickTheCentre,
        CopyTool::RectangularPattern => CopyPrompt::PatternClickTheDirection,
        CopyTool::Mirror => CopyPrompt::MirrorClickTheAxis,
    }
}

/// Starts a tool holding what it is given — whatever the selection tool had
/// in hand when the tool was reached for.
pub fn take_hold(tool: CopyTool, held: Vec<Element>) -> (r: (CopyState, CopyPrompt))
    ensures
        r.0.held == held,
        !r.0.naming_the_target,
        r.1 == gathering_spec(tool),
{
    (CopyState { held, naming_the_target: false }, gathering(tool))
}

/// One click while gathering: a click on something drawn takes it, or drops
/// it when it was already held; a click on anything else does nothing.
pub fn gather(state: &mut CopyState, tool: CopyTool, picked: Option<Selection>) -> (said: Option<
    CopyPrompt,
>)
    ensures
        match picked {
            Some(Selection::Element(element)) => {
                &&& final(state).held@ == toggled(old(state).held@, element)
                &&& final(state).naming_the_target == old(state).naming_the_target
                &&& said == Some(gathering_spec(tool))
            },
            _ => *final(state) == *old(state) && said is None,
        },
{
    match picked {
        Some(Selection::Element(element)) => {
            toggle(&mut state.held, element);
            Some(gathering(tool))
        },
        _ => None,
    }
}

/// What a field opens on: a number of the tool's own, or how wide what is
/// held stands.
#[derive(Clone, Copy, Debug, PartialEq)]
pub enum Opened<T> {
    Number(u32),
    Span(T),
}

/// A circular pattern owes nothing to what is held: the quarter turn four
/// times round is the pattern anyone draws when they draw one at all.
pub const A_QUARTER_TURN: u32 = 90;

pub const FOUR_TIMES_ROUND: u32 = 4;

/// Both counts of a grid open on what is held and one copy of it — the smallest
/// pattern that lays anything.
pub const WHAT_IS_HELD_AND_ONE_COPY: u32 = 2;

/// What the four fields open on when the selection is done, so the first
/// thing anyone types is a number being corrected rather than one guessed at.
///
/// A grid steps by how wide what is held stands — the one number no direction
/// can make too small — and, with no drawing to read that from, opens those
/// two fields empty. The mirror asks for no values and opens nothing.
pub open spec fn opens_on_spec<T>(tool: CopyTool, span: Option<T>) -> Option<
    [Option<Opened<T>>; 4],
> {
    let step = match span {
        Some(s) => Some(Opened::Span(s)),
        None => None,
    };
    match tool {
        CopyTool::CircularPattern => Some(
            [
                Some(Opened::Number(A_QUARTER_TURN)),
                Some(Opened::Number(FOUR_TIMES_ROUND)),
                None,
                None,
            ],
        ),
        CopyTool::RectangularPattern => Some(
            [
                step,
                Some(Opened::Number(WHAT_IS_HELD_AND_ONE_COPY)),
                step,
                Some(Opened::Number(WHAT_IS_HELD_AND_ONE_COPY)),
            ],
        ),
        CopyTool::Mirror => None,
    }
}

pub fn opens_on<T: Copy>(tool: CopyTool, span: Option<T>) -> (r: Option<[Option<Opened<T>>; 4]>)
    ensures
        r == opens_on_spec(tool, span),
{
    let step = match span {
        Some(s) => Some(Opened::Span(s)),
        None => None,
    };
    match tool {
        CopyTool::CircularPattern => Some(
            [
                Some(Opened::Number(A_QUARTER_TURN)),
                Some(Opened::Number(FOUR_TIMES_ROUND)),
                None,
                None,
            ],
        ),
        CopyTool::RectangularPattern => Some(
            [
                step,
                Some(Opened::Number(WHAT_IS_HELD_AND_ONE_COPY)),
                step,
                Some(Opened::Number(WHAT_IS_HELD_AND_ONE_COPY)),
            ],
        ),
        CopyTool::Mirror => None,
    }
}

/// Enter while gathering: what is held is what will be copied, and the next
/// click names where it goes — with the fields opened on their values and the
/// question asked. Nothing held is nothing to copy, so the tool stays where
/// it is.
pub fn hold_is_done<T: Copy>(state: &mut CopyState, tool: CopyTool, span: Option<T>) -> (r: Option<
    (Option<[Option<Opened<T>>; 4]>, CopyPrompt),
>)
    ensures
        old(state).held@.len() == 0 ==> r is None && *final(state) == *old(state),
        old(state).held@.len() > 0 ==> {
            &&& final(state).held == old(state).held
            &&& final(state).naming_the_target
            &&& r == Some((opens_on_spec(tool, span), asking_spec(tool)))
        },
{
    if state.held.len() == 0 {
        return None;
    }
    state.naming_the_target = true;
    Some((opens_on(tool, span), asking(tool)))
}

/// Which axis a click names.
#[derive(Clone, Copy, Debug, PartialEq, Eq, Hash, Structural)]
pub enum ChosenAxis {
    /// A trait of the drawing.
    Trait(SegmentId),
    /// One of the sketch's own two.
    Sketch(SketchAxis),
}

/// A trait of the drawing first, then one of the sketch's own two — the
/// trait is the smaller target, and the one the user drew, and the axes run
/// right through the drawing.
pub open spec fn axis_at_spec(segment: Option<SegmentId>, axis: Option<SketchAxis>) -> Option<
    ChosenAxis,
> {
    match segment {
        Some(s) => Some(ChosenAxis::Trait(s)),
        None => match axis {
            Some(a) => Some(ChosenAxis::Sketch(a)),
            None => None,
        },
    }
}

pub fn axis_at(segment: Option<SegmentId>, axis: Option<SketchAxis>) -> (r: Option<ChosenAxis>)
    ensures
        r == axis_at_spec(segment, axis),
{
    match segment {
        Some(s) => Some(ChosenAxis::Trait(s)),
        None => match axis {
            Some(a) => Some(ChosenAxis::Sketch(a)),
            None => None,
        },
    }
}

/// How often, and how far apart, a pattern lays its copies along one way.
#[derive(Clone, Copy, Debug, PartialEq)]
pub struct Repeats<T> {
    pub step: T,
    pub count: usize,
}

/// The step and the count a circular pattern was given, once both have been
/// typed. A count is a whole number of copies: `count` is what was typed,
/// rounded to one. Under two there is nothing to lay, and the drawing says so
/// rather than recording a step that does nothing.
pub open spec fn turned_spec<T>(degrees: Option<T>, count: Option<usize>) -> Option<(T, usize)> {
    match (degrees, count) {
        (Some(d), Some(c)) => if c >= 2 {
            Some((d, c))
        } else {
            None
        },
        _ => None,
    }
}

pub fn turned<T: Copy>(degrees: Option<T>, count: Option<usize>) -> (r: Option<(T, usize)>)
    ensures
        r == turned_spec(degrees, count),
{
    match (degrees, count) {
        (Some(d), Some(c)) => if c >= 2 {
            Some((d, c))
        } else {
            None
        },
        _ => None,
    }
}

/// One way of a grid, once its step and its count have both been typed; a
/// count under one runs no way at all.
pub open spec fn run_spec<T>(step: Option<T>, count: Option<usize>) -> Option<Repeats<T>> {
    match (step, count) {
        (Some(s), Some(c)) => if c >= 1 {
            Some(Repeats { step: s, count: c })
        } else {
            None
        },
        _ => None,
    }
}

/// The two steps and the two counts a rectangular pattern was given, once
/// all four have been typed. A count of one is a way the pattern does not
/// run, which leaves a single row; one both ways is no pattern at all.
pub open spec fn filled_spec<T>(
    along_step: Option<T>,
    along_count: Option<usize>,
    across_step: Option<T>,
    across_count: Option<usize>,
) -> Option<(Repeats<T>, Repeats<T>)> {
    match (run_spec(along_step, along_count), run_spec(across_step, across_count)) {
        (Some(along), Some(across)) => if along.count * across.count >= 2 {
            Some((along, across))
        } else {
            None
        },
        _ => None,
    }
}

fn run<T: Copy>(step: Option<T>, count: Option<usize>) -> (r: Option<Repeats<T>>)
    ensures
        r == run_spec(step, count),
{
    match (step, count) {
        (Some(s), Some(c)) => if c >= 1 {
            Some(Repeats { step: s, count: c })
        } else {
            None
        },
        _ => None,
    }
}

pub fn filled<T: Copy>(
    along_step: Option<T>,
    along_count: Option<usize>,
    across_step: Option<T>,
    across_count: Option<usize>,
) -> (r: Option<(Repeats<T>, Repeats<T>)>)
    ensures
        r == filled_spec(along_step, along_count, across_step, across_count),
{
    let along = match run(along_step, along_count) {
        Some(a) => a,
        None => return None,
    };
    let across = match run(across_step, across_count) {
        Some(a) => a,
        None => return None,
    };
    // Both counts are at least one, so their product reaches two exactly when
    // either of them does.
    if along.count >= 2 || across.count >= 2 {
        proof {
            assert(along.count * across.count >= 2) by (nonlinear_arith)
                requires
                    along.count >= 1,
                    across.count >= 1,
                    along.count >= 2 || across.count >= 2,
            ;
        }
        Some((along, across))
    } else {
        assert(along.count == 1 && across.count == 1);
        assert(along.count * across.count == 1) by (nonlinear_arith)
            requires
                along.count == 1,
                across.count == 1,
        ;
        None
    }
}

/// How the copies are laid.
#[derive(Clone, Copy, Debug, PartialEq)]
pub enum Laid<T> {
    Mirror { axis: ChosenAxis },
    CircularPattern { centre: PointId, degrees: T, count: usize },
    RectangularPattern { direction: ChosenAxis, along: Repeats<T>, across: Repeats<T> },
}

/// The step that lays copies of what was held.
#[derive(Clone, Debug, PartialEq)]
pub struct CopyStep<T> {
    pub elements: Vec<Element>,
    pub laid: Laid<T>,
}

/// What the click that names where the copies go finds: the trait, the
/// sketch axis and the point under it, and the values typed — the two of a
/// circular pattern (the first of them also the grid's first step), and the
/// counts rounded to whole numbers.
pub struct Target<T> {
    pub segment: Option<SegmentId>,
    pub axis: Option<SketchAxis>,
    pub point: Option<PointId>,
    pub values: [Option<T>; 4],
    pub counts: [Option<usize>; 4],
}

/// How the naming click lays the copies, or what the tool still needs: an
/// axis for the mirror; a centre and its two values for the circular pattern;
/// a direction and its four values for the grid, whose second way runs square
/// to the first.
pub open spec fn laid_spec<T>(tool: CopyTool, target: Target<T>) -> Result<Laid<T>, CopyPrompt> {
    match tool {
        CopyTool::Mirror => match axis_at_spec(target.segment, target.axis) {
            Some(axis) => Ok(Laid::Mirror { axis }),
            None => Err(CopyPrompt::MirrorNeedsAnAxis),
        },
        CopyTool::CircularPattern => match target.point {
            None => Err(CopyPrompt::PatternNeedsACentre),
            Some(centre) => match turned_spec(target.values[0], target.counts[1]) {
                Some((degrees, count)) => Ok(Laid::CircularPattern { centre, degrees, count }),
                None => Err(CopyPrompt::PatternNeedsItsValues),
            },
        },
        CopyTool::RectangularPattern => match axis_at_spec(target.segment, target.axis) {
            None => Err(CopyPrompt::PatternNeedsADirection),
            Some(direction) => match filled_spec(
                target.values[0],
                target.counts[1],
                target.values[2],
                target.counts[3],
            ) {
                Some((along, across)) => Ok(Laid::RectangularPattern { direction, along, across }),
                None => Err(CopyPrompt::PatternNeedsItsSteps),
            },
        },
    }
}

/// How the naming click lays the copies, or what the tool still needs.
pub fn laid<T: Copy>(tool: CopyTool, target: Target<T>) -> (r: Result<Laid<T>, CopyPrompt>)
    ensures
        r == laid_spec(tool, target),
{
    match tool {
        CopyTool::Mirror => match axis_at(target.segment, target.axis) {
            Some(axis) => Ok(Laid::Mirror { axis }),
            None => Err(CopyPrompt::MirrorNeedsAnAxis),
        },
        CopyTool::CircularPattern => match target.point {
            None => Err(CopyPrompt::PatternNeedsACentre),
            Some(centre) => match turned(target.values[0], target.counts[1]) {
                Some((degrees, count)) => Ok(Laid::CircularPattern { centre, degrees, count }),
                None => Err(CopyPrompt::PatternNeedsItsValues),
            },
        },
        CopyTool::RectangularPattern => match axis_at(target.segment, target.axis) {
            None => Err(CopyPrompt::PatternNeedsADirection),
            Some(direction) => match filled(
                target.values[0],
                target.counts[1],
                target.values[2],
                target.counts[3],
            ) {
                Some((along, across)) => Ok(Laid::RectangularPattern { direction, along, across }),
                None => Err(CopyPrompt::PatternNeedsItsSteps),
            },
        },
    }
}

/// The click that names where the copies go. Once it lays them, the tool
/// starts again holding nothing.
pub fn lay<T: Copy>(state: &mut CopyState, tool: CopyTool, target: Target<T>) -> (r: Result<
    CopyStep<T>,
    CopyPrompt,
>)
    ensures
        match laid_spec(tool, target) {
            Ok(laid) => {
                &&& r matches Ok(step) && step.laid == laid && step.elements@ == old(
                    state,
                ).held@
                &&& final(state).held@.len() == 0
                &&& !final(state).naming_the_target
            },
            Err(say) => r == Err::<CopyStep<T>, CopyPrompt>(say) && *final(state) == *old(
                state,
            ),
        },
{
    let asked = laid(tool, target);
    match asked {
        Ok(laid) => {
            let mut elements: Vec<Element> = Vec::new();
            std::mem::swap(&mut elements, &mut state.held);
            state.naming_the_target = false;
            Ok(CopyStep { elements, laid })
        },
        Err(say) => Err(say),
    }
}

/// What is shown while the click that names where the copies go is awaited:
/// the copies that click would lay, read off the very same reading of it —
/// and nothing while what is held is still being gathered, or nothing is held.
pub open spec fn previewed_spec<T>(state: CopyState, tool: CopyTool, target: Target<T>) -> Option<Laid<T>> {
    if state.naming_the_target && state.held@.len() > 0 {
        match laid_spec(tool, target) {
            Ok(laid) => Some(laid),
            Err(_) => None,
        }
    } else {
        None
    }
}

pub fn previewed<T: Copy>(state: &CopyState, tool: CopyTool, target: Target<T>) -> (r: Option<Laid<T>>)
    ensures
        r == previewed_spec(*state, tool, target),
{
    if !state.naming_the_target || state.held.len() == 0 {
        return None;
    }
    match laid(tool, target) {
        Ok(laid) => Some(laid),
        Err(_) => None,
    }
}

/// What is shown before the naming click is what that click lays: whenever
/// a preview stands, the click with the same reading lays those very copies.
pub proof fn lemma_the_preview_is_what_the_click_lays<T>(state: CopyState, tool: CopyTool, target: Target<T>)
    requires
        previewed_spec(state, tool, target) is Some,
    ensures
        laid_spec(tool, target) == Ok::<Laid<T>, CopyPrompt>(previewed_spec(state, tool, target)->0),
{
}

/// The copies go where the naming click says: the mirror across the trait
/// clicked, or the sketch axis when no trait is under the click; the circular
/// pattern round the point clicked, as many times and as far apart as typed;
/// the grid along the direction clicked, by the steps and counts typed.
pub proof fn lemma_the_copies_go_where_the_click_says<T>(target: Target<T>)
    ensures
        target.segment is Some ==> laid_spec(CopyTool::Mirror, target) == Ok::<
            Laid<T>,
            CopyPrompt,
        >(Laid::Mirror { axis: ChosenAxis::Trait(target.segment->0) }),
        (target.segment is None && target.axis is Some) ==> laid_spec(CopyTool::Mirror, target)
            == Ok::<Laid<T>, CopyPrompt>(Laid::Mirror { axis: ChosenAxis::Sketch(target.axis->0) }),
        (target.segment is None && target.axis is None) ==> laid_spec(CopyTool::Mirror, target)
            == Err::<Laid<T>, CopyPrompt>(CopyPrompt::MirrorNeedsAnAxis),
        (target.point is Some && target.values[0] is Some && target.counts[1] is Some
            && target.counts[1]->0 >= 2) ==> laid_spec(CopyTool::CircularPattern, target) == Ok::<
            Laid<T>,
            CopyPrompt,
        >(
            Laid::CircularPattern {
                centre: target.point->0,
                degrees: target.values[0]->0,
                count: target.counts[1]->0,
            },
        ),
        laid_spec(CopyTool::CircularPattern, target) matches Ok(Laid::CircularPattern { count, .. })
            ==> count >= 2,
        laid_spec(CopyTool::RectangularPattern, target) matches Ok(
            Laid::RectangularPattern { along, across, .. },
        ) ==> along.count >= 1 && across.count >= 1 && along.count * across.count >= 2
            && target.values[0] == Some(along.step) && target.values[2] == Some(across.step)
            && target.counts[1] == Some(along.count) && target.counts[3] == Some(across.count),
{
}

} // verus!
