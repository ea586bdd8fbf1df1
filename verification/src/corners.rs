//! The chamfer and the fillet: which corners a click takes, when Enter can
//! cut them, and the values a cut is laid with.
//!
//! A click on a corner's point takes that corner, and a second click on it
//! drops it again. A click on a side names half a corner, which the next click
//! on the other side completes. Either way the values typed apply to every
//! corner taken, and Enter lays them all.

use vstd::prelude::*;

use crate::gathered::{Same, toggle, toggled};
use crate::model::{PointId, SegmentId};

verus! {

/// A corner, named by its point or by its two sides, the first side first.
#[derive(Clone, Copy, Debug, PartialEq, Eq, Hash, Structural)]
pub enum Corner {
    At(PointId),
    Between(SegmentId, SegmentId),
}

impl Same for Corner {
    fn same(&self, other: &Self) -> (r: bool) {
        *self == *other
    }
}

/// How a chamfer is measured.
#[derive(Clone, Copy, Debug, PartialEq, Eq, Hash, Structural)]
pub enum ChamferMode {
    /// The same distance along both sides.
    Equal,
    /// A distance along the first side and an angle.
    Angled,
    /// A distance along each side.
    Sided,
}

/// The tool in hand.
#[derive(Clone, Copy, Debug, PartialEq, Eq, Hash, Structural)]
pub enum CornerTool {
    Chamfer,
    Fillet,
}

/// How many values a mode needs.
pub open spec fn wants_spec(mode: ChamferMode) -> nat {
    match mode {
        ChamferMode::Equal => 1,
        _ => 2,
    }
}

impl ChamferMode {
    pub fn wants(self) -> (n: usize)
        ensures
            n == wants_spec(self),
    {
        match self {
            ChamferMode::Equal => 1,
            _ => 2,
        }
    }
}

/// A cut, with the values it is laid with.
#[derive(Clone, Copy, Debug, PartialEq)]
pub enum Chamfer<T> {
    Equal(T),
    Sided { first: T, second: T },
    Angled { along: T, degrees: T },
}

/// The two values typed into the fields, when they have been.
#[derive(Clone, Copy, Debug, PartialEq)]
pub struct LockedInput<T> {
    pub first: Option<T>,
    pub second: Option<T>,
}

/// A mode's cut from the two values it reads.
pub open spec fn of_spec<T>(mode: ChamferMode, first: T, second: T) -> Chamfer<T> {
    match mode {
        ChamferMode::Equal => Chamfer::Equal(first),
        ChamferMode::Angled => Chamfer::Angled { along: first, degrees: second },
        ChamferMode::Sided => Chamfer::Sided { first, second },
    }
}

pub fn of<T: Copy>(mode: ChamferMode, first: T, second: T) -> (r: Chamfer<T>)
    ensures
        r == of_spec(mode, first, second),
{
    match mode {
        ChamferMode::Equal => Chamfer::Equal(first),
        ChamferMode::Angled => Chamfer::Angled { along: first, degrees: second },
        ChamferMode::Sided => Chamfer::Sided { first, second },
    }
}

/// The values the tool needs, once they have all been typed. A fillet asks for
/// a radius and nothing else, whichever mode the chamfer beside it is in; a
/// mode asking one value takes it for both sides.
pub open spec fn typed_spec<T>(locked: LockedInput<T>, mode: ChamferMode, rounding: bool) -> Option<
    Chamfer<T>,
> {
    match locked.first {
        None => None,
        Some(first) => if rounding {
            Some(Chamfer::Equal(first))
        } else if wants_spec(mode) == 1 {
            Some(of_spec(mode, first, first))
        } else {
            match locked.second {
                Some(second) => Some(of_spec(mode, first, second)),
                None => None,
            }
        },
    }
}

pub fn typed<T: Copy>(locked: LockedInput<T>, mode: ChamferMode, rounding: bool) -> (r: Option<
    Chamfer<T>,
>)
    ensures
        r == typed_spec(locked, mode, rounding),
{
    let first = match locked.first {
        Some(first) => first,
        None => return None,
    };
    if rounding {
        return Some(Chamfer::Equal(first));
    }
    if mode.wants() == 1 {
        Some(of(mode, first, first))
    } else {
        match locked.second {
            Some(second) => Some(of(mode, first, second)),
            None => None,
        }
    }
}

/// What the corner tools say.
#[derive(Clone, Copy, Debug, PartialEq, Eq, Hash, Structural)]
pub enum CornerPrompt {
    ClickACornerToRound,
    ClickACornerToCut,
    ClickOneSideThenTheOther,
    ClickACorner,
    ClickTheOtherSide,
    ChamferNeedsACorner,
    CornerHasTooManyTraits,
    FilletAsksARadius,
    ChamferAsksADistance,
    ChamferAsksADistanceAndAnAngle,
    ChamferAsksTwoDistances,
    ChamferTooLong,
}

/// The key of the sentence a prompt is said with.
pub open spec fn prompt_key(prompt: CornerPrompt) -> Seq<char> {
    match prompt {
        CornerPrompt::ClickACornerToRound => "sketch.click_a_corner_to_round"@,
        CornerPrompt::ClickACornerToCut => "sketch.click_a_corner_to_cut"@,
        CornerPrompt::ClickOneSideThenTheOther => "sketch.click_one_side_then_the_other"@,
        CornerPrompt::ClickACorner => "sketch.click_a_corner"@,
        CornerPrompt::ClickTheOtherSide => "sketch.click_the_other_side"@,
        CornerPrompt::ChamferNeedsACorner => "sketch.chamfer_needs_a_corner"@,
        CornerPrompt::CornerHasTooManyTraits => "sketch.corner_has_too_many_traits"@,
        CornerPrompt::FilletAsksARadius => "sketch.fillet_asks_a_radius"@,
        CornerPrompt::ChamferAsksADistance => "sketch.chamfer_asks_a_distance"@,
        CornerPrompt::ChamferAsksADistanceAndAnAngle => "sketch.chamfer_asks_a_distance_and_an_angle"@,
        CornerPrompt::ChamferAsksTwoDistances => "sketch.chamfer_asks_two_distances"@,
        CornerPrompt::ChamferTooLong => "sketch.chamfer_too_long"@,
    }
}

impl CornerPrompt {
    pub fn key(self) -> (k: &'static str)
        ensures
            k@ == prompt_key(self),
    {
        match self {
            CornerPrompt::ClickACornerToRound => "sketch.click_a_corner_to_round",
            CornerPrompt::ClickACornerToCut => "sketch.click_a_corner_to_cut",
            CornerPrompt::ClickOneSideThenTheOther => "sketch.click_one_side_then_the_other",
            CornerPrompt::ClickACorner => "sketch.click_a_corner",
            CornerPrompt::ClickTheOtherSide => "sketch.click_the_other_side",
            CornerPrompt::ChamferNeedsACorner => "sketch.chamfer_needs_a_corner",
            CornerPrompt::CornerHasTooManyTraits => "sketch.corner_has_too_many_traits",
            CornerPrompt::FilletAsksARadius => "sketch.fillet_asks_a_radius",
            CornerPrompt::ChamferAsksADistance => "sketch.chamfer_asks_a_distance",
            CornerPrompt::ChamferAsksADistanceAndAnAngle => "sketch.chamfer_asks_a_distance_and_an_angle",
            CornerPrompt::ChamferAsksTwoDistances => "sketch.chamfer_asks_two_distances",
            CornerPrompt::ChamferTooLong => "sketch.chamfer_too_long",
        }
    }
}

/// What the tool asks for the moment it is picked, or its mode changed: a
/// tool that takes a corner by its point says so; one that needs a first side
/// named asks for a side and then the other.
pub open spec fn picks_with_spec(tool: CornerTool, mode: ChamferMode) -> CornerPrompt {
    match (tool, mode) {
        (CornerTool::Fillet, _) => CornerPrompt::ClickACornerToRound,
        (_, ChamferMode::Equal) => CornerPrompt::ClickACornerToCut,
        _ => CornerPrompt::ClickOneSideThenTheOther,
    }
}

pub fn picks_with(tool: CornerTool, mode: ChamferMode) -> (r: CornerPrompt)
    ensures
        r == picks_with_spec(tool, mode),
{
    match (tool, mode) {
        (CornerTool::Fillet, _) => CornerPrompt::ClickACornerToRound,
        (_, ChamferMode::Equal) => CornerPrompt::ClickACornerToCut,
        _ => CornerPrompt::ClickOneSideThenTheOther,
    }
}

/// Whether the tool names a corner by one click on its point. The chamfer in
/// distance and angle, or in two distances, measures from the side named
/// first, and a corner taken by its point has none to give; a fillet has no
/// such side, and neither has the chamfer in equal distances.
pub open spec fn takes_a_point_spec(tool: CornerTool, mode: ChamferMode) -> bool {
    tool == CornerTool::Fillet || mode == ChamferMode::Equal
}

pub fn takes_a_point(tool: CornerTool, mode: ChamferMode) -> (r: bool)
    ensures
        r == takes_a_point_spec(tool, mode),
{
    tool == CornerTool::Fillet || mode == ChamferMode::Equal
}

/// What one click names, for a tool that cuts corners.
#[derive(Clone, Copy, Debug, PartialEq, Eq, Hash, Structural)]
pub enum CornerClick {
    /// A point where exactly two traits meet: one click names the whole
    /// corner.
    Corner(Corner),
    /// A point too crowded to name a corner on its own.
    Crowded,
    /// A side of a corner, waiting for the other to be clicked.
    Side(SegmentId),
    /// Nothing the tool can use.
    Nothing,
}

/// What the click under the cursor names.
///
/// A point is read before a trait, because a point is the smaller target and
/// the one the user aimed at when they hit it — when the tool takes points at
/// all (`by_point`). Only a crowd at a point is worth explaining: a point
/// where one trait simply ends is not a corner anybody was promised, and the
/// trait under the cursor is still worth naming.
pub open spec fn clicked_spec(
    by_point: bool,
    point: Option<PointId>,
    is_corner: bool,
    traits_at_point: nat,
    segment: Option<SegmentId>,
) -> CornerClick {
    if by_point && point is Some && is_corner {
        CornerClick::Corner(Corner::At(point->0))
    } else if by_point && point is Some && traits_at_point > 2 {
        CornerClick::Crowded
    } else {
        match segment {
            Some(side) => CornerClick::Side(side),
            None => CornerClick::Nothing,
        }
    }
}

pub fn clicked(
    by_point: bool,
    point: Option<PointId>,
    is_corner: bool,
    traits_at_point: usize,
    segment: Option<SegmentId>,
) -> (r: CornerClick)
    ensures
        r == clicked_spec(by_point, point, is_corner, traits_at_point as nat, segment),
{
    if by_point {
        if let Some(p) = point {
            if is_corner {
                return CornerClick::Corner(Corner::At(p));
            }
            if traits_at_point > 2 {
                return CornerClick::Crowded;
            }
        }
    }
    match segment {
        Some(side) => CornerClick::Side(side),
        None => CornerClick::Nothing,
    }
}

/// What the corner tools hold between clicks: the corners taken, and half a
/// corner when a side is waiting for its other.
#[derive(Clone, Debug, PartialEq, Eq)]
pub struct CornerState {
    pub taken: Vec<Corner>,
    pub half: Option<SegmentId>,
}

/// What happens to the value fields after a click.
#[derive(Clone, Copy, Debug, PartialEq, Eq, Hash, Structural)]
pub enum Field {
    /// Opened afresh: nothing was being typed yet.
    Open,
    /// The keyboard goes back to them, and what was typed stays: a value
    /// typed for the first corner is meant for the next.
    KeepTyping,
}

/// The side a click on `side` names, when `half` is already waiting: a click
/// on the corner itself finds whichever trait the drawing holds first, and the
/// same one every time, so with one already named, `other` — the other trait
/// at the point under the cursor — is the only choice left.
pub open spec fn resolved_side_spec(half: Option<SegmentId>, side: SegmentId, other: Option<
    SegmentId,
>) -> SegmentId {
    if half == Some(side) {
        match other {
            Some(o) => o,
            None => side,
        }
    } else {
        side
    }
}

pub fn resolved_side(half: Option<SegmentId>, side: SegmentId, other: Option<SegmentId>) -> (r:
    SegmentId)
    ensures
        r == resolved_side_spec(half, side, other),
{
    if half == Some(side) {
        match other {
            Some(o) => o,
            None => side,
        }
    } else {
        side
    }
}

/// What one click of a corner tool comes to.
#[derive(Clone, Copy, Debug, PartialEq, Eq, Hash, Structural)]
pub enum CornerStep {
    /// A corner was taken or dropped; this many are now taken.
    Taken { count: usize, field: Field },
    /// One side is named, and the other is asked for.
    OtherSide { field: Field },
    /// The two sides named do not meet.
    NeedsACorner,
    /// The point clicked holds too many traits to name a corner.
    Crowded,
    /// The click names nothing.
    Nothing,
}

/// The field action that follows a click: opened when nothing was being
/// typed yet (`fresh`), the keyboard handed back otherwise.
pub open spec fn field_after(fresh: bool) -> Field {
    if fresh {
        Field::Open
    } else {
        Field::KeepTyping
    }
}

/// One click of the chamfer or the fillet.
///
/// `side` is the click resolved by `resolved_side`, and `shared` whether it
/// and the side already waiting meet at a point. A click never lays: the
/// values typed are meant for every corner the gesture names.
pub fn corner_click(
    state: &mut CornerState,
    click: CornerClick,
    side: SegmentId,
    shared: bool,
    fresh: bool,
) -> (step: CornerStep)
    ensures
        match click {
            CornerClick::Corner(corner) => {
                &&& final(state).taken@ == toggled(old(state).taken@, corner)
                &&& final(state).half is None
                &&& step == (CornerStep::Taken {
                    count: final(state).taken@.len() as usize,
                    field: field_after(fresh),
                })
            },
            CornerClick::Side(_) => match old(state).half {
                Some(first) => if first != side {
                    if shared {
                        &&& final(state).taken@ == toggled(
                            old(state).taken@,
                            Corner::Between(first, side),
                        )
                        &&& final(state).half is None
                        &&& step == (CornerStep::Taken {
                            count: final(state).taken@.len() as usize,
                            field: field_after(fresh),
                        })
                    } else {
                        *final(state) == *old(state) && step == CornerStep::NeedsACorner
                    }
                } else {
                    &&& final(state).taken@ == old(state).taken@
                    &&& final(state).half == Some(side)
                    &&& step == (CornerStep::OtherSide { field: field_after(fresh) })
                },
                None => {
                    &&& final(state).taken@ == old(state).taken@
                    &&& final(state).half == Some(side)
                    &&& step == (CornerStep::OtherSide { field: field_after(fresh) })
                },
            },
            CornerClick::Crowded => *final(state) == *old(state) && step == CornerStep::Crowded,
            CornerClick::Nothing => *final(state) == *old(state) && step == CornerStep::Nothing,
        },
{
    let field = if fresh {
        Field::Open
    } else {
        Field::KeepTyping
    };
    match click {
        CornerClick::Corner(corner) => {
            toggle(&mut state.taken, corner);
            state.half = None;
            CornerStep::Taken { count: state.taken.len(), field }
        },
        CornerClick::Side(_) => {
            match state.half {
                Some(first) => {
                    if first != side {
                        if shared {
                            toggle(&mut state.taken, Corner::Between(first, side));
                            state.half = None;
                            return CornerStep::Taken { count: state.taken.len(), field };
                        } else {
                            return CornerStep::NeedsACorner;
                        }
                    }
                },
                None => {},
            }
            state.half = Some(side);
            CornerStep::OtherSide { field }
        },
        CornerClick::Crowded => CornerStep::Crowded,
        CornerClick::Nothing => CornerStep::Nothing,
    }
}

/// What Enter has to work with, for a tool that cuts corners.
#[derive(Clone, Copy, Debug, PartialEq, Eq, Hash, Structural)]
pub enum CornerEnter {
    /// At least one corner is taken: the key finishes what the clicks began.
    Cut,
    /// Not yet, and what is still missing.
    Waiting(CornerPrompt),
}

/// What Enter does for the chamfer and the fillet: it cuts as soon as one
/// corner is taken — a side clicked by mistake does not hold back the corners
/// already taken — and otherwise says what the tool waits for, rather than
/// being handed on to a tool that would drop the side already clicked.
pub open spec fn on_enter_spec(taken: Seq<Corner>, half: Option<SegmentId>) -> CornerEnter {
    if taken.len() > 0 {
        CornerEnter::Cut
    } else if half is Some {
        CornerEnter::Waiting(CornerPrompt::ClickTheOtherSide)
    } else {
        CornerEnter::Waiting(CornerPrompt::ClickACorner)
    }
}

pub fn on_enter(state: &CornerState) -> (r: CornerEnter)
    ensures
        r == on_enter_spec(state.taken@, state.half),
{
    if state.taken.len() > 0 {
        CornerEnter::Cut
    } else if state.half.is_some() {
        CornerEnter::Waiting(CornerPrompt::ClickTheOtherSide)
    } else {
        CornerEnter::Waiting(CornerPrompt::ClickACorner)
    }
}

/// The step that lays every corner taken: a fillet of the radius typed, or a
/// chamfer as asked.
#[derive(Clone, Debug, PartialEq)]
pub enum Laying<T> {
    Fillet { corners: Vec<Corner>, radius: T },
    Chamfer { corners: Vec<Corner>, mode: Chamfer<T> },
}

/// What Enter comes to, once it cuts.
#[derive(Clone, Debug, PartialEq)]
pub enum Cut<T> {
    /// Nothing is taken yet.
    NothingTaken,
    /// The values are missing: what is held is kept, and the keyboard goes
    /// back to the fields.
    AsksFor(CornerPrompt),
    /// Every corner taken is laid at once; whether each of them fits is the
    /// drawing's business, and a corner too tight is counted and said rather
    /// than stopping the rest.
    Lay(Laying<T>),
}

/// What a mode asks for when its values are missing.
pub open spec fn asks_for_spec(mode: ChamferMode, rounding: bool) -> CornerPrompt {
    if rounding {
        CornerPrompt::FilletAsksARadius
    } else {
        match mode {
            ChamferMode::Equal => CornerPrompt::ChamferAsksADistance,
            ChamferMode::Angled => CornerPrompt::ChamferAsksADistanceAndAnAngle,
            ChamferMode::Sided => CornerPrompt::ChamferAsksTwoDistances,
        }
    }
}

pub fn asks_for(mode: ChamferMode, rounding: bool) -> (r: CornerPrompt)
    ensures
        r == asks_for_spec(mode, rounding),
{
    if rounding {
        CornerPrompt::FilletAsksARadius
    } else {
        match mode {
            ChamferMode::Equal => CornerPrompt::ChamferAsksADistance,
            ChamferMode::Angled => CornerPrompt::ChamferAsksADistanceAndAnAngle,
            ChamferMode::Sided => CornerPrompt::ChamferAsksTwoDistances,
        }
    }
}

/// Cuts or rounds every corner taken, or says what is still missing.
pub fn cut<T: Copy>(taken: Vec<Corner>, locked: LockedInput<T>, mode: ChamferMode, rounding: bool) -> (r: Cut<T>)
    ensures
        taken@.len() == 0 ==> r == Cut::<T>::NothingTaken,
        taken@.len() > 0 ==> match typed_spec(locked, mode, rounding) {
            None => r == Cut::<T>::AsksFor(asks_for_spec(mode, rounding)),
            Some(Chamfer::Equal(radius)) => if rounding {
                r matches Cut::Lay(Laying::Fillet { corners, radius: given }) && corners@
                    == taken@ && given == radius
            } else {
                r matches Cut::Lay(Laying::Chamfer { corners, mode: given }) && corners@
                    == taken@ && given == Chamfer::Equal(radius)
            },
            Some(asked) => r matches Cut::Lay(Laying::Chamfer { corners, mode: given })
                && corners@ == taken@ && given == asked,
        },
{
    if taken.len() == 0 {
        return Cut::NothingTaken;
    }
    match typed(locked, mode, rounding) {
        None => Cut::AsksFor(asks_for(mode, rounding)),
        Some(asked) => match (rounding, asked) {
            (true, Chamfer::Equal(radius)) => Cut::Lay(Laying::Fillet { corners: taken, radius }),
            _ => Cut::Lay(Laying::Chamfer { corners: taken, mode: asked }),
        },
    }
}

/// The sides of the corner the plain chamfer's two clicks named, when both
/// have been taken: one side is half a corner, and Enter has nothing to cut.
pub fn corner_held(sides: &Vec<SegmentId>) -> (r: Option<(SegmentId, SegmentId)>)
    ensures
        r == if sides@.len() == 2 {
            Some((sides@[0], sides@[1]))
        } else {
            None
        },
{
    if sides.len() == 2 {
        Some((sides[0], sides[1]))
    } else {
        None
    }
}

/// What one click of the plain chamfer does: the first names a side of the
/// corner and asks for the other, the second names the other and cuts.
#[derive(Clone, Copy, Debug, PartialEq, Eq, Hash, Structural)]
pub enum ChamferClick {
    FirstSide(SegmentId),
    Cut { first: SegmentId, second: SegmentId },
}

/// A click on the side already held starts again from it rather than
/// cutting a corner of nothing.
pub fn chamfer_click(sides: &Vec<SegmentId>, picked: SegmentId) -> (r: ChamferClick)
    ensures
        r == if sides@.len() > 0 && sides@[0] != picked {
            ChamferClick::Cut { first: sides@[0], second: picked }
        } else {
            ChamferClick::FirstSide(picked)
        },
{
    if sides.len() > 0 && sides[0] != picked {
        ChamferClick::Cut { first: sides[0], second: picked }
    } else {
        ChamferClick::FirstSide(picked)
    }
}

/// What the plain chamfer makes of two sides.
#[derive(Clone, Copy, Debug, PartialEq)]
pub enum ChamferCut<T> {
    /// They do not meet: the first side is kept, and the tool says so.
    NeedsACorner,
    /// The values are missing: both sides are kept, so typing them and
    /// pressing Enter finishes what the two clicks already said.
    AsksFor(CornerPrompt),
    /// The cut does not fit the corner.
    TooLong,
    /// The cut to lay.
    Lay(Chamfer<T>),
}

/// `corner` is whether the two sides meet, and `fits` whether the cut typed
/// fits the corner as the drawing measures it.
pub fn chamfer_cut<T: Copy>(corner: bool, locked: LockedInput<T>, mode: ChamferMode, fits: bool) -> (r:
    ChamferCut<T>)
    ensures
        r == if !corner {
            ChamferCut::<T>::NeedsACorner
        } else {
            match typed_spec(locked, mode, false) {
                None => ChamferCut::<T>::AsksFor(asks_for_spec(mode, false)),
                Some(asked) => if fits {
                    ChamferCut::Lay(asked)
                } else {
                    ChamferCut::<T>::TooLong
                },
            }
        },
{
    if !corner {
        return ChamferCut::NeedsACorner;
    }
    match typed(locked, mode, false) {
        None => ChamferCut::AsksFor(asks_for(mode, false)),
        Some(asked) => if fits {
            ChamferCut::Lay(asked)
        } else {
            ChamferCut::TooLong
        },
    }
}

/// The corners a preview shows: those taken, and the half corner the trait
/// under the cursor would complete — when it is another trait than the one
/// waiting. Nothing when that leaves nothing to show.
pub open spec fn shown_spec(taken: Seq<Corner>, half: Option<SegmentId>, under: Option<SegmentId>) -> Option<
    Seq<Corner>,
> {
    let shown = match (half, under) {
        (Some(first), Some(second)) => if second != first {
            taken.push(Corner::Between(first, second))
        } else {
            taken
        },
        _ => taken,
    };
    if shown.len() == 0 {
        None
    } else {
        Some(shown)
    }
}

pub fn shown(state: &CornerState, under: Option<SegmentId>) -> (r: Option<Vec<Corner>>)
    ensures
        match shown_spec(state.taken@, state.half, under) {
            Some(corners) => r matches Some(v) && v@ == corners,
            None => r is None,
        },
{
    let mut shown = state.taken.clone();
    proof {
        assert(shown@ =~= state.taken@);
    }
    match (state.half, under) {
        (Some(first), Some(second)) => if second != first {
            shown.push(Corner::Between(first, second));
        },
        _ => {},
    }
    if shown.len() == 0 {
        None
    } else {
        Some(shown)
    }
}

/// What the drawing answers, on a trial copy, for one corner a preview shows.
#[derive(Clone, Copy, Debug, PartialEq, Eq, Hash, Structural)]
pub enum CornerAnswer {
    /// It finds no two sides for the corner.
    NoSides,
    /// It refuses the cut there: the cut does not fit.
    Refused,
    /// It lays the cut.
    Laid,
}

/// The corners a preview lays, in the order shown, once the values are typed
/// (`asked`): a corner whose sides the drawing does not find is passed over,
/// and so is one the value does not fit — the gesture lays the others and
/// says how many it turned away. Only a fillet asked in any mode but equal
/// distances, at a corner with two sides, shows nothing at all: a fillet has
/// a radius and nothing else.
pub open spec fn previewed_corners<T>(answers: Seq<(Corner, CornerAnswer)>, asked: Chamfer<T>, rounding: bool) -> Option<
    Seq<Corner>,
>
    decreases answers.len(),
{
    if answers.len() == 0 {
        Some(Seq::empty())
    } else {
        match previewed_corners(answers.drop_last(), asked, rounding) {
            None => None,
            Some(done) => {
                let (corner, answer) = answers.last();
                if answer == CornerAnswer::NoSides {
                    Some(done)
                } else if rounding && !(asked is Equal) {
                    None
                } else if answer == CornerAnswer::Refused {
                    Some(done)
                } else {
                    Some(done.push(corner))
                }
            },
        }
    }
}

/// The corners a preview lays: nothing until the values are typed.
pub open spec fn preview_spec<T>(answers: Seq<(Corner, CornerAnswer)>, asked: Option<Chamfer<T>>, rounding: bool) -> Option<
    Seq<Corner>,
> {
    match asked {
        None => None,
        Some(asked) => previewed_corners(answers, asked, rounding),
    }
}

pub fn preview<T: Copy>(answers: &Vec<(Corner, CornerAnswer)>, asked: Option<Chamfer<T>>, rounding: bool) -> (r:
    Option<Vec<Corner>>)
    ensures
        match preview_spec(answers@, asked, rounding) {
            Some(corners) => r matches Some(v) && v@ == corners,
            None => r is None,
        },
{
    let cut = match asked {
        Some(a) => a,
        None => return None,
    };
    let fillet_of_another_mode = rounding && match cut {
        Chamfer::Equal(_) => false,
        _ => true,
    };
    let mut laid: Vec<Corner> = Vec::new();
    let mut i: usize = 0;
    while i < answers.len()
        invariant
            i <= answers.len(),
            asked == Some(cut),
            fillet_of_another_mode == (rounding && !(cut is Equal)),
            previewed_corners(answers@.take(i as int), cut, rounding) == Some(laid@),
        decreases answers.len() - i,
    {
        let (corner, answer) = answers[i];
        proof {
            assert(answers@.take(i + 1).drop_last() =~= answers@.take(i as int));
            assert(answers@.take(i + 1).last() == (corner, answer));
        }
        match answer {
            CornerAnswer::NoSides => {},
            _ => {
                if fillet_of_another_mode {
                    proof {
                        lemma_no_preview_stays_none(answers@, cut, rounding, i as int + 1);
                    }
                    return None;
                }
                match answer {
                    CornerAnswer::Laid => laid.push(corner),
                    _ => {},
                }
            },
        }
        i += 1;
    }
    proof {
        assert(answers@.take(answers.len() as int) =~= answers@);
    }
    Some(laid)
}

/// Once a prefix of the answers shows nothing, the whole shows nothing.
proof fn lemma_no_preview_stays_none<T>(answers: Seq<(Corner, CornerAnswer)>, asked: Chamfer<T>, rounding: bool, k: int)
    requires
        0 <= k <= answers.len(),
        previewed_corners(answers.take(k), asked, rounding) is None,
    ensures
        previewed_corners(answers, asked, rounding) is None,
    decreases answers.len() - k,
{
    if k < answers.len() {
        assert(answers.take(k + 1).drop_last() =~= answers.take(k));
        lemma_no_preview_stays_none(answers, asked, rounding, k + 1);
    } else {
        assert(answers.take(k) =~= answers);
    }
}

/// A corner tool never holds one corner twice: every click keeps the corners
/// taken free of repeats, taking a corner it did not hold and dropping one it
/// did.
pub proof fn lemma_corners_never_repeat(taken: Seq<Corner>, corner: Corner)
    requires
        crate::gathered::distinct(taken),
    ensures
        crate::gathered::distinct(toggled(taken, corner)),
        toggled(taken, corner).contains(corner) == !taken.contains(corner),
{
    crate::gathered::lemma_toggle_flips(taken, corner);
}

/// The values typed make the cut the mode names: a fillet is rounded to the
/// first value whatever the chamfer's mode; equal distances take the first
/// value for both sides; distance and angle take the distance first; two
/// distances take them in the order typed. Nothing is cut before the first
/// value is typed, nor, in a mode asking two, before the second.
pub proof fn lemma_the_cut_the_mode_names<T>(first: T, second: T, mode: ChamferMode)
    ensures
        typed_spec(LockedInput { first: Some(first), second: None }, mode, true) == Some(
            Chamfer::Equal(first),
        ),
        typed_spec(LockedInput { first: Some(first), second: Some(second) }, ChamferMode::Equal, false)
            == Some(Chamfer::Equal(first)),
        typed_spec(LockedInput { first: Some(first), second: Some(second) }, ChamferMode::Angled, false)
            == Some(Chamfer::Angled { along: first, degrees: second }),
        typed_spec(LockedInput { first: Some(first), second: Some(second) }, ChamferMode::Sided, false)
            == Some(Chamfer::Sided { first, second }),
        typed_spec(LockedInput::<T> { first: None, second: Some(second) }, mode, false) is None,
        typed_spec(LockedInput::<T> { first: None, second: Some(second) }, mode, true) is None,
        mode != ChamferMode::Equal ==> typed_spec(
            LockedInput { first: Some(first), second: None },
            mode,
            false,
        ) is None,
{
}

} // verus!
