//! The tools that draw a shape one click at a time: what each click keeps,
//! and when enough of the shape is known to draw it.
//!
//! Where the clicks land is the drawing's business; which of them a shape
//! still waits for is the tool's.

use vstd::prelude::*;

use crate::gathered::holds;
use crate::model::{Constraint, PointId, SegmentId};

verus! {

/// The ways of drawing a circle.
#[derive(Clone, Copy, Debug, PartialEq, Eq, Hash, Structural)]
pub enum CircleMode {
    /// A centre, then a point of the rim.
    Center,
    /// Two ends of a diameter.
    TwoPoints,
    /// Three points of the rim.
    ThreePoints,
    /// Two traits it touches, then where its centre goes.
    TwoTangents,
    /// Three traits it touches.
    ThreeTangents,
}

/// How many clicks a circle takes, the last one included.
pub open spec fn circle_wants(mode: CircleMode) -> nat {
    match mode {
        CircleMode::Center => 2,
        CircleMode::TwoPoints => 2,
        CircleMode::ThreePoints => 3,
        CircleMode::TwoTangents => 3,
        CircleMode::ThreeTangents => 3,
    }
}

/// Whether a circle is drawn against traits rather than through places.
pub open spec fn touches_traits(mode: CircleMode) -> bool {
    mode == CircleMode::TwoTangents || mode == CircleMode::ThreeTangents
}

impl CircleMode {
    pub fn wants(self) -> (n: usize)
        ensures
            n == circle_wants(self),
    {
        match self {
            CircleMode::Center | CircleMode::TwoPoints => 2,
            _ => 3,
        }
    }

    pub fn touches_traits(self) -> (r: bool)
        ensures
            r == touches_traits(self),
    {
        match self {
            CircleMode::TwoTangents | CircleMode::ThreeTangents => true,
            _ => false,
        }
    }
}

/// What the circle tool holds between clicks: the places clicked and the
/// traits pointed at.
#[derive(Clone, Debug, PartialEq)]
pub struct CircleState<P> {
    pub places: Vec<P>,
    pub segments: Vec<SegmentId>,
}

/// What one click of the circle tool comes to.
#[derive(Clone, Copy, Debug, PartialEq, Eq, Hash, Structural)]
pub enum CircleStep {
    /// A trait was wanted and none is under the cursor.
    NeedsSegment,
    /// The trait under the cursor is already one of those pointed at.
    AlreadyPicked,
    /// The click was kept, and the tool asks for the next.
    Kept,
    /// Enough is known: the circle can be drawn from what is held and the
    /// cursor.
    Ready,
}

/// One click of the circle tool: a trait, a place, or the last click of the
/// circle. Only what was held before it and what the mode wants decide which.
pub fn circle_click<P>(state: &mut CircleState<P>, mode: CircleMode, cursor: P, segment: Option<
    SegmentId,
>) -> (step: CircleStep)
    ensures
        touches_traits(mode) && old(state).segments@.len() + 1 < circle_wants(mode) ==> match segment {
            None => step == CircleStep::NeedsSegment && *final(state) == *old(state),
            Some(s) => if old(state).segments@.contains(s) {
                step == CircleStep::AlreadyPicked && *final(state) == *old(state)
            } else {
                step == CircleStep::Kept && final(state).segments@ == old(state).segments@.push(s)
                    && final(state).places == old(state).places
            },
        },
        !touches_traits(mode) && old(state).places@.len() + 1 < circle_wants(mode) ==> step
            == CircleStep::Kept && final(state).places@ == old(state).places@.push(cursor)
            && final(state).segments == old(state).segments,
        !(touches_traits(mode) && old(state).segments@.len() + 1 < circle_wants(mode)) && !(
        !touches_traits(mode) && old(state).places@.len() + 1 < circle_wants(mode)) ==> step
            == CircleStep::Ready && *final(state) == *old(state),
{
    let wants = mode.wants();
    if mode.touches_traits() && state.segments.len() < wants - 1 {
        return match segment {
            None => CircleStep::NeedsSegment,
            Some(s) => if holds(&state.segments, s) {
                CircleStep::AlreadyPicked
            } else {
                state.segments.push(s);
                CircleStep::Kept
            },
        };
    }
    if !mode.touches_traits() && state.places.len() < wants - 1 {
        state.places.push(cursor);
        return CircleStep::Kept;
    }
    CircleStep::Ready
}

/// The traits a circle drawn against them stays against: those pointed at,
/// and for a circle touching three, the one under the cursor at the last
/// click, which holds it just as much as the other two.
pub open spec fn touched_spec(segments: Seq<SegmentId>, mode: CircleMode, last: Option<SegmentId>) -> Seq<
    SegmentId,
> {
    match last {
        Some(l) => if mode == CircleMode::ThreeTangents && !segments.contains(l) {
            segments.push(l)
        } else {
            segments
        },
        None => segments,
    }
}

/// Once the circle is drawn, the tool lets go of everything it held, and
/// hands back the places clicked and the traits the circle touches.
pub fn circle_drawn<P>(state: &mut CircleState<P>, mode: CircleMode, last: Option<SegmentId>) -> (r: (
    Vec<P>,
    Vec<SegmentId>,
))
    ensures
        r.0 == old(state).places,
        r.1@ == touched_spec(old(state).segments@, mode, last),
        final(state).places@.len() == 0,
        final(state).segments@.len() == 0,
{
    let mut places: Vec<P> = Vec::new();
    let mut touched: Vec<SegmentId> = Vec::new();
    std::mem::swap(&mut places, &mut state.places);
    std::mem::swap(&mut touched, &mut state.segments);
    if mode == CircleMode::ThreeTangents {
        if let Some(l) = last {
            if !holds(&touched, l) {
                touched.push(l);
            }
        }
    }
    (places, touched)
}

/// A circle is always drawn against distinct traits: pointing at a trait
/// already pointed at keeps nothing, and the last one joins only when it is
/// new.
pub proof fn lemma_touched_distinct(segments: Seq<SegmentId>, mode: CircleMode, last: Option<SegmentId>)
    requires
        crate::gathered::distinct(segments),
    ensures
        crate::gathered::distinct(touched_spec(segments, mode, last)),
{
    if let Some(l) = last {
        if mode == CircleMode::ThreeTangents && !segments.contains(l) {
            let t = segments.push(l);
            assert forall|a: int, b: int|
                0 <= a < t.len() && 0 <= b < t.len() && a != b implies t[a] != t[b] by {
                if a == segments.len() && t[a] == t[b] {
                    assert(segments[b] == l);
                }
                if b == segments.len() && t[a] == t[b] {
                    assert(segments[a] == l);
                }
            }
        }
    }
}

/// One click of a tool that gathers places until it has all but the last —
/// the arc and the ellipse. The place is kept when the shape still waits for
/// another after it; otherwise the shape is drawn from what is held and this
/// click, and the answer is false.
pub fn place_kept<P>(places: &mut Vec<P>, wants: usize, cursor: P) -> (kept: bool)
    ensures
        kept == (old(places)@.len() + 1 < wants),
        kept ==> final(places)@ == old(places)@.push(cursor),
        !kept ==> final(places)@ == old(places)@,
{
    if places.len() < wants && places.len() + 1 < wants {
        places.push(cursor);
        true
    } else {
        false
    }
}

/// What the first click of a two-click shape keeps, and what the second
/// draws: the corner it started from, or nothing for a click on the very
/// place it started (`stray`), which is not a drawing.
#[derive(Clone, Copy, Debug, PartialEq)]
pub enum TwoClick<P> {
    Started(P),
    Stray,
    Drawn { start: P, end: P },
}

pub fn two_click<P: Copy>(start: &mut Option<P>, cursor: P, stray: bool) -> (r: TwoClick<P>)
    ensures
        match *old(start) {
            None => r == TwoClick::Started(cursor) && *final(start) == Some(cursor),
            Some(s) => if stray {
                r == TwoClick::<P>::Stray && *final(start) == Some(s)
            } else {
                r == (TwoClick::Drawn { start: s, end: cursor }) && *final(start) is None
            },
        },
{
    match *start {
        None => {
            *start = Some(cursor);
            TwoClick::Started(cursor)
        },
        Some(s) => if stray {
            TwoClick::Stray
        } else {
            *start = None;
            TwoClick::Drawn { start: s, end: cursor }
        },
    }
}

/// An area chosen for matter is named by a place inside it, so the choice
/// still means the same thing after the drawing changes. A click on an area
/// takes it, or takes it back out when one of the places chosen already lies
/// in it (`already`, the first such).
pub fn choose_area<P>(picks: &mut Vec<P>, already: Option<usize>, cursor: P)
    requires
        already matches Some(i) ==> i < old(picks)@.len(),
    ensures
        match already {
            Some(i) => final(picks)@ == old(picks)@.remove(i as int),
            None => final(picks)@ == old(picks)@.push(cursor),
        },
{
    match already {
        Some(i) => {
            picks.remove(i);
        },
        None => {
            picks.push(cursor);
        },
    }
}

/// The point a trait just drawn springs from, as its middle: the first rule
/// holding a point halfway along it.
pub open spec fn sprung_from_spec(rules: Seq<Constraint>, drawn: SegmentId) -> Option<PointId>
    decreases rules.len(),
{
    if rules.len() == 0 {
        None
    } else {
        match rules[0] {
            Constraint::Midpoint { point, segment } => if segment == drawn {
                Some(point)
            } else {
                sprung_from_spec(rules.drop_first(), drawn)
            },
            _ => sprung_from_spec(rules.drop_first(), drawn),
        }
    }
}

/// Where a trait drawn from its middle leans its angle on an arm: the point
/// it springs from, when an angle was typed for it and the drawing holds it
/// by its middle.
pub fn arm_from(rules: &Vec<Constraint>, drawn: SegmentId, angle_typed: bool) -> (r: Option<
    PointId,
>)
    ensures
        r == if angle_typed {
            sprung_from_spec(rules@, drawn)
        } else {
            None
        },
{
    if !angle_typed {
        return None;
    }
    let mut i: usize = 0;
    assert(rules@.skip(0) =~= rules@);
    while i < rules.len()
        invariant
            angle_typed,
            i <= rules.len(),
            sprung_from_spec(rules@, drawn) == sprung_from_spec(rules@.skip(i as int), drawn),
        decreases rules.len() - i,
    {
        let rule = rules[i];
        proof {
            assert(rules@.skip(i as int).len() == rules@.len() - i);
            assert(rules@.skip(i as int)[0] == rule);
            assert(rules@.skip(i as int).drop_first() =~= rules@.skip(i as int + 1));
        }
        match rule {
            Constraint::Midpoint { point, segment } => if segment == drawn {
                return Some(point);
            },
            _ => {},
        }
        i += 1;
    }
    None
}

/// A circle takes as many clicks as what defines it: a centre and a point of
/// the rim, the two ends of a diameter, three points of the rim; two traits
/// it touches and where its centre goes; three traits it touches.
pub proof fn lemma_as_many_clicks_as_define_it()
    ensures
        circle_wants(CircleMode::Center) == 2,
        circle_wants(CircleMode::TwoPoints) == 2,
        circle_wants(CircleMode::ThreePoints) == 3,
        circle_wants(CircleMode::TwoTangents) == 3,
        circle_wants(CircleMode::ThreeTangents) == 3,
        touches_traits(CircleMode::TwoTangents),
        touches_traits(CircleMode::ThreeTangents),
        !touches_traits(CircleMode::Center),
        !touches_traits(CircleMode::TwoPoints),
        !touches_traits(CircleMode::ThreePoints),
{
}

} // verus!
