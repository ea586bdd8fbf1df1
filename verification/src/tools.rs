//! Which tool answers a click, a key or Escape, and the one-click tools that
//! cut the drawing: the trim and the split.

use vstd::prelude::*;

use crate::model::{CircleId, SegmentId};
use crate::rules::Rule;

verus! {

/// The tools of the sketch.
#[derive(Clone, Copy, Debug, PartialEq, Eq, Hash, Structural)]
pub enum Tool {
    /// No tool in hand.
    Idle,
    Select,
    Line,
    LineSymmetric,
    Point,
    Rectangle,
    Circle,
    Arc,
    Ellipse,
    Dimension,
    Measure,
    Trim,
    Split,
    Chamfer,
    Fillet,
    Mirror,
    CircularPattern,
    RectangularPattern,
    Constrain(Rule),
}

/// Which kind of state a tool is holding between clicks.
#[derive(Clone, Copy, Debug, PartialEq, Eq, Hash, Structural)]
pub enum Holding {
    Nothing,
    Line,
    SymmetricLine,
    Rectangle,
    Circle,
    Arc,
    Ellipse,
    Corner,
    /// Gathering what a copy is made of, or — once done — naming where it
    /// goes.
    Copying { naming_the_target: bool },
    Other,
}

/// What answers a click on the drawing.
#[derive(Clone, Copy, Debug, PartialEq, Eq, Hash, Structural)]
pub enum ClickAnswer {
    /// Nothing: the tool takes no click, or the selection tool, whose
    /// gestures are read apart.
    Nothing,
    LinePoint,
    SymmetricLinePoint,
    /// A point laid where the click fell, held on what it lands on.
    Point,
    TwoClickShape,
    Circle,
    Arc,
    Ellipse,
    Measure,
    Read,
    Trim,
    Split,
    Corner,
    Copy,
    Constrain(Rule),
}

pub open spec fn click_answer_spec(tool: Tool) -> ClickAnswer {
    match tool {
        Tool::Line => ClickAnswer::LinePoint,
        Tool::LineSymmetric => ClickAnswer::SymmetricLinePoint,
        Tool::Point => ClickAnswer::Point,
        Tool::Rectangle => ClickAnswer::TwoClickShape,
        Tool::Circle => ClickAnswer::Circle,
        Tool::Arc => ClickAnswer::Arc,
        Tool::Ellipse => ClickAnswer::Ellipse,
        Tool::Dimension => ClickAnswer::Measure,
        Tool::Measure => ClickAnswer::Read,
        Tool::Trim => ClickAnswer::Trim,
        Tool::Split => ClickAnswer::Split,
        Tool::Chamfer | Tool::Fillet => ClickAnswer::Corner,
        Tool::Mirror | Tool::CircularPattern | Tool::RectangularPattern => ClickAnswer::Copy,
        Tool::Constrain(rule) => ClickAnswer::Constrain(rule),
        Tool::Select | Tool::Idle => ClickAnswer::Nothing,
    }
}

/// The tool that answers a click.
pub fn click_answer(tool: Tool) -> (r: ClickAnswer)
    ensures
        r == click_answer_spec(tool),
{
    match tool {
        Tool::Line => ClickAnswer::LinePoint,
        Tool::LineSymmetric => ClickAnswer::SymmetricLinePoint,
        Tool::Point => ClickAnswer::Point,
        Tool::Rectangle => ClickAnswer::TwoClickShape,
        Tool::Circle => ClickAnswer::Circle,
        Tool::Arc => ClickAnswer::Arc,
        Tool::Ellipse => ClickAnswer::Ellipse,
        Tool::Dimension => ClickAnswer::Measure,
        Tool::Measure => ClickAnswer::Read,
        Tool::Trim => ClickAnswer::Trim,
        Tool::Split => ClickAnswer::Split,
        Tool::Chamfer | Tool::Fillet => ClickAnswer::Corner,
        Tool::Mirror | Tool::CircularPattern | Tool::RectangularPattern => ClickAnswer::Copy,
        Tool::Constrain(rule) => ClickAnswer::Constrain(rule),
        Tool::Select | Tool::Idle => ClickAnswer::Nothing,
    }
}

/// Whether the fields of typed values are shown for what the tool holds:
/// for a shape being drawn, a corner being cut, and a copy whose values are
/// being typed.
pub open spec fn shows_fields_spec(holding: Holding) -> bool {
    match holding {
        Holding::Line | Holding::SymmetricLine | Holding::Rectangle | Holding::Circle
        | Holding::Arc | Holding::Ellipse | Holding::Corner => true,
        Holding::Copying { naming_the_target } => naming_the_target,
        _ => false,
    }
}

pub fn shows_fields(holding: Holding) -> (r: bool)
    ensures
        r == shows_fields_spec(holding),
{
    match holding {
        Holding::Line | Holding::SymmetricLine | Holding::Rectangle | Holding::Circle
        | Holding::Arc | Holding::Ellipse | Holding::Corner => true,
        Holding::Copying { naming_the_target } => naming_the_target,
        _ => false,
    }
}

/// Where a shape finished from the keyboard ends.
#[derive(Clone, Copy, Debug, PartialEq, Eq, Hash, Structural)]
pub enum EndAt {
    /// Where the line is aimed, once what was typed has had its say.
    Aimed,
    /// The rectangle's far corner, once its typed sides have had theirs.
    RectangleCorner,
    /// The cursor.
    Cursor,
}

/// What Enter does.
#[derive(Clone, Copy, Debug, PartialEq, Eq, Hash, Structural)]
pub enum EnterAnswer {
    Nothing,
    /// The selection a copy is made of is done.
    HoldIsDone,
    /// The corner tools answer for their own key.
    Corner,
    /// The shape in hand is finished as a click would finish it.
    Finish { answer: ClickAnswer, at: EndAt },
}

/// Enter finishes the shape from the keyboard, without having to find the
/// canvas again with the mouse, and it ends where a click would.
///
/// While what a copy is made of is gathered there is no field for Enter to
/// land in, so the key itself (`pressed`) says the selection is done; once it
/// is, Enter only settles the field it was pressed in. For a shape, Enter
/// counts when it was pressed in a field (`entered`) and what was typed there
/// is not refused (`refused`).
pub open spec fn on_enter_spec(tool: Tool, holding: Holding, pressed: bool, entered: bool, refused: bool) -> EnterAnswer {
    match holding {
        Holding::Copying { naming_the_target } => if !naming_the_target && pressed {
            EnterAnswer::HoldIsDone
        } else {
            EnterAnswer::Nothing
        },
        _ => if !shows_fields_spec(holding) || !entered || refused {
            EnterAnswer::Nothing
        } else if tool == Tool::Chamfer || tool == Tool::Fillet {
            EnterAnswer::Corner
        } else {
            match tool {
                Tool::Line => EnterAnswer::Finish { answer: ClickAnswer::LinePoint, at: EndAt::Aimed },
                Tool::LineSymmetric => EnterAnswer::Finish {
                    answer: ClickAnswer::SymmetricLinePoint,
                    at: EndAt::Cursor,
                },
                Tool::Circle => EnterAnswer::Finish { answer: ClickAnswer::Circle, at: EndAt::Cursor },
                Tool::Arc => EnterAnswer::Finish { answer: ClickAnswer::Arc, at: EndAt::Cursor },
                Tool::Ellipse => EnterAnswer::Finish { answer: ClickAnswer::Ellipse, at: EndAt::Cursor },
                Tool::Rectangle => EnterAnswer::Finish {
                    answer: ClickAnswer::TwoClickShape,
                    at: EndAt::RectangleCorner,
                },
                _ => EnterAnswer::Finish { answer: ClickAnswer::TwoClickShape, at: EndAt::Cursor },
            }
        },
    }
}

pub fn on_enter(tool: Tool, holding: Holding, pressed: bool, entered: bool, refused: bool) -> (r:
    EnterAnswer)
    ensures
        r == on_enter_spec(tool, holding, pressed, entered, refused),
{
    if let Holding::Copying { naming_the_target } = holding {
        return if !naming_the_target && pressed {
            EnterAnswer::HoldIsDone
        } else {
            EnterAnswer::Nothing
        };
    }
    if !shows_fields(holding) || !entered || refused {
        return EnterAnswer::Nothing;
    }
    if tool == Tool::Chamfer || tool == Tool::Fillet {
        return EnterAnswer::Corner;
    }
    match tool {
        Tool::Line => EnterAnswer::Finish { answer: ClickAnswer::LinePoint, at: EndAt::Aimed },
        Tool::LineSymmetric => EnterAnswer::Finish {
            answer: ClickAnswer::SymmetricLinePoint,
            at: EndAt::Cursor,
        },
        Tool::Circle => EnterAnswer::Finish { answer: ClickAnswer::Circle, at: EndAt::Cursor },
        Tool::Arc => EnterAnswer::Finish { answer: ClickAnswer::Arc, at: EndAt::Cursor },
        Tool::Ellipse => EnterAnswer::Finish { answer: ClickAnswer::Ellipse, at: EndAt::Cursor },
        Tool::Rectangle => EnterAnswer::Finish {
            answer: ClickAnswer::TwoClickShape,
            at: EndAt::RectangleCorner,
        },
        _ => EnterAnswer::Finish { answer: ClickAnswer::TwoClickShape, at: EndAt::Cursor },
    }
}

/// A shape finished by Enter is finished by the very answer a click gives
/// for the tool in hand — save for a corner tool, which answers for its own
/// key.
pub proof fn lemma_enter_finishes_as_a_click(
    tool: Tool,
    holding: Holding,
    pressed: bool,
    entered: bool,
    refused: bool,
)
    requires
        tool != Tool::Idle && tool != Tool::Select && tool != Tool::Point && tool != Tool::Dimension
            && tool != Tool::Measure && tool != Tool::Trim && tool != Tool::Split && tool
            != Tool::Mirror && tool != Tool::CircularPattern && tool != Tool::RectangularPattern
            && !(tool is Constrain),
        on_enter_spec(tool, holding, pressed, entered, refused) is Finish,
    ensures
        on_enter_spec(tool, holding, pressed, entered, refused)->answer == click_answer_spec(tool),
{
}

/// Escape steps back out of whatever is going on — the shape in progress,
/// the dimension being placed — and then out of the tool itself: a tool that
/// stays in hand after its work is done is a tool that draws a stray line on
/// the next click, and falling back to the selection tool is the habit every
/// CAD package has taught.
pub fn escaped(busy: bool, tool: Tool) -> (r: Tool)
    ensures
        r == if busy {
            tool
        } else {
            Tool::Select
        },
{
    if busy {
        tool
    } else {
        Tool::Select
    }
}

/// A stretch of a curve the trim cuts, between the two places on either side
/// of the click (`B`, as the drawing names them), or the whole of a round
/// with nothing on it.
#[derive(Clone, Copy, Debug, PartialEq)]
pub enum Cut<E, B> {
    Trait { segment: SegmentId, from: E, to: E },
    Arc { arc: crate::model::ArcId, from: E, to: E },
    Circle { circle: CircleId, between: B },
    Ellipse { ellipse: crate::model::EllipseId, between: B },
}

/// Which cut a click asks for.
///
/// The straight trait first, then the curve, then the round, then the
/// ellipse — the order a click is read in everywhere else. Where a trait runs
/// into a curve both are within reach of the same click, and a tool that
/// answered with whichever came out of the drawing first would cut a
/// different element depending on the order they were drawn in. A trait or a
/// curve with no stretch under the click is passed over.
pub open spec fn cut_under_spec<E, B>(
    segment: Option<(SegmentId, Option<(E, E)>)>,
    arc: Option<(crate::model::ArcId, Option<(E, E)>)>,
    circle: Option<(CircleId, B)>,
    ellipse: Option<(crate::model::EllipseId, B)>,
) -> Option<Cut<E, B>> {
    match segment {
        Some((s, Some((from, to)))) => Some(Cut::Trait { segment: s, from, to }),
        _ => match arc {
            Some((a, Some((from, to)))) => Some(Cut::Arc { arc: a, from, to }),
            _ => match circle {
                Some((c, between)) => Some(Cut::Circle { circle: c, between }),
                None => match ellipse {
                    Some((e, between)) => Some(Cut::Ellipse { ellipse: e, between }),
                    None => None,
                },
            },
        },
    }
}

pub fn cut_under<E, B>(
    segment: Option<(SegmentId, Option<(E, E)>)>,
    arc: Option<(crate::model::ArcId, Option<(E, E)>)>,
    circle: Option<(CircleId, B)>,
    ellipse: Option<(crate::model::EllipseId, B)>,
) -> (r: Option<Cut<E, B>>)
    ensures
        r == cut_under_spec(segment, arc, circle, ellipse),
{
    if let Some((s, Some((from, to)))) = segment {
        return Some(Cut::Trait { segment: s, from, to });
    }
    if let Some((a, Some((from, to)))) = arc {
        return Some(Cut::Arc { arc: a, from, to });
    }
    if let Some((c, between)) = circle {
        return Some(Cut::Circle { circle: c, between });
    }
    match ellipse {
        Some((e, between)) => Some(Cut::Ellipse { ellipse: e, between }),
        None => None,
    }
}

/// What is shown going under the cursor: the cut a click would make, and
/// only while the trim tool is in hand — no other tool draws what the trim
/// would take away.
pub fn trim_previewed<E, B>(tool: Tool, cut: Option<Cut<E, B>>) -> (r: Option<Cut<E, B>>)
    ensures
        r == if tool == Tool::Trim {
            cut
        } else {
            None
        },
{
    match tool {
        Tool::Trim => cut,
        _ => None,
    }
}

/// Where the traits nearest a click cross.
#[derive(Clone, Debug, PartialEq)]
pub enum Crossing<P> {
    /// Straight traits crossing at a place.
    Traits { at: P, segments: Vec<SegmentId> },
    /// A curve is among them, which the split does not cut.
    Curved,
}

/// What a click of the split tool does.
#[derive(Clone, Debug, PartialEq)]
pub enum SplitAnswer<P> {
    /// Nothing crosses there.
    Nothing,
    /// The split cuts straight traits only, and says so.
    NeedsTraits,
    /// A point dropped where they cross, each of them cut in two there.
    Split { at: P, segments: Vec<SegmentId> },
}

pub fn split<P>(crossing: Option<Crossing<P>>) -> (r: SplitAnswer<P>)
    ensures
        match crossing {
            None => r == SplitAnswer::<P>::Nothing,
            Some(Crossing::Curved) => r == SplitAnswer::<P>::NeedsTraits,
            Some(Crossing::Traits { at, segments }) => r == (SplitAnswer::Split { at, segments }),
        },
{
    match crossing {
        None => SplitAnswer::Nothing,
        Some(Crossing::Curved) => SplitAnswer::NeedsTraits,
        Some(Crossing::Traits { at, segments }) => SplitAnswer::Split { at, segments },
    }
}

/// What the part made of a value typed for a dimension.
#[derive(Clone, Copy, Debug, PartialEq)]
pub enum ValueOutcome<S> {
    /// The first dimension of the drawing: it sets how many millimetres a
    /// unit is.
    ScaleDefined(S),
    /// The geometry took the value exactly.
    Exact,
    /// A closed contour could only move its last point.
    BestEffort,
    /// The value adds nothing to a shape already settled, and is kept as a
    /// reading.
    Reference,
    /// The value cannot be had here.
    Impossible,
}

/// What the screen says of it.
#[derive(Clone, Copy, Debug, PartialEq)]
pub enum ValueSaid<S> {
    Nothing,
    ScaleDefined(S),
    OnlyTheEndMoved,
    Redundant,
    Impossible,
}

/// What a value typed for a dimension comes to: whether the drawing changed,
/// and what is said about it.
pub fn value_outcome<S: Copy>(outcome: ValueOutcome<S>) -> (r: (bool, ValueSaid<S>))
    ensures
        r == match outcome {
            ValueOutcome::ScaleDefined(scale) => (true, ValueSaid::ScaleDefined(scale)),
            ValueOutcome::Exact => (true, ValueSaid::<S>::Nothing),
            ValueOutcome::BestEffort => (true, ValueSaid::<S>::OnlyTheEndMoved),
            ValueOutcome::Reference => (true, ValueSaid::<S>::Redundant),
            ValueOutcome::Impossible => (false, ValueSaid::<S>::Impossible),
        },
{
    match outcome {
        ValueOutcome::ScaleDefined(scale) => (true, ValueSaid::ScaleDefined(scale)),
        ValueOutcome::Exact => (true, ValueSaid::Nothing),
        ValueOutcome::BestEffort => (true, ValueSaid::OnlyTheEndMoved),
        ValueOutcome::Reference => (true, ValueSaid::Redundant),
        ValueOutcome::Impossible => (false, ValueSaid::Impossible),
    }
}

/// What is offered to draw on under the cursor: one of the three planes of
/// the origin, a flat face of the part, or a curved face, which offers no
/// plane at all.
#[derive(Clone, Copy, Debug, PartialEq)]
pub enum PlaneChoice<P> {
    Origin(usize),
    Face { plane: P, face: usize },
    Curved(usize),
}

/// The part comes first rather than whatever is nearest the camera: the
/// three planes are unbounded sheets running right through the part, so
/// nearest-wins would leave them covering the very faces one wants — while
/// they stay reachable everywhere the part is not. A face is a whole stretch
/// of surface, so a curved wall answers once and answers no.
pub fn plane_under<P>(face: Option<(usize, Option<P>)>, origin: Option<usize>) -> (r: Option<
    PlaneChoice<P>,
>)
    ensures
        r == match face {
            Some((f, Some(plane))) => Some(PlaneChoice::Face { plane, face: f }),
            Some((f, None)) => Some(PlaneChoice::<P>::Curved(f)),
            None => match origin {
                Some(o) => Some(PlaneChoice::<P>::Origin(o)),
                None => None,
            },
        },
{
    match face {
        Some((f, Some(plane))) => Some(PlaneChoice::Face { plane, face: f }),
        Some((f, None)) => Some(PlaneChoice::Curved(f)),
        None => match origin {
            Some(o) => Some(PlaneChoice::Origin(o)),
            None => None,
        },
    }
}

/// What the step of choosing a plane says, and the plane a click starts a
/// sketch on: a curved face starts nothing, and the click does not fall
/// through to whatever lies behind it — a drawing started on a plane hidden
/// inside the part would be worse than none.
pub fn choose_a_plane<P: Copy>(hovered: Option<PlaneChoice<P>>, clicked: bool, origin_planes: &Vec<P>) -> (r: (bool, Option<P>))
    ensures
        r.0 == (hovered matches Some(PlaneChoice::Curved(_))),
        r.1 == if clicked {
            match hovered {
                Some(PlaneChoice::Face { plane, .. }) => Some(plane),
                Some(PlaneChoice::Origin(o)) => if o < origin_planes@.len() {
                    Some(origin_planes@[o as int])
                } else {
                    None
                },
                _ => None,
            }
        } else {
            None
        },
{
    let curved = match hovered {
        Some(PlaneChoice::Curved(_)) => true,
        _ => false,
    };
    if !clicked {
        return (curved, None);
    }
    let plane = match hovered {
        Some(PlaneChoice::Face { plane, .. }) => Some(plane),
        Some(PlaneChoice::Origin(o)) => if o < origin_planes.len() {
            Some(origin_planes[o])
        } else {
            None
        },
        _ => None,
    };
    (curved, plane)
}

/// Each tool's click is answered by its own gesture: two tools share an
/// answer only when they are one gesture in two variants — the chamfer and
/// the fillet, the three copying tools — or when neither takes a click.
pub proof fn lemma_each_tool_its_own_click(first: Tool, second: Tool)
    requires
        click_answer_spec(first) == click_answer_spec(second),
    ensures
        first == second
            || ((first == Tool::Chamfer || first == Tool::Fillet) && (second == Tool::Chamfer
            || second == Tool::Fillet))
            || ((first == Tool::Mirror || first == Tool::CircularPattern || first
            == Tool::RectangularPattern) && (second == Tool::Mirror || second
            == Tool::CircularPattern || second == Tool::RectangularPattern))
            || ((first == Tool::Select || first == Tool::Idle) && (second == Tool::Select || second
            == Tool::Idle)),
{
}

/// What answers a click, tool by tool: each drawing tool its gesture of the
/// same name, the dimension tool a measure, the measure tool a reading, and
/// neither the selection tool nor an empty hand any click at all.
pub proof fn lemma_what_answers_a_click(rule: Rule)
    ensures
        click_answer_spec(Tool::Line) == ClickAnswer::LinePoint,
        click_answer_spec(Tool::LineSymmetric) == ClickAnswer::SymmetricLinePoint,
        click_answer_spec(Tool::Point) == ClickAnswer::Point,
        click_answer_spec(Tool::Rectangle) == ClickAnswer::TwoClickShape,
        click_answer_spec(Tool::Circle) == ClickAnswer::Circle,
        click_answer_spec(Tool::Arc) == ClickAnswer::Arc,
        click_answer_spec(Tool::Ellipse) == ClickAnswer::Ellipse,
        click_answer_spec(Tool::Dimension) == ClickAnswer::Measure,
        click_answer_spec(Tool::Measure) == ClickAnswer::Read,
        click_answer_spec(Tool::Trim) == ClickAnswer::Trim,
        click_answer_spec(Tool::Split) == ClickAnswer::Split,
        click_answer_spec(Tool::Chamfer) == ClickAnswer::Corner,
        click_answer_spec(Tool::Fillet) == ClickAnswer::Corner,
        click_answer_spec(Tool::Mirror) == ClickAnswer::Copy,
        click_answer_spec(Tool::CircularPattern) == ClickAnswer::Copy,
        click_answer_spec(Tool::RectangularPattern) == ClickAnswer::Copy,
        click_answer_spec(Tool::Constrain(rule)) == ClickAnswer::Constrain(rule),
        click_answer_spec(Tool::Select) == ClickAnswer::Nothing,
        click_answer_spec(Tool::Idle) == ClickAnswer::Nothing,
{
}

} // verus!
