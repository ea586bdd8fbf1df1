//! The selection tool: what a click picks, what it does to what is held, what
//! a box adds, and what deleting a selection takes with it.

use vstd::prelude::*;

use crate::dragging::{drag_frame, drag_frame_spec, grab_spec, DragAction, Grab, Phase, Press};
use crate::gathered::{add_missing, toggle, toggled};
use crate::model::{
    CircleId, Constraint, DimensionTarget, Element, PointId, SegmentId, Selection, Topology,
};

verus! {

/// What the cursor is over, in the order a click should take it.
///
/// A point before a trait before a round before a dimension before a rule:
/// the smaller the target, the harder it is to hit on purpose, so the smaller
/// one wins. The origin is not something a click selects.
pub open spec fn pick_spec(
    point: Option<PointId>,
    point_is_origin: bool,
    segment: Option<SegmentId>,
    circle: Option<CircleId>,
    annotation: Option<DimensionTarget>,
    rule: Option<Constraint>,
) -> Option<Selection> {
    if point is Some && !point_is_origin {
        Some(Selection::Element(Element::Point(point->0)))
    } else if segment is Some {
        Some(Selection::Element(Element::Segment(segment->0)))
    } else if circle is Some {
        Some(Selection::Element(Element::Circle(circle->0)))
    } else if annotation is Some {
        Some(Selection::Dimension(annotation->0))
    } else if rule is Some {
        Some(Selection::Rule(rule->0))
    } else {
        None
    }
}

pub fn pick(
    point: Option<PointId>,
    point_is_origin: bool,
    segment: Option<SegmentId>,
    circle: Option<CircleId>,
    annotation: Option<DimensionTarget>,
    rule: Option<Constraint>,
) -> (r: Option<Selection>)
    ensures
        r == pick_spec(point, point_is_origin, segment, circle, annotation, rule),
{
    if let Some(p) = point {
        if !point_is_origin {
            return Some(Selection::Element(Element::Point(p)));
        }
    }
    if let Some(s) = segment {
        return Some(Selection::Element(Element::Segment(s)));
    }
    if let Some(c) = circle {
        return Some(Selection::Element(Element::Circle(c)));
    }
    if let Some(a) = annotation {
        return Some(Selection::Dimension(a));
    }
    match rule {
        Some(r) => Some(Selection::Rule(r)),
        None => None,
    }
}

/// What a click of the selection tool does to what is held.
///
/// Holding the modifier gathers things up one by one, which is how one picks
/// out three traits that no box can enclose alone; without it a click takes
/// what it lands on and nothing else, and a click on nothing lets go of
/// everything. A click on nothing with the modifier down changes nothing.
pub open spec fn clicked_spec(held: Seq<Selection>, picked: Option<Selection>, adding: bool) -> Seq<
    Selection,
> {
    match picked {
        Some(what) => if adding {
            toggled(held, what)
        } else {
            seq![what]
        },
        None => if adding {
            held
        } else {
            Seq::empty()
        },
    }
}

/// A click of the selection tool: changes what is held, and hands back the
/// dimension whose value it opens — a dimension picked without the modifier
/// is opened at once, since reaching for the dimension tool to change a
/// number one is already pointing at is a step for nothing.
pub fn click(held: &mut Vec<Selection>, picked: Option<Selection>, adding: bool) -> (opened: Option<
    DimensionTarget,
>)
    ensures
        final(held)@ == clicked_spec(old(held)@, picked, adding),
        opened == match picked {
            Some(Selection::Dimension(target)) => if adding {
                None
            } else {
                Some(target)
            },
            _ => None,
        },
{
    match picked {
        Some(what) => {
            if adding {
                toggle(held, what);
            } else {
                held.clear();
                held.push(what);
                proof {
                    assert(held@ =~= seq![what]);
                }
            }
        },
        None => {
            if !adding {
                held.clear();
            }
        },
    }
    match picked {
        Some(Selection::Dimension(target)) => if adding {
            None
        } else {
            Some(target)
        },
        _ => None,
    }
}

/// What a box pulled across the drawing leaves held: what it caught, beside
/// what was held before only when the modifier is down, each thing once.
pub fn band_caught(held: &mut Vec<Selection>, caught: &Vec<Selection>, adding: bool)
    ensures
        final(held)@ == crate::gathered::gathered_in(
            if adding {
                old(held)@
            } else {
                Seq::empty()
            },
            caught@,
        ),
        forall|s: Selection|
            final(held)@.contains(s) == ((adding && old(held)@.contains(s)) || caught@.contains(
                s,
            )),
        adding ==> final(held)@.len() >= old(held)@.len() && forall|i: int|
            0 <= i < old(held)@.len() ==> final(held)@[i] == old(held)@[i],
        (adding ==> crate::gathered::distinct(old(held)@)) ==> crate::gathered::distinct(
            final(held)@,
        ),
{
    if !adding {
        held.clear();
        proof {
            assert(held@.len() == 0);
            assert forall|s: Selection| !held@.contains(s) by {}
        }
    }
    add_missing(held, caught);
}

/// What deleting a selection names, sorted the way a single step of erasing
/// takes it: the things drawn, the dimensions, and the rules.
pub open spec fn elements_of(selection: Seq<Selection>) -> Seq<Element>
    decreases selection.len(),
{
    if selection.len() == 0 {
        Seq::empty()
    } else {
        let rest = elements_of(selection.drop_last());
        match selection.last() {
            Selection::Element(e) => rest.push(e),
            _ => rest,
        }
    }
}

pub open spec fn dimensions_of(selection: Seq<Selection>) -> Seq<DimensionTarget>
    decreases selection.len(),
{
    if selection.len() == 0 {
        Seq::empty()
    } else {
        let rest = dimensions_of(selection.drop_last());
        match selection.last() {
            Selection::Dimension(d) => rest.push(d),
            _ => rest,
        }
    }
}

pub open spec fn rules_of(selection: Seq<Selection>) -> Seq<Constraint>
    decreases selection.len(),
{
    if selection.len() == 0 {
        Seq::empty()
    } else {
        let rest = rules_of(selection.drop_last());
        match selection.last() {
            Selection::Rule(c) => rest.push(c),
            _ => rest,
        }
    }
}

/// The step that deletes what the selection tool holds, all of it at once.
pub struct Erasure {
    pub elements: Vec<Element>,
    pub dimensions: Vec<DimensionTarget>,
    pub constraints: Vec<Constraint>,
}

/// Deleting what is held: nothing when nothing is held, otherwise one step
/// naming each thing held under its kind, in the order it was held.
pub fn erase(selection: &Vec<Selection>) -> (r: Option<Erasure>)
    ensures
        selection@.len() == 0 <==> r is None,
        r matches Some(step) ==> {
            &&& step.elements@ == elements_of(selection@)
            &&& step.dimensions@ == dimensions_of(selection@)
            &&& step.constraints@ == rules_of(selection@)
        },
{
    if selection.len() == 0 {
        return None;
    }
    let mut elements: Vec<Element> = Vec::new();
    let mut dimensions: Vec<DimensionTarget> = Vec::new();
    let mut constraints: Vec<Constraint> = Vec::new();
    let mut i: usize = 0;
    while i < selection.len()
        invariant
            i <= selection.len(),
            elements@ == elements_of(selection@.take(i as int)),
            dimensions@ == dimensions_of(selection@.take(i as int)),
            constraints@ == rules_of(selection@.take(i as int)),
        decreases selection.len() - i,
    {
        proof {
            assert(selection@.take(i + 1).drop_last() =~= selection@.take(i as int));
            assert(selection@.take(i + 1).last() == selection@[i as int]);
        }
        match selection[i] {
            Selection::Element(e) => elements.push(e),
            Selection::Dimension(d) => dimensions.push(d),
            Selection::Rule(c) => constraints.push(c),
        }
        i += 1;
    }
    proof {
        assert(selection@.take(selection.len() as int) =~= selection@);
    }
    Some(Erasure { elements, dimensions, constraints })
}

/// Erasing sorts without losing or inventing anything: every thing held is
/// named under exactly one kind.
pub proof fn lemma_erasure_counts(selection: Seq<Selection>)
    ensures
        elements_of(selection).len() + dimensions_of(selection).len() + rules_of(selection).len()
            == selection.len(),
    decreases selection.len(),
{
    if selection.len() > 0 {
        lemma_erasure_counts(selection.drop_last());
    }
}

/// Gathering with the modifier held, a second click on what the first one
/// took takes it back: what was held before is held again, as it was.
pub proof fn lemma_a_second_gathering_click_takes_back(held: Seq<Selection>, what: Selection)
    requires
        !held.contains(what),
    ensures
        clicked_spec(clicked_spec(held, Some(what), true), Some(what), true) == held,
{
    crate::gathered::lemma_toggle_twice(held, what);
}

/// What the selection tool reads of one frame.
pub struct SelectInput {
    /// Whether the frame is a click, and what the click picked.
    pub clicked: bool,
    pub picked: Option<Selection>,
    /// Whether the key that gathers a selection is down.
    pub adding: bool,
    /// Whether the key that deletes was pressed.
    pub deleting: bool,
    /// Where a drag stands, and where the button went down.
    pub phase: Phase,
    pub press: Press,
}

/// What the selection tool holds between frames: what is selected, and what
/// a drag holds.
pub struct SelectState {
    pub held: Vec<Selection>,
    pub grabbed: Option<Grab>,
}

/// What one frame of the selection tool comes to: the dimension a click
/// opens for its value, the step that deletes what was held, and what a drag
/// does.
pub struct SelectFrame {
    pub opened: Option<DimensionTarget>,
    pub erased: Option<Erasure>,
    pub action: DragAction,
}

/// What is held once a frame's click is read.
pub open spec fn held_after_click(held: Seq<Selection>, input: SelectInput) -> Seq<Selection> {
    if input.clicked {
        clicked_spec(held, input.picked, input.adding)
    } else {
        held
    }
}

/// One frame of the selection tool.
///
/// A click changes what is held first, and opens a dimension picked alone.
/// The key that deletes, with something held, deletes all of it in one step
/// and ends the frame there. Otherwise the frame is a frame of a drag, whose
/// press is read where the button went down.
pub fn select_frame(state: &mut SelectState, input: SelectInput, topology: &Topology) -> (r:
    SelectFrame)
    ensures
        r.opened == if input.clicked {
            match input.picked {
                Some(Selection::Dimension(target)) => if input.adding {
                    None
                } else {
                    Some(target)
                },
                _ => None,
            }
        } else {
            None
        },
        ({
            let held = held_after_click(old(state).held@, input);
            if input.deleting && held.len() > 0 {
                &&& final(state).held@.len() == 0
                &&& final(state).grabbed == old(state).grabbed
                &&& r.action == DragAction::Nothing
                &&& r.erased matches Some(step) && step.elements@ == elements_of(held)
                    && step.dimensions@ == dimensions_of(held) && step.constraints@ == rules_of(
                    held,
                )
            } else {
                &&& final(state).held@ == held
                &&& r.erased is None
                &&& (final(state).grabbed, r.action) == drag_frame_spec(
                    old(state).grabbed,
                    input.phase,
                    grab_spec(input.press, *topology),
                )
            }
        }),
{
    let opened = if input.clicked {
        click(&mut state.held, input.picked, input.adding)
    } else {
        None
    };
    if input.deleting && state.held.len() > 0 {
        let mut taken: Vec<Selection> = Vec::new();
        std::mem::swap(&mut taken, &mut state.held);
        let erased = erase(&taken);
        return SelectFrame { opened, erased, action: DragAction::Nothing };
    }
    let action = drag_frame(&mut state.grabbed, input.phase, input.press, topology);
    SelectFrame { opened, erased: None, action }
}

/// The smaller target wins: a point that is not the origin before anything
/// else, then a trait, a round, a dimension and a rule; a click on nothing
/// picks nothing, and what is picked is always what lay under the cursor.
pub proof fn lemma_the_smaller_target_wins(
    point: Option<PointId>,
    point_is_origin: bool,
    segment: Option<SegmentId>,
    circle: Option<CircleId>,
    annotation: Option<DimensionTarget>,
    rule: Option<Constraint>,
)
    ensures
        ({
            let picked = pick_spec(point, point_is_origin, segment, circle, annotation, rule);
            &&& (point is Some && !point_is_origin) ==> picked == Some(
                Selection::Element(Element::Point(point->0)),
            )
            &&& (!(point is Some && !point_is_origin) && segment is Some) ==> picked
                == Some(Selection::Element(Element::Segment(segment->0)))
            &&& picked matches Some(Selection::Element(Element::Circle(c))) ==> circle == Some(c)
            &&& picked matches Some(Selection::Dimension(t)) ==> annotation == Some(t)
            &&& picked matches Some(Selection::Rule(r)) ==> rule == Some(r)
            &&& picked is None <==> ((point is None || point_is_origin) && segment is None
                && circle is None && annotation is None && rule is None)
        }),
{
}

} // verus!
