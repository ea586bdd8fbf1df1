//! What a drag takes hold of where the button went down, and what its drop
//! leaves written.
//!
//! Who grabs is settled at the start of the gesture and holds for the whole of
//! it: deciding again every frame would swap gestures mid-drag, as soon as the
//! cursor happened to pass over a point.

use vstd::prelude::*;

use crate::gathered::{Same, distinct, holds};
use crate::model::{
    ArcId, CircleId, DimensionTarget, Element, EllipseId, PointId, SegmentId, Selection, Topology,
};

verus! {

/// A curve the hand can draw to another size or turn.
#[derive(Clone, Copy, Debug, PartialEq, Eq, Hash, Structural)]
pub enum Curved {
    Circle(CircleId),
    Arc(ArcId),
    Ellipse(EllipseId),
}

/// What a press away from any point takes hold of, beside an annotation: a
/// side that travels or turns its shape, or a curve.
#[derive(Clone, Copy, Debug, PartialEq, Eq, Hash, Structural)]
pub enum Pulled {
    Side(SegmentId),
    Curve(Curved),
}

/// Where the button went down, as the drawing reads it.
pub struct Press {
    /// Whether the camera holds the gesture: an orbit or a pan started on the
    /// drawing moves the view, and takes hold of nothing in it.
    pub navigating: bool,
    /// Whether the primary button started the drag.
    pub primary: bool,
    /// Whether the key that pulls a point off what holds it is down.
    pub letting_go: bool,
    /// Whether the key that gathers a selection is down.
    pub adding: bool,
    /// The points of the selection, when the press landed on something it
    /// holds.
    pub group: Vec<PointId>,
    /// The point nearest the press, within reach.
    pub point: Option<PointId>,
    /// Whether that point is settled by what the drawing holds.
    pub settled: bool,
    /// How many things that point is held on.
    pub holds: usize,
    /// The curve points that point carries along, when it is the centre of an
    /// arc or of an ellipse.
    pub carries: Vec<PointId>,
    /// The annotation under the press.
    pub annotation: Option<DimensionTarget>,
    /// The side or the curve under the press, whichever is nearer.
    pub pulled: Option<Pulled>,
    /// The curve under the press, side or no side.
    pub curve: Option<Curved>,
}

/// What a drag has taken hold of.
#[derive(Clone, Debug, PartialEq, Eq)]
pub enum Grab {
    /// Not a drag of the drawing at all.
    Ignored,
    /// The whole selection, moved as a desktop moves a group of icons.
    Group(Vec<PointId>),
    /// A centre and the curve points it carries, moving as one.
    Carried(Vec<PointId>),
    /// A lone point, pulled along what holds it — or off it when
    /// `letting_go`.
    Point { point: PointId, letting_go: bool },
    /// The annotation of a dimension, moved out of the way.
    Annotation(DimensionTarget),
    /// A side, travelling across or turning its shape.
    Side(SegmentId),
    /// A curve, drawn to another size or turned.
    Curve(Curved),
    /// Nothing: the drag pulls a box, the way a desktop does.
    Band,
}

/// Whether a point may be dragged. A settled point cannot — a value the user
/// typed must not be silently undone by a slip of the mouse — and neither can
/// one held where two things cross, unless the key that pulls it off what
/// holds it is down: without that it could only ever be freed by deleting the
/// marks that hold it.
pub open spec fn may_drag_spec(settled: bool, holds: nat, letting_go: bool) -> bool {
    let stuck = settled || holds > 1;
    !stuck || (letting_go && holds > 0)
}

pub fn may_drag(settled: bool, holds: usize, letting_go: bool) -> (r: bool)
    ensures
        r == may_drag_spec(settled, holds as nat, letting_go),
{
    let stuck = settled || holds > 1;
    !stuck || (letting_go && holds > 0)
}

/// The point a press takes, when it takes one.
pub open spec fn pressed_point(press: Press, topology: Topology) -> Option<PointId> {
    match press.point {
        Some(p) => if !topology.is_origin_spec(p) && may_drag_spec(
            press.settled,
            press.holds as nat,
            press.letting_go,
        ) {
            Some(p)
        } else {
            None
        },
        None => None,
    }
}

/// What a press takes hold of, in the order the hand means it.
///
/// Pressing on something already picked moves the whole selection, and comes
/// first: what is held is a deliberate choice, and it would be odd for the
/// drag to take one corner out of it instead. A lone corner picked and pressed
/// on is dragged as the corner it is. Then a point, which carries its curve
/// when it is a centre; then an annotation; then a side or a curve — a press
/// gathering a selection only ever takes a curve. Nothing at all pulls a box.
pub open spec fn grab_spec(press: Press, topology: Topology) -> Grab {
    let group = press.group@;
    let lone_corner = group.len() == 1 && press.point == Some(group[0]);
    if press.navigating || !press.primary {
        Grab::Ignored
    } else if group.len() > 0 && !lone_corner {
        Grab::Group(press.group)
    } else {
        match pressed_point(press, topology) {
            Some(p) => if press.carries@.len() > 0 {
                Grab::Carried(press.carries)
            } else {
                Grab::Point { point: p, letting_go: press.letting_go }
            },
            None => match press.annotation {
                Some(target) => Grab::Annotation(target),
                None => {
                    let pulled = if press.adding {
                        match press.curve {
                            Some(c) => Some(Pulled::Curve(c)),
                            None => None,
                        }
                    } else {
                        press.pulled
                    };
                    match pulled {
                        Some(Pulled::Side(side)) => Grab::Side(side),
                        Some(Pulled::Curve(curve)) => Grab::Curve(curve),
                        None => Grab::Band,
                    }
                },
            },
        }
    }
}

/// What a press takes hold of.
///
/// `carries` holds the centre first and then the curve points it carries; it
/// is empty for a point that is nobody's centre.
pub fn grab(press: Press, topology: &Topology) -> (r: Grab)
    ensures
        r == grab_spec(press, *topology),
{
    if press.navigating || !press.primary {
        return Grab::Ignored;
    }
    let lone_corner = press.group.len() == 1 && match press.point {
        Some(p) => press.group[0] == p,
        None => false,
    };
    if press.group.len() > 0 && !lone_corner {
        return Grab::Group(press.group);
    }
    let point = match press.point {
        Some(p) => if !topology.is_origin(p) && may_drag(press.settled, press.holds, press.letting_go) {
            Some(p)
        } else {
            None
        },
        None => None,
    };
    if let Some(p) = point {
        if press.carries.len() > 0 {
            return Grab::Carried(press.carries);
        }
        return Grab::Point { point: p, letting_go: press.letting_go };
    }
    if let Some(target) = press.annotation {
        return Grab::Annotation(target);
    }
    let pulled = if press.adding {
        match press.curve {
            Some(c) => Some(Pulled::Curve(c)),
            None => None,
        }
    } else {
        press.pulled
    };
    match pulled {
        Some(Pulled::Side(side)) => Grab::Side(side),
        Some(Pulled::Curve(curve)) => Grab::Curve(curve),
        None => Grab::Band,
    }
}

/// A point `element` moves when it is dragged: a point itself, a trait's two
/// ends, a round's centre.
pub open spec fn moves_with(element: Element, topology: Topology, point: PointId) -> bool {
    match element {
        Element::Point(id) => id == point,
        Element::Segment(id) => match topology.ends_spec(id) {
            Some((start, end)) => start == point || end == point,
            None => false,
        },
        Element::Circle(id) => topology.centre_spec(id) == Some(point),
        _ => false,
    }
}

/// A point the selection carries: one that something selected moves, and not
/// the origin, which never moves.
pub open spec fn carried_by(selection: Seq<Selection>, topology: Topology, point: PointId) -> bool {
    &&& !topology.is_origin_spec(point)
    &&& exists|i: int|
        0 <= i < selection.len() && (match #[trigger] selection[i] {
            Selection::Element(element) => moves_with(element, topology, point),
            _ => false,
        })
}

fn take(points: &mut Vec<PointId>, point: PointId, topology: &Topology)
    ensures
        final(points)@ == if topology.is_origin_spec(point) || old(points)@.contains(point) {
            old(points)@
        } else {
            old(points)@.push(point)
        },
        forall|q: PointId|
            final(points)@.contains(q) == (old(points)@.contains(q) || (q == point
                && !topology.is_origin_spec(point))),
        distinct(old(points)@) ==> distinct(final(points)@),
{
    if !topology.is_origin(point) && !holds(points, point) {
        let ghost before = points@;
        points.push(point);
        proof {
            assert forall|q: PointId|
                points@.contains(q) == (before.contains(q) || q == point) by {
                if before.contains(q) {
                    let k = choose|k: int| 0 <= k < before.len() && before[k] == q;
                    assert(points@[k] == q);
                }
                if points@.contains(q) && q != point {
                    let k = choose|k: int| 0 <= k < points@.len() && points@[k] == q;
                    assert(before[k] == q);
                }
                if q == point {
                    assert(points@[before.len() as int] == q);
                }
            }
            if distinct(before) {
                assert forall|a: int, b: int|
                    0 <= a < points@.len() && 0 <= b < points@.len() && a != b implies points@[a]
                    != points@[b] by {
                    if a == before.len() && points@[a] == points@[b] {
                        assert(before[b] == point);
                    }
                    if b == before.len() && points@[a] == points@[b] {
                        assert(before[a] == point);
                    }
                }
            }
        }
    }
}

/// The points a drag carries when it starts on something the selection tool
/// is holding: each point once, the origin never, and nothing but what some
/// selected point, trait or round moves.
pub fn points_of(selection: &Vec<Selection>, topology: &Topology) -> (points: Vec<PointId>)
    ensures
        distinct(points@),
        forall|p: PointId| points@.contains(p) <==> carried_by(selection@, *topology, p),
{
    let mut points: Vec<PointId> = Vec::new();
    let mut i: usize = 0;
    while i < selection.len()
        invariant
            i <= selection.len(),
            distinct(points@),
            forall|p: PointId|
                points@.contains(p) <==> carried_by(selection@.take(i as int), *topology, p),
        decreases selection.len() - i,
    {
        let ghost before = points@;
        let held = selection[i];
        match held {
            Selection::Element(Element::Point(id)) => take(&mut points, id, topology),
            Selection::Element(Element::Segment(id)) => {
                if let Some((start, end)) = topology.ends(id) {
                    take(&mut points, start, topology);
                    take(&mut points, end, topology);
                }
            },
            Selection::Element(Element::Circle(id)) => {
                if let Some(centre) = topology.centre(id) {
                    take(&mut points, centre, topology);
                }
            },
            _ => {},
        }
        proof {
            let sooner = selection@.take(i as int);
            let later = selection@.take(i + 1);
            assert(later[i as int] == held);
            assert forall|k: int| 0 <= k < sooner.len() implies later[k] == sooner[k] by {}
            assert forall|p: PointId|
                points@.contains(p) <==> carried_by(later, *topology, p) by {
                let now = match held {
                    Selection::Element(element) => moves_with(element, *topology, p),
                    _ => false,
                };
                if carried_by(sooner, *topology, p) {
                    let k = choose|k: int|
                        0 <= k < sooner.len() && (match #[trigger] sooner[k] {
                            Selection::Element(element) => moves_with(element, *topology, p),
                            _ => false,
                        });
                    assert(later[k] == sooner[k]);
                }
                if carried_by(later, *topology, p) && !now {
                    let k = choose|k: int|
                        0 <= k < later.len() && (match #[trigger] later[k] {
                            Selection::Element(element) => moves_with(element, *topology, p),
                            _ => false,
                        });
                    assert(k != i);
                    assert(sooner[k] == later[k]);
                }
                if now && !topology.is_origin_spec(p) {
                    assert(later[i as int] == held);
                }
                assert(carried_by(later, *topology, p) == (carried_by(sooner, *topology, p) || (
                now && !topology.is_origin_spec(p))));
                assert(points@.contains(p) == (before.contains(p) || (now
                    && !topology.is_origin_spec(p))));
            }
        }
        i += 1;
    }
    proof {
        assert(selection@.take(selection.len() as int) =~= selection@);
    }
    points
}

/// What a drop leaves the point held by is read off the drawing only when
/// nothing rules it out: a point pulled off what held it is held by nothing, a
/// point joined to another is a merge, a point something already held would
/// otherwise catch on the first crossing it slid over, and a point the shape
/// could not carry all the way is not where the hand is.
pub open spec fn reads_holds_spec(letting_go: bool, merged: bool, free: bool, arrived: bool) -> bool {
    !(letting_go || merged || !free || !arrived)
}

pub fn reads_holds(letting_go: bool, merged: bool, free: bool, arrived: bool) -> (r: bool)
    ensures
        r == reads_holds_spec(letting_go, merged, free, arrived),
{
    !(letting_go || merged || !free || !arrived)
}

/// Whether a drop writes a step: a drag the drawing refused, that neither
/// joined, held nor let go of anything, changes nothing, and a step that
/// changes nothing would be what the next undo takes back.
pub open spec fn drop_writes_spec(letting_go: bool, merged: bool, held: bool, reshaped: bool) -> bool {
    letting_go || merged || held || reshaped
}

pub fn drop_writes(letting_go: bool, merged: bool, held: bool, reshaped: bool) -> (r: bool)
    ensures
        r == drop_writes_spec(letting_go, merged, held, reshaped),
{
    !(!letting_go && !merged && !held && !reshaped)
}

/// A point is held on at most this many things: two is a crossing, already a
/// place a point cannot move away from, and a third would take nothing more
/// from it and leave one more mark to read.
pub const AT_A_CROSSING: usize = 2;

/// What a point landing in a place is held by: the first of what runs
/// through it, up to a crossing.
pub fn at_most_a_crossing<T>(on: Vec<T>) -> (r: Vec<T>)
    ensures
        r@ == if on@.len() <= AT_A_CROSSING {
            on@
        } else {
            on@.take(AT_A_CROSSING as int)
        },
{
    let mut on = on;
    on.truncate(AT_A_CROSSING);
    on
}

/// What runs through a place, cut down to a crossing.
pub open spec fn crossing<T>(on: Seq<T>) -> Seq<T> {
    if on.len() <= AT_A_CROSSING {
        on
    } else {
        on.take(AT_A_CROSSING as int)
    }
}

/// Whether a thing is among what ran through the place before the drag.
pub open spec fn ran_there<T>(before: Seq<T>) -> spec_fn(T) -> bool {
    |x: T| before.contains(x)
}

/// What a dragged point is held by once dropped: what runs through the place
/// in the drawing the drop settled (`settled_on`) and also ran through it
/// before the drag (`before_on`), each cut down to a crossing, in the order
/// the settled drawing gives. A trait the settling moved away is not held on,
/// nor one the point was carried onto by its own rule. Only a point nothing
/// held before the drag (`held_before` false) is held anew: one sliding along
/// its own trait would otherwise catch on the first crossing it went over.
pub fn held_at_drop<T: Same>(held_before: bool, before_on: Vec<T>, settled_on: Vec<T>) -> (r: Vec<T>)
    ensures
        r@ == if held_before {
            Seq::<T>::empty()
        } else {
            crossing(settled_on@).filter(ran_there(crossing(before_on@)))
        },
{
    if held_before {
        return Vec::new();
    }
    let was_there = at_most_a_crossing(before_on);
    let there_now = at_most_a_crossing(settled_on);
    let ghost keep = ran_there(was_there@);
    let mut kept: Vec<T> = Vec::new();
    let mut i: usize = 0;
    while i < there_now.len()
        invariant
            i <= there_now.len(),
            keep == ran_there(was_there@),
            kept@ == there_now@.take(i as int).filter(keep),
        decreases there_now.len() - i,
    {
        let x = there_now[i];
        proof {
            reveal(Seq::filter);
            assert(there_now@.take(i as int + 1).drop_last() =~= there_now@.take(i as int));
            assert(there_now@.take(i as int + 1).last() == x);
        }
        if holds(&was_there, x) {
            kept.push(x);
        }
        i += 1;
    }
    proof {
        assert(there_now@.take(i as int) =~= there_now@);
    }
    kept
}

/// A point a tool lays down: a new one standing free, or one held on what
/// runs through its place.
#[derive(Clone, Debug, PartialEq)]
pub enum Born<P, T> {
    New(P),
    Held { at: P, on: Vec<T> },
}

/// The point laid at `place`, through which the drawing finds `on` running:
/// held on the first of them up to a crossing, or free when nothing runs
/// there.
pub fn born_at<P, T>(place: P, on: Vec<T>) -> (r: Born<P, T>)
    ensures
        on@.len() == 0 ==> r == Born::<P, T>::New(place),
        on@.len() > 0 ==> (r matches Born::Held { at, on: held } && at == place && held@
            == crossing(on@)),
{
    let on = at_most_a_crossing(on);
    if on.len() == 0 {
        Born::New(place)
    } else {
        Born::Held { at: place, on }
    }
}

/// The origin never moves: no press takes hold of it as a lone point, and no
/// selection carries it along.
pub proof fn lemma_the_origin_never_moves(press: Press, topology: Topology, selection: Seq<Selection>)
    ensures
        grab_spec(press, topology) matches Grab::Point { point, .. } ==> !topology.is_origin_spec(
            point,
        ),
        !carried_by(selection, topology, topology.origin),
{
}

/// A point is held on a crossing at most: whatever is born or dropped is held
/// on no more than two things, each of which runs through its place in the
/// drawing as it now stands — and, for a drop, ran there before the drag too.
pub proof fn lemma_held_on_at_most_a_crossing<T>(held_before: bool, before_on: Seq<T>, settled_on: Seq<T>)
    ensures
        crossing(settled_on).len() <= AT_A_CROSSING,
        forall|x: T| #[trigger]
            crossing(settled_on).filter(ran_there(crossing(before_on))).contains(x) ==> crossing(
                settled_on,
            ).contains(x) && crossing(before_on).contains(x),
        crossing(settled_on).filter(ran_there(crossing(before_on))).len() <= AT_A_CROSSING,
{
    let now = crossing(settled_on);
    let keep = ran_there(crossing(before_on));
    broadcast use vstd::seq_lib::group_filter_ensures;
    assert forall|x: T| #[trigger] now.filter(keep).contains(x) implies now.contains(x)
        && crossing(before_on).contains(x) by {
        let k = choose|k: int| 0 <= k < now.filter(keep).len() && now.filter(keep)[k] == x;
        assert(keep(now.filter(keep)[k]));
        now.lemma_filter_contains_rev(keep, x);
    }
    now.lemma_filter_len(keep);
}

/// Where a drag stands this frame, as the pointer says it.
#[derive(Clone, Copy, Debug, PartialEq, Eq, Hash, Structural)]
pub enum Phase {
    /// No drag: the button is up, or the press has not travelled yet.
    Still,
    /// The press has just travelled far enough to be a drag.
    Started,
    /// The drag goes on.
    Dragging,
    /// The button has just come up at the end of a drag.
    Stopped,
}

/// What one frame of a drag does with what it holds.
#[derive(Clone, Debug, PartialEq, Eq)]
pub enum DragAction {
    Nothing,
    /// What is held follows the hand: it is shown where the release would
    /// leave it, and nothing is written.
    Follow,
    /// The button came up: what was held is let go of, and the one step it
    /// comes to is written.
    Release(Grab),
}

/// One frame of a drag of the selection tool.
///
/// A frame with no drag clears whatever a drag left behind. The frame a drag
/// starts settles who holds it, for the whole of the gesture: the selection
/// and a box start following on the next frame, anything else at once, and a
/// drag the camera holds takes nothing. While it lasts, what is held only
/// follows; the frame the button comes up lets go of it and writes, once.
pub open spec fn drag_frame_spec(held: Option<Grab>, phase: Phase, grabbed: Grab) -> (
    Option<Grab>,
    DragAction,
) {
    match phase {
        Phase::Still => (None, DragAction::Nothing),
        Phase::Started => match grabbed {
            Grab::Ignored => (None, DragAction::Nothing),
            Grab::Group(_) | Grab::Band => (Some(grabbed), DragAction::Nothing),
            _ => (Some(grabbed), DragAction::Follow),
        },
        Phase::Dragging => match held {
            Some(g) => (Some(g), DragAction::Follow),
            None => (None, DragAction::Nothing),
        },
        Phase::Stopped => match held {
            Some(g) => (None, DragAction::Release(g)),
            None => (None, DragAction::Nothing),
        },
    }
}

/// One frame of a drag: `held` is what the drag holds, and `press` where the
/// button went down, read only the frame the drag starts.
pub fn drag_frame(held: &mut Option<Grab>, phase: Phase, press: Press, topology: &Topology) -> (r:
    DragAction)
    ensures
        (*final(held), r) == drag_frame_spec(*old(held), phase, grab_spec(press, *topology)),
{
    match phase {
        Phase::Still => {
            *held = None;
            DragAction::Nothing
        },
        Phase::Started => {
            let grabbed = grab(press, topology);
            let action = match &grabbed {
                Grab::Ignored => DragAction::Nothing,
                Grab::Group(_) | Grab::Band => DragAction::Nothing,
                _ => DragAction::Follow,
            };
            *held = match grabbed {
                Grab::Ignored => None,
                other => Some(other),
            };
            action
        },
        Phase::Dragging => match held {
            Some(_) => DragAction::Follow,
            None => DragAction::Nothing,
        },
        Phase::Stopped => {
            let mut gone: Option<Grab> = None;
            std::mem::swap(&mut gone, held);
            match gone {
                Some(g) => DragAction::Release(g),
                None => DragAction::Nothing,
            }
        },
    }
}

/// How many steps a run of frames writes, from what the drag holds before
/// them; `grabbed` is what a press would take.
pub open spec fn releases(held: Option<Grab>, phases: Seq<Phase>, grabbed: Grab) -> nat
    decreases phases.len(),
{
    if phases.len() == 0 {
        0
    } else {
        let (next, action) = drag_frame_spec(held, phases[0], grabbed);
        (if action is Release {
            1nat
        } else {
            0nat
        }) + releases(next, phases.drop_first(), grabbed)
    }
}

proof fn lemma_nothing_held_writes_nothing(phases: Seq<Phase>, grabbed: Grab)
    requires
        forall|i: int| 0 <= i < phases.len() ==> phases[i] != Phase::Started,
    ensures
        releases(None, phases, grabbed) == 0,
    decreases phases.len(),
{
    if phases.len() > 0 {
        lemma_nothing_held_writes_nothing(phases.drop_first(), grabbed);
    }
}

proof fn lemma_at_most_one_release(held: Option<Grab>, phases: Seq<Phase>, grabbed: Grab)
    requires
        forall|i: int| 0 <= i < phases.len() ==> phases[i] != Phase::Started,
    ensures
        releases(held, phases, grabbed) <= 1,
    decreases phases.len(),
{
    if phases.len() > 0 {
        let (next, action) = drag_frame_spec(held, phases[0], grabbed);
        if action is Release {
            lemma_nothing_held_writes_nothing(phases.drop_first(), grabbed);
        } else {
            lemma_at_most_one_release(next, phases.drop_first(), grabbed);
        }
    }
}

/// Every gesture is one step of the history at most: nothing is written
/// while the drag lasts, only the frame the button comes up writes, and a
/// drag — from the frame it starts until the next one starts — writes once
/// at most.
pub proof fn lemma_a_drag_writes_once(held: Option<Grab>, phases: Seq<Phase>, grabbed: Grab)
    requires
        forall|i: int| 1 <= i < phases.len() ==> phases[i] != Phase::Started,
    ensures
        releases(held, phases, grabbed) <= 1,
        forall|phase: Phase|
            #[trigger] drag_frame_spec(held, phase, grabbed).1 is Release ==> phase
                == Phase::Stopped,
{
    if phases.len() > 0 {
        let (next, _) = drag_frame_spec(held, phases[0], grabbed);
        let rest = phases.drop_first();
        assert forall|i: int| 0 <= i < rest.len() implies rest[i] != Phase::Started by {
            assert(rest[i] == phases[i + 1]);
        }
        if phases[0] == Phase::Started {
            lemma_at_most_one_release(next, rest, grabbed);
        } else {
            lemma_at_most_one_release(held, phases, grabbed);
        }
    }
}

/// A press of the primary button, not held by the camera, on nothing the
/// selection holds, with no point and no annotation under it, takes what is
/// pulled there: a side travels or turns its shape, a curve is drawn to
/// another size — and with the gathering key down, only a curve. Nothing
/// pulled, it pulls a box.
pub proof fn lemma_a_press_away_from_points_takes_what_is_pulled(press: Press, topology: Topology)
    requires
        !press.navigating,
        press.primary,
        press.group@.len() == 0,
        press.point is None,
        press.annotation is None,
    ensures
        !press.adding ==> match press.pulled {
            Some(Pulled::Side(side)) => grab_spec(press, topology) == Grab::Side(side),
            Some(Pulled::Curve(curve)) => grab_spec(press, topology) == Grab::Curve(curve),
            None => grab_spec(press, topology) == Grab::Band,
        },
        press.adding ==> match press.curve {
            Some(curve) => grab_spec(press, topology) == Grab::Curve(curve),
            None => grab_spec(press, topology) == Grab::Band,
        },
{
}

/// A press on a point that may be dragged, and that is nobody's centre,
/// drags that point alone — the selection aside.
pub proof fn lemma_a_press_on_a_free_point_drags_it(press: Press, topology: Topology, point: PointId)
    requires
        !press.navigating,
        press.primary,
        press.group@.len() == 0,
        press.point == Some(point),
        !topology.is_origin_spec(point),
        !press.settled,
        press.holds <= 1,
        press.carries@.len() == 0,
    ensures
        grab_spec(press, topology) == (Grab::Point { point, letting_go: press.letting_go }),
{
}

} // verus!
