//! The constraint tool: what a click points it at, when it has been shown
//! enough, and the step a rule becomes once it has.
//!
//! The order of the clicks does not matter: a point and a trait make the same
//! coincidence whichever comes first. What matters is what was clicked, so a
//! rule is built from the kinds gathered rather than from their order.

use vstd::prelude::*;

use crate::gathered::{Same, holds};
use crate::model::{
    CircleId, Constraint, Element, PointId, SegmentId, SketchAxis, Topology,
};

verus! {

/// The rules the constraint tool lays.
#[derive(Clone, Copy, Debug, PartialEq, Eq, Hash, Structural)]
pub enum Rule {
    Perpendicular,
    Parallel,
    Collinear,
    Equal,
    Tangent,
    Midpoint,
    Fixed,
    Coincident,
    Concentric,
}

/// How many things a rule has to be shown before it can be laid.
pub open spec fn arity_spec(rule: Rule) -> nat {
    match rule {
        Rule::Fixed => 1,
        _ => 2,
    }
}

impl Rule {
    pub fn arity(self) -> (n: usize)
        ensures
            n == arity_spec(self),
    {
        match self {
            Rule::Fixed => 1,
            _ => 2,
        }
    }
}

/// What the constraint tool has been pointed at.
#[derive(Clone, Copy, Debug, PartialEq, Eq, Hash, Structural)]
pub enum RulePick {
    Element(Element),
    Axis(SketchAxis),
}

impl Same for RulePick {
    fn same(&self, other: &Self) -> (r: bool) {
        *self == *other
    }
}

/// The step a rule becomes: a rule laid on the drawing, or two points made
/// one.
///
/// Two rules are not rules at all but merges: two points asked to coincide,
/// or two rounds brought onto a single centre. Holding them apart with an
/// equation would leave two points sitting on top of each other for ever.
#[derive(Clone, Copy, Debug, PartialEq, Eq, Structural)]
pub enum RuleIntent {
    Constrain(Constraint),
    Merge { kept: PointId, dropped: PointId },
}

/// The traits among the picks, in the order they were clicked.
pub open spec fn segments_among(picks: Seq<RulePick>) -> Seq<SegmentId>
    decreases picks.len(),
{
    if picks.len() == 0 {
        Seq::empty()
    } else {
        let rest = segments_among(picks.drop_last());
        match picks.last() {
            RulePick::Element(Element::Segment(id)) => rest.push(id),
            _ => rest,
        }
    }
}

/// The points among the picks, in the order they were clicked.
pub open spec fn points_among(picks: Seq<RulePick>) -> Seq<PointId>
    decreases picks.len(),
{
    if picks.len() == 0 {
        Seq::empty()
    } else {
        let rest = points_among(picks.drop_last());
        match picks.last() {
            RulePick::Element(Element::Point(id)) => rest.push(id),
            _ => rest,
        }
    }
}

/// The rounds among the picks, in the order they were clicked.
pub open spec fn circles_among(picks: Seq<RulePick>) -> Seq<CircleId>
    decreases picks.len(),
{
    if picks.len() == 0 {
        Seq::empty()
    } else {
        let rest = circles_among(picks.drop_last());
        match picks.last() {
            RulePick::Element(Element::Circle(id)) => rest.push(id),
            _ => rest,
        }
    }
}

/// The sketch axes among the picks, in the order they were clicked.
pub open spec fn axes_among(picks: Seq<RulePick>) -> Seq<SketchAxis>
    decreases picks.len(),
{
    if picks.len() == 0 {
        Seq::empty()
    } else {
        let rest = axes_among(picks.drop_last());
        match picks.last() {
            RulePick::Axis(axis) => rest.push(axis),
            _ => rest,
        }
    }
}

/// Every round picked is one the drawing has.
pub open spec fn circles_drawn(picks: Seq<RulePick>, topology: Topology) -> bool {
    forall|i: int|
        0 <= i < picks.len() ==> match #[trigger] picks[i] {
            RulePick::Element(Element::Circle(id)) => topology.centre_spec(id) is Some,
            _ => true,
        }
}

/// The step a rule becomes once it has been shown `picks`, or nothing when
/// those are not the things it speaks of.
///
/// The order is kept: for an equality, the first trait clicked is the one
/// whose length the other takes. Two points asked to coincide are one point,
/// and the origin is never the one that gives way; two rounds brought onto one
/// centre are so already when they share it.
pub open spec fn rule_intent_spec(rule: Rule, picks: Seq<RulePick>, topology: Topology) -> Option<
    RuleIntent,
> {
    let segments = segments_among(picks);
    let points = points_among(picks);
    let circles = circles_among(picks);
    let axes = axes_among(picks);
    match rule {
        Rule::Perpendicular => if segments.len() == 2 {
            Some(
                RuleIntent::Constrain(
                    Constraint::Perpendicular { first: segments[0], second: segments[1] },
                ),
            )
        } else {
            None
        },
        Rule::Parallel => if segments.len() == 2 {
            Some(
                RuleIntent::Constrain(
                    Constraint::Parallel { first: segments[0], second: segments[1] },
                ),
            )
        } else {
            None
        },
        Rule::Collinear => if segments.len() == 2 {
            Some(
                RuleIntent::Constrain(
                    Constraint::Collinear { first: segments[0], second: segments[1] },
                ),
            )
        } else if segments.len() == 1 && axes.len() == 1 {
            Some(
                RuleIntent::Constrain(
                    Constraint::AxisCollinear { segment: segments[0], axis: axes[0] },
                ),
            )
        } else {
            None
        },
        Rule::Equal => if segments.len() == 2 {
            Some(
                RuleIntent::Constrain(Constraint::Equal { first: segments[0], second: segments[1] }),
            )
        } else if circles.len() == 2 {
            Some(
                RuleIntent::Constrain(
                    Constraint::EqualRadius { first: circles[0], second: circles[1] },
                ),
            )
        } else {
            None
        },
        Rule::Tangent => if circles.len() == 1 && segments.len() == 1 {
            Some(
                RuleIntent::Constrain(
                    Constraint::Tangent { circle: circles[0], segment: segments[0], at: None },
                ),
            )
        } else {
            None
        },
        Rule::Midpoint => if points.len() == 1 && segments.len() == 1 {
            Some(
                RuleIntent::Constrain(Constraint::Midpoint { point: points[0], segment: segments[0] }),
            )
        } else {
            None
        },
        Rule::Fixed => if picks.len() == 1 {
            match picks[0] {
                RulePick::Element(element) => Some(
                    RuleIntent::Constrain(Constraint::Fixed { element }),
                ),
                RulePick::Axis(_) => None,
            }
        } else {
            None
        },
        Rule::Coincident => if points.len() == 1 && segments.len() == 1 {
            Some(
                RuleIntent::Constrain(
                    Constraint::OnSegment { point: points[0], segment: segments[0] },
                ),
            )
        } else if points.len() == 2 && segments.len() == 0 {
            if topology.is_origin_spec(points[1]) {
                Some(RuleIntent::Merge { kept: points[1], dropped: points[0] })
            } else {
                Some(RuleIntent::Merge { kept: points[0], dropped: points[1] })
            }
        } else {
            None
        },
        Rule::Concentric => if circles.len() == 2 {
            let kept = topology.centre_spec(circles[0])->0;
            let dropped = topology.centre_spec(circles[1])->0;
            if kept != dropped {
                Some(RuleIntent::Merge { kept, dropped })
            } else {
                None
            }
        } else {
            None
        },
    }
}

/// The picks sorted by kind, each kind in the order it was clicked.
fn sorted(picks: &Vec<RulePick>) -> (r: (Vec<SegmentId>, Vec<PointId>, Vec<CircleId>, Vec<SketchAxis>))
    ensures
        r.0@ == segments_among(picks@),
        r.1@ == points_among(picks@),
        r.2@ == circles_among(picks@),
        r.3@ == axes_among(picks@),
{
    let mut segments: Vec<SegmentId> = Vec::new();
    let mut points: Vec<PointId> = Vec::new();
    let mut circles: Vec<CircleId> = Vec::new();
    let mut axes: Vec<SketchAxis> = Vec::new();
    let mut i: usize = 0;
    while i < picks.len()
        invariant
            i <= picks.len(),
            segments@ == segments_among(picks@.take(i as int)),
            points@ == points_among(picks@.take(i as int)),
            circles@ == circles_among(picks@.take(i as int)),
            axes@ == axes_among(picks@.take(i as int)),
        decreases picks.len() - i,
    {
        proof {
            assert(picks@.take(i + 1).drop_last() =~= picks@.take(i as int));
            assert(picks@.take(i + 1).last() == picks@[i as int]);
        }
        match picks[i] {
            RulePick::Element(Element::Segment(id)) => segments.push(id),
            RulePick::Element(Element::Point(id)) => points.push(id),
            RulePick::Element(Element::Circle(id)) => circles.push(id),
            RulePick::Axis(axis) => axes.push(axis),
            _ => {},
        }
        i += 1;
    }
    proof {
        assert(picks@.take(picks.len() as int) =~= picks@);
    }
    (segments, points, circles, axes)
}

/// The step a rule becomes, once it has been shown what it speaks of.
pub fn rule_intent(rule: Rule, picks: &Vec<RulePick>, topology: &Topology) -> (r: Option<
    RuleIntent,
>)
    requires
        circles_drawn(picks@, *topology),
    ensures
        r == rule_intent_spec(rule, picks@, *topology),
{
    let (segments, points, circles, axes) = sorted(picks);
    let constrain = |constraint: Constraint| -> (r: Option<RuleIntent>)
        ensures
            r == Some(RuleIntent::Constrain(constraint)),
        { Some(RuleIntent::Constrain(constraint)) };
    match rule {
        Rule::Perpendicular => if segments.len() == 2 {
            constrain(Constraint::Perpendicular { first: segments[0], second: segments[1] })
        } else {
            None
        },
        Rule::Parallel => if segments.len() == 2 {
            constrain(Constraint::Parallel { first: segments[0], second: segments[1] })
        } else {
            None
        },
        Rule::Collinear => if segments.len() == 2 {
            constrain(Constraint::Collinear { first: segments[0], second: segments[1] })
        } else if segments.len() == 1 && axes.len() == 1 {
            constrain(Constraint::AxisCollinear { segment: segments[0], axis: axes[0] })
        } else {
            None
        },
        Rule::Equal => if segments.len() == 2 {
            constrain(Constraint::Equal { first: segments[0], second: segments[1] })
        } else if circles.len() == 2 {
            constrain(Constraint::EqualRadius { first: circles[0], second: circles[1] })
        } else {
            None
        },
        Rule::Tangent => if circles.len() == 1 && segments.len() == 1 {
            constrain(Constraint::Tangent { circle: circles[0], segment: segments[0], at: None })
        } else {
            None
        },
        Rule::Midpoint => if points.len() == 1 && segments.len() == 1 {
            constrain(Constraint::Midpoint { point: points[0], segment: segments[0] })
        } else {
            None
        },
        Rule::Fixed => if picks.len() == 1 {
            match picks[0] {
                RulePick::Element(element) => constrain(Constraint::Fixed { element }),
                RulePick::Axis(_) => None,
            }
        } else {
            None
        },
        Rule::Coincident => if points.len() == 1 && segments.len() == 1 {
            constrain(Constraint::OnSegment { point: points[0], segment: segments[0] })
        } else if points.len() == 2 && segments.len() == 0 {
            if topology.is_origin(points[1]) {
                Some(RuleIntent::Merge { kept: points[1], dropped: points[0] })
            } else {
                Some(RuleIntent::Merge { kept: points[0], dropped: points[1] })
            }
        } else {
            None
        },
        Rule::Concentric => if circles.len() == 2 {
            proof {
                lemma_circles_among_drawn(picks@, *topology);
            }
            let kept = topology.circle_centres[circles[0].0];
            let dropped = topology.circle_centres[circles[1].0];
            if kept != dropped {
                Some(RuleIntent::Merge { kept, dropped })
            } else {
                None
            }
        } else {
            None
        },
    }
}

proof fn lemma_circles_among_drawn(picks: Seq<RulePick>, topology: Topology)
    requires
        circles_drawn(picks, topology),
    ensures
        forall|i: int|
            0 <= i < circles_among(picks).len() ==> topology.centre_spec(
                #[trigger] circles_among(picks)[i],
            ) is Some,
    decreases picks.len(),
{
    if picks.len() > 0 {
        let rest = picks.drop_last();
        assert(circles_drawn(rest, topology)) by {
            assert forall|i: int| 0 <= i < rest.len() implies match #[trigger] rest[i] {
                RulePick::Element(Element::Circle(id)) => topology.centre_spec(id) is Some,
                _ => true,
            } by {
                assert(rest[i] == picks[i]);
            }
        }
        lemma_circles_among_drawn(rest, topology);
        assert(picks.last() == picks[picks.len() - 1]);
    }
}

/// Which of the things under the cursor the constraint tool is pointed at.
///
/// Smallest target first, as everywhere else: a point is harder to hit on
/// purpose than the trait it sits on, and the origin is only a target for a
/// coincidence. The axes of the sketch come last, being the widest thing on
/// screen, and only a collinearity takes one.
pub open spec fn rule_pick_spec(
    rule: Rule,
    point: Option<PointId>,
    point_is_origin: bool,
    segment: Option<SegmentId>,
    circle: Option<CircleId>,
    arc: Option<crate::model::ArcId>,
    axis: Option<SketchAxis>,
) -> Option<RulePick> {
    if point is Some && (!point_is_origin || rule == Rule::Coincident) {
        Some(RulePick::Element(Element::Point(point->0)))
    } else if segment is Some {
        Some(RulePick::Element(Element::Segment(segment->0)))
    } else if circle is Some {
        Some(RulePick::Element(Element::Circle(circle->0)))
    } else if arc is Some {
        Some(RulePick::Element(Element::Arc(arc->0)))
    } else if rule == Rule::Collinear && axis is Some {
        Some(RulePick::Axis(axis->0))
    } else {
        None
    }
}

/// The same, from what the drawing found nearest the cursor: a point within
/// a slightly shorter reach than the rest, a trait, a round, a curve, and the
/// axis the cursor lies on.
pub fn nearest_rule_pick(
    rule: Rule,
    point: Option<PointId>,
    topology: &Topology,
    segment: Option<SegmentId>,
    circle: Option<CircleId>,
    arc: Option<crate::model::ArcId>,
    axis: Option<SketchAxis>,
) -> (r: Option<RulePick>)
    ensures
        r == rule_pick_spec(
            rule,
            point,
            point is Some && topology.is_origin_spec(point->0),
            segment,
            circle,
            arc,
            axis,
        ),
{
    if let Some(p) = point {
        if !topology.is_origin(p) || rule == Rule::Coincident {
            return Some(RulePick::Element(Element::Point(p)));
        }
    }
    if let Some(s) = segment {
        return Some(RulePick::Element(Element::Segment(s)));
    }
    if let Some(c) = circle {
        return Some(RulePick::Element(Element::Circle(c)));
    }
    if let Some(a) = arc {
        return Some(RulePick::Element(Element::Arc(a)));
    }
    if rule == Rule::Collinear {
        if let Some(x) = axis {
            return Some(RulePick::Axis(x));
        }
    }
    None
}

/// What one click of the constraint tool comes to.
#[derive(Clone, Debug, PartialEq, Eq)]
pub enum ConstrainClick {
    /// Nothing under the cursor the rule can take: the tool says so and keeps
    /// what it had.
    NothingToConstrain,
    /// Already shown: the click changes nothing.
    AlreadyPicked,
    /// Not shown enough yet: the tool holds these and asks for the rest.
    Waiting(Vec<RulePick>),
    /// Shown all it needs: the tool lets go of them and the rule is read from
    /// these.
    Shown(Vec<RulePick>),
}

/// One click of the constraint tool, holding `picks` before it and pointed
/// at `picked`.
pub fn constrain_click(rule: Rule, picks: Vec<RulePick>, picked: Option<RulePick>) -> (r:
    ConstrainClick)
    ensures
        match picked {
            None => r == ConstrainClick::NothingToConstrain,
            Some(p) => if picks@.contains(p) {
                r == ConstrainClick::AlreadyPicked
            } else if picks@.len() + 1 < arity_spec(rule) {
                r matches ConstrainClick::Waiting(held) && held@ == picks@.push(p)
            } else {
                r matches ConstrainClick::Shown(held) && held@ == picks@.push(p)
            },
        },
{
    let Some(p) = picked else {
        return ConstrainClick::NothingToConstrain;
    };
    if holds(&picks, p) {
        return ConstrainClick::AlreadyPicked;
    }
    let mut picks = picks;
    picks.push(p);
    if picks.len() < rule.arity() {
        ConstrainClick::Waiting(picks)
    } else {
        ConstrainClick::Shown(picks)
    }
}

/// What becomes of a rule shown all it needs.
#[derive(Clone, Copy, Debug, PartialEq, Eq, Structural)]
pub enum RuleOutcome {
    /// Those are not the things the rule speaks of.
    Refused,
    /// The drawing already carries it: recording the step again would fill
    /// the history with entries that change nothing.
    AlreadyThere,
    /// The step to record.
    Lay(RuleIntent),
}

/// Settles a rule: `intent` is what it becomes, and `already_there` whether
/// the drawing already holds the rule it lays.
pub fn settle_rule(intent: Option<RuleIntent>, already_there: bool) -> (r: RuleOutcome)
    ensures
        r == match intent {
            None => RuleOutcome::Refused,
            Some(RuleIntent::Constrain(c)) => if already_there {
                RuleOutcome::AlreadyThere
            } else {
                RuleOutcome::Lay(RuleIntent::Constrain(c))
            },
            Some(merge) => RuleOutcome::Lay(merge),
        },
{
    match intent {
        None => RuleOutcome::Refused,
        Some(RuleIntent::Constrain(c)) => if already_there {
            RuleOutcome::AlreadyThere
        } else {
            RuleOutcome::Lay(RuleIntent::Constrain(c))
        },
        Some(merge) => RuleOutcome::Lay(merge),
    }
}

/// The picks the constraint tool holds never name one thing twice, and never
/// reach past what its rule needs: a click either leaves them as they were, or
/// adds one thing they did not hold, and the click that completes them lets
/// them go.
pub proof fn lemma_picks_stay_distinct_and_short(rule: Rule, picks: Seq<RulePick>, p: RulePick)
    requires
        crate::gathered::distinct(picks),
        picks.len() < arity_spec(rule),
        !picks.contains(p),
    ensures
        crate::gathered::distinct(picks.push(p)),
        picks.push(p).len() <= arity_spec(rule),
{
    let held = picks.push(p);
    assert forall|a: int, b: int|
        0 <= a < held.len() && 0 <= b < held.len() && a != b implies held[a] != held[b] by {
        if a == picks.len() && held[a] == held[b] {
            assert(picks[b] == p);
        }
        if b == picks.len() && held[a] == held[b] {
            assert(picks[a] == p);
        }
    }
}

/// Whether a rule laid on the drawing is of the kind the tool names: each
/// rule lays its own constraint — on two traits, or on what stands for them
/// (an axis for a collinearity, two rounds for an equality, a point on a
/// trait for a coincidence).
pub open spec fn of_its_kind(rule: Rule, laid: Constraint) -> bool {
    match rule {
        Rule::Perpendicular => laid is Perpendicular,
        Rule::Parallel => laid is Parallel,
        Rule::Collinear => laid is Collinear || laid is AxisCollinear,
        Rule::Equal => laid is Equal || laid is EqualRadius,
        Rule::Tangent => laid is Tangent,
        Rule::Midpoint => laid is Midpoint,
        Rule::Fixed => laid is Fixed,
        Rule::Coincident => laid is OnSegment,
        Rule::Concentric => false,
    }
}

/// A rule records a constraint of the kind the tool names, and only a
/// coincidence or a concentricity makes two points one.
pub proof fn lemma_a_rule_lays_its_own_kind(rule: Rule, picks: Seq<RulePick>, topology: Topology)
    ensures
        rule_intent_spec(rule, picks, topology) matches Some(RuleIntent::Constrain(laid))
            ==> of_its_kind(rule, laid),
        rule_intent_spec(rule, picks, topology) matches Some(RuleIntent::Merge { .. }) ==> (rule
            == Rule::Coincident || rule == Rule::Concentric),
{
}

/// Two traits shown to a rule between two traits give that rule between
/// them, the first clicked first.
pub proof fn lemma_two_traits_in_the_order_clicked(a: SegmentId, b: SegmentId, topology: Topology)
    ensures
        ({
            let picks = seq![
                RulePick::Element(Element::Segment(a)),
                RulePick::Element(Element::Segment(b)),
            ];
            &&& rule_intent_spec(Rule::Perpendicular, picks, topology) == Some(
                RuleIntent::Constrain(Constraint::Perpendicular { first: a, second: b }),
            )
            &&& rule_intent_spec(Rule::Parallel, picks, topology) == Some(
                RuleIntent::Constrain(Constraint::Parallel { first: a, second: b }),
            )
            &&& rule_intent_spec(Rule::Collinear, picks, topology) == Some(
                RuleIntent::Constrain(Constraint::Collinear { first: a, second: b }),
            )
            &&& rule_intent_spec(Rule::Equal, picks, topology) == Some(
                RuleIntent::Constrain(Constraint::Equal { first: a, second: b }),
            )
        }),
{
    let picks = seq![RulePick::Element(Element::Segment(a)), RulePick::Element(Element::Segment(b))];
    let one = picks.drop_last();
    let none = Seq::<RulePick>::empty();
    assert(one =~= seq![RulePick::Element(Element::Segment(a))]);
    assert(one.len() == 1 && one.last() == RulePick::Element(Element::Segment(a)));
    assert(one.drop_last() =~= none);
    assert(segments_among(none) =~= Seq::<SegmentId>::empty());
    assert(circles_among(none) =~= Seq::<CircleId>::empty());
    assert(points_among(none) =~= Seq::<PointId>::empty());
    assert(axes_among(none) =~= Seq::<SketchAxis>::empty());
    assert(segments_among(one) =~= seq![a]);
    assert(segments_among(picks) =~= seq![a, b]);
    assert(circles_among(one).len() == 0);
    assert(circles_among(picks).len() == 0);
    assert(points_among(one).len() == 0);
    assert(points_among(picks).len() == 0);
    assert(axes_among(one).len() == 0);
    assert(axes_among(picks).len() == 0);
}

} // verus!
