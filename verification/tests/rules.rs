use cao_app::model::{ArcId, CircleId, Constraint, Element, PointId, SegmentId, SketchAxis, Topology};
use cao_app::rules::{
    constrain_click, nearest_rule_pick, rule_intent, settle_rule, ConstrainClick, Rule, RuleIntent,
    RuleOutcome, RulePick,
};

/// The origin, a trait from it to point 1, a second trait from 2 to 3, and
/// two rounds centred on points 4 and 5.
fn a_drawing() -> Topology {
    Topology {
        origin: PointId(0),
        segment_ends: vec![(PointId(0), PointId(1)), (PointId(2), PointId(3))],
        circle_centres: vec![PointId(4), PointId(5)],
    }
}

fn segment(rank: usize) -> RulePick {
    RulePick::Element(Element::Segment(SegmentId(rank)))
}

fn point(rank: usize) -> RulePick {
    RulePick::Element(Element::Point(PointId(rank)))
}

fn circle(rank: usize) -> RulePick {
    RulePick::Element(Element::Circle(CircleId(rank)))
}

#[test]
fn two_traits_shown_to_a_perpendicularity_make_it_in_the_order_clicked() {
    let drawing = a_drawing();
    assert_eq!(
        rule_intent(Rule::Perpendicular, &vec![segment(1), segment(0)], &drawing),
        Some(RuleIntent::Constrain(Constraint::Perpendicular { first: SegmentId(1), second: SegmentId(0) }))
    );
    assert_eq!(rule_intent(Rule::Parallel, &vec![segment(0), point(2)], &drawing), None);
}

#[test]
fn an_equality_of_rounds_is_of_their_radii() {
    let drawing = a_drawing();
    assert_eq!(
        rule_intent(Rule::Equal, &vec![circle(0), circle(1)], &drawing),
        Some(RuleIntent::Constrain(Constraint::EqualRadius { first: CircleId(0), second: CircleId(1) }))
    );
    assert_eq!(
        rule_intent(Rule::Equal, &vec![segment(0), segment(1)], &drawing),
        Some(RuleIntent::Constrain(Constraint::Equal { first: SegmentId(0), second: SegmentId(1) }))
    );
}

#[test]
fn a_trait_and_an_axis_shown_to_a_collinearity_lay_the_trait_on_the_axis() {
    let drawing = a_drawing();
    assert_eq!(
        rule_intent(Rule::Collinear, &vec![RulePick::Axis(SketchAxis::V), segment(1)], &drawing),
        Some(RuleIntent::Constrain(Constraint::AxisCollinear { segment: SegmentId(1), axis: SketchAxis::V }))
    );
}

#[test]
fn two_points_made_to_coincide_become_one_and_the_origin_stays() {
    let drawing = a_drawing();
    assert_eq!(
        rule_intent(Rule::Coincident, &vec![point(2), point(3)], &drawing),
        Some(RuleIntent::Merge { kept: PointId(2), dropped: PointId(3) })
    );
    assert_eq!(
        rule_intent(Rule::Coincident, &vec![point(2), point(0)], &drawing),
        Some(RuleIntent::Merge { kept: PointId(0), dropped: PointId(2) }),
        "the origin never gives way"
    );
    assert_eq!(
        rule_intent(Rule::Coincident, &vec![point(2), segment(0)], &drawing),
        Some(RuleIntent::Constrain(Constraint::OnSegment { point: PointId(2), segment: SegmentId(0) }))
    );
}

#[test]
fn two_rounds_made_concentric_share_the_first_centre() {
    let drawing = a_drawing();
    assert_eq!(
        rule_intent(Rule::Concentric, &vec![circle(1), circle(0)], &drawing),
        Some(RuleIntent::Merge { kept: PointId(5), dropped: PointId(4) })
    );
    let shared = Topology { circle_centres: vec![PointId(4), PointId(4)], ..a_drawing() };
    assert_eq!(rule_intent(Rule::Concentric, &vec![circle(1), circle(0)], &shared), None);
}

#[test]
fn tangent_midpoint_and_fixed_take_what_they_speak_of() {
    let drawing = a_drawing();
    assert_eq!(
        rule_intent(Rule::Tangent, &vec![segment(0), circle(1)], &drawing),
        Some(RuleIntent::Constrain(Constraint::Tangent { circle: CircleId(1), segment: SegmentId(0), at: None }))
    );
    assert_eq!(
        rule_intent(Rule::Midpoint, &vec![segment(1), point(4)], &drawing),
        Some(RuleIntent::Constrain(Constraint::Midpoint { point: PointId(4), segment: SegmentId(1) }))
    );
    assert_eq!(
        rule_intent(Rule::Fixed, &vec![circle(0)], &drawing),
        Some(RuleIntent::Constrain(Constraint::Fixed { element: Element::Circle(CircleId(0)) }))
    );
    assert_eq!(rule_intent(Rule::Fixed, &vec![RulePick::Axis(SketchAxis::U)], &drawing), None);
}

#[test]
fn the_smallest_target_under_the_cursor_is_the_one_pointed_at() {
    let drawing = a_drawing();
    assert_eq!(
        nearest_rule_pick(Rule::Parallel, Some(PointId(2)), &drawing, Some(SegmentId(1)), None, None, None),
        Some(point(2))
    );
    assert_eq!(
        nearest_rule_pick(Rule::Parallel, Some(PointId(0)), &drawing, Some(SegmentId(0)), None, None, None),
        Some(segment(0)),
        "the origin is a target for a coincidence only"
    );
    assert_eq!(
        nearest_rule_pick(Rule::Coincident, Some(PointId(0)), &drawing, Some(SegmentId(0)), None, None, None),
        Some(point(0))
    );
    assert_eq!(
        nearest_rule_pick(Rule::Tangent, None, &drawing, None, None, Some(ArcId(2)), Some(SketchAxis::U)),
        Some(RulePick::Element(Element::Arc(ArcId(2))))
    );
    assert_eq!(
        nearest_rule_pick(Rule::Collinear, None, &drawing, None, None, None, Some(SketchAxis::U)),
        Some(RulePick::Axis(SketchAxis::U))
    );
    assert_eq!(nearest_rule_pick(Rule::Parallel, None, &drawing, None, None, None, Some(SketchAxis::U)), None);
}

#[test]
fn a_rule_waits_for_all_it_speaks_of_and_takes_nothing_twice() {
    assert_eq!(constrain_click(Rule::Parallel, vec![], None), ConstrainClick::NothingToConstrain);
    assert_eq!(constrain_click(Rule::Parallel, vec![], Some(segment(0))), ConstrainClick::Waiting(vec![segment(0)]));
    assert_eq!(constrain_click(Rule::Parallel, vec![segment(0)], Some(segment(0))), ConstrainClick::AlreadyPicked);
    assert_eq!(
        constrain_click(Rule::Parallel, vec![segment(0)], Some(segment(1))),
        ConstrainClick::Shown(vec![segment(0), segment(1)])
    );
    assert_eq!(constrain_click(Rule::Fixed, vec![], Some(point(3))), ConstrainClick::Shown(vec![point(3)]));
}

#[test]
fn a_rule_the_drawing_already_carries_is_not_recorded_again() {
    let rule = RuleIntent::Constrain(Constraint::Parallel { first: SegmentId(0), second: SegmentId(1) });
    let merge = RuleIntent::Merge { kept: PointId(1), dropped: PointId(2) };
    assert_eq!(settle_rule(None, false), RuleOutcome::Refused);
    assert_eq!(settle_rule(Some(rule), true), RuleOutcome::AlreadyThere);
    assert_eq!(settle_rule(Some(rule), false), RuleOutcome::Lay(rule));
    assert_eq!(settle_rule(Some(merge), true), RuleOutcome::Lay(merge));
}
