use cao_app::drawing::{
    arm_from, choose_area, circle_click, circle_drawn, place_kept, two_click, CircleMode,
    CircleState, CircleStep, TwoClick,
};
use cao_app::model::{Constraint, PointId, SegmentId};

fn empty() -> CircleState<(i32, i32)> {
    CircleState { places: vec![], segments: vec![] }
}

#[test]
fn a_circle_by_its_centre_takes_two_clicks() {
    let mut state = empty();
    assert_eq!(CircleMode::Center.wants(), 2);
    assert_eq!(circle_click(&mut state, CircleMode::Center, (0, 0), None), CircleStep::Kept);
    assert_eq!(state.places, vec![(0, 0)]);
    assert_eq!(circle_click(&mut state, CircleMode::Center, (3, 4), None), CircleStep::Ready);
    assert_eq!(state.places, vec![(0, 0)], "the last click draws, it is not kept");
}

#[test]
fn a_circle_through_three_points_keeps_two_of_them() {
    let mut state = empty();
    circle_click(&mut state, CircleMode::ThreePoints, (0, 0), None);
    assert_eq!(circle_click(&mut state, CircleMode::ThreePoints, (2, 0), None), CircleStep::Kept);
    assert_eq!(circle_click(&mut state, CircleMode::ThreePoints, (1, 1), None), CircleStep::Ready);
}

#[test]
fn a_circle_against_traits_waits_for_traits_and_takes_each_once() {
    let mut state = empty();
    assert!(CircleMode::TwoTangents.touches_traits());
    assert_eq!(circle_click(&mut state, CircleMode::TwoTangents, (0, 0), None), CircleStep::NeedsSegment);
    assert_eq!(circle_click(&mut state, CircleMode::TwoTangents, (0, 0), Some(SegmentId(1))), CircleStep::Kept);
    assert_eq!(
        circle_click(&mut state, CircleMode::TwoTangents, (0, 0), Some(SegmentId(1))),
        CircleStep::AlreadyPicked
    );
    assert_eq!(circle_click(&mut state, CircleMode::TwoTangents, (0, 0), Some(SegmentId(2))), CircleStep::Kept);
    assert_eq!(state.segments, vec![SegmentId(1), SegmentId(2)]);
    assert_eq!(circle_click(&mut state, CircleMode::TwoTangents, (5, 5), None), CircleStep::Ready);
}

#[test]
fn a_circle_drawn_lets_go_and_a_third_trait_joins_those_it_touches() {
    let mut state = CircleState { places: vec![(1, 1)], segments: vec![SegmentId(1), SegmentId(2)] };
    let (places, touched) = circle_drawn(&mut state, CircleMode::ThreeTangents, Some(SegmentId(3)));
    assert_eq!(places, vec![(1, 1)]);
    assert_eq!(touched, vec![SegmentId(1), SegmentId(2), SegmentId(3)]);
    assert!(state.places.is_empty() && state.segments.is_empty());

    let mut again = CircleState { places: vec![(1, 1)], segments: vec![SegmentId(1), SegmentId(2)] };
    let (_, touched) = circle_drawn(&mut again, CircleMode::ThreeTangents, Some(SegmentId(2)));
    assert_eq!(touched, vec![SegmentId(1), SegmentId(2)], "each trait once");
    let mut two = CircleState { places: vec![(1, 1)], segments: vec![SegmentId(1), SegmentId(2)] };
    let (_, touched) = circle_drawn(&mut two, CircleMode::TwoTangents, Some(SegmentId(3)));
    assert_eq!(touched, vec![SegmentId(1), SegmentId(2)]);
}

#[test]
fn an_arc_keeps_its_places_until_the_last() {
    let mut places = vec![];
    assert!(place_kept(&mut places, 3, 'a'));
    assert!(place_kept(&mut places, 3, 'b'));
    assert!(!place_kept(&mut places, 3, 'c'));
    assert_eq!(places, vec!['a', 'b']);
}

#[test]
fn a_rectangle_starts_on_one_click_and_is_drawn_on_the_next() {
    let mut start = None;
    assert_eq!(two_click(&mut start, (0, 0), false), TwoClick::Started((0, 0)));
    assert_eq!(two_click(&mut start, (0, 0), true), TwoClick::Stray, "a click where it started draws nothing");
    assert_eq!(start, Some((0, 0)));
    assert_eq!(two_click(&mut start, (4, 3), false), TwoClick::Drawn { start: (0, 0), end: (4, 3) });
    assert_eq!(start, None);
}

#[test]
fn an_area_clicked_is_taken_or_taken_back() {
    let mut picks = vec![(1, 1), (9, 9)];
    choose_area(&mut picks, None, (5, 5));
    assert_eq!(picks, vec![(1, 1), (9, 9), (5, 5)]);
    choose_area(&mut picks, Some(1), (8, 8));
    assert_eq!(picks, vec![(1, 1), (5, 5)]);
}

#[test]
fn a_trait_drawn_from_its_middle_leans_on_an_arm_from_there_when_an_angle_was_typed() {
    let drawn = SegmentId(4);
    let rules = vec![
        Constraint::Midpoint { point: PointId(2), segment: SegmentId(1) },
        Constraint::Parallel { first: SegmentId(0), second: SegmentId(4) },
        Constraint::Midpoint { point: PointId(7), segment: drawn },
        Constraint::Midpoint { point: PointId(8), segment: drawn },
    ];
    assert_eq!(arm_from(&rules, drawn, true), Some(PointId(7)));
    assert_eq!(arm_from(&rules, drawn, false), None, "no angle typed, no arm");
    assert_eq!(arm_from(&rules, SegmentId(3), true), None);
}
