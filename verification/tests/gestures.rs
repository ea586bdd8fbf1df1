use cao_app::dragging::Curved;
use cao_app::gestures::{
    curve_step, resize_step, side_step, side_written, turn_step, Outcome, SideDrag, Step, Turn,
};
use cao_app::model::{ArcId, CircleId, PointId, SegmentId};

type Place = (f64, f64);

fn a_turn() -> Turn<Place, f64> {
    Turn { points: vec![PointId(1), PointId(2)], about: (5.0, 5.0), angle: 0.25 }
}

/// Whether a hand went anywhere, as the canvas reads it off the floats.
fn travelled(by: Place) -> bool {
    (by.0 * by.0 + by.1 * by.1).sqrt() > 1e-9
}

fn turns(angle: f64) -> bool {
    angle.abs() > 1e-12
}

#[test]
fn a_side_pulled_across_writes_how_far_it_travelled() {
    let drag: SideDrag<Place, f64> = SideDrag::Across { by: (0.0, 12.5) };

    let written = side_step(2, SegmentId(3), drag, travelled((0.0, 12.5)));

    assert_eq!(
        written,
        Some(Step::MoveSegment { sketch: 2, segment: SegmentId(3), by: (0.0, 12.5) })
    );
}

#[test]
fn a_side_slid_along_writes_the_turn_of_its_shape() {
    let written = side_step(0, SegmentId(0), SideDrag::Along(a_turn()), turns(0.25));

    assert!(
        matches!(&written, Some(Step::TurnShape { turn, .. }) if turn.points.len() == 2 && turn.angle == 0.25),
        "{written:?}"
    );
}

#[test]
fn a_hand_back_where_it_pressed_writes_nothing() {
    let still: SideDrag<Place, f64> = SideDrag::Across { by: (0.0, 0.0) };
    let unturned = Turn { points: vec![PointId(1)], about: (0.0, 0.0), angle: 0.0 };

    assert!(side_step(0, SegmentId(0), still, travelled((0.0, 0.0))).is_none());
    assert!(turn_step(0, unturned, turns(0.0)).is_none());
}

#[test]
fn a_curve_turned_and_drawn_to_the_hand_writes_both_as_one_step() {
    let arc = Curved::Arc(ArcId(0));

    let written = curve_step(1, arc, a_turn(), true, Outcome::Exact, Some((45.0, Outcome::Exact)));

    assert_eq!(
        written,
        Some(Step::TurnAndResize { sketch: 1, turn: a_turn(), curve: arc, reach: 45.0 })
    );
}

#[test]
fn a_curve_writes_only_what_the_drawing_took() {
    let arc = Curved::Arc(ArcId(0));

    let turned_alone =
        curve_step(1, arc, a_turn(), true, Outcome::Exact, Some((45.0, Outcome::BestEffort)));
    let at_its_size = curve_step(1, arc, a_turn(), true, Outcome::Exact, None);
    let sized_alone =
        curve_step(1, arc, a_turn(), true, Outcome::BestEffort, Some((45.0, Outcome::Exact)));
    let nothing =
        curve_step(1, arc, a_turn(), true, Outcome::BestEffort, Some((45.0, Outcome::BestEffort)));

    assert!(matches!(turned_alone, Some(Step::TurnShape { .. })), "a size given back: {turned_alone:?}");
    assert!(matches!(at_its_size, Some(Step::TurnShape { .. })), "the size it had: {at_its_size:?}");
    assert_eq!(sized_alone, Some(Step::Resize { sketch: 1, curve: arc, reach: 45.0 }), "a turn refused");
    assert_eq!(nothing, None);
}

#[test]
fn a_curve_turned_by_nothing_writes_only_its_new_size() {
    let arc = Curved::Arc(ArcId(3));
    assert_eq!(
        curve_step(0, arc, a_turn(), false, Outcome::Exact, Some((10.0, Outcome::Exact))),
        Some(Step::Resize { sketch: 0, curve: arc, reach: 10.0 })
    );
    assert_eq!(curve_step(0, arc, a_turn(), false, Outcome::Exact, None), None);
}

#[test]
fn a_curve_drawn_to_another_size_writes_its_reach() {
    let circle = Curved::Circle(CircleId(2));
    assert_eq!(
        resize_step::<Place, f64>(4, circle, 7.5),
        Step::Resize { sketch: 4, curve: circle, reach: 7.5 }
    );
}

#[test]
fn a_side_the_drawing_could_not_follow_writes_nothing() {
    let drag: SideDrag<Place, f64> = SideDrag::Across { by: (3.0, 0.0) };
    assert_eq!(side_written(0, SegmentId(1), drag.clone(), true, Outcome::BestEffort), None);
    assert_eq!(
        side_written(0, SegmentId(1), drag, true, Outcome::Exact),
        Some(Step::MoveSegment { sketch: 0, segment: SegmentId(1), by: (3.0, 0.0) })
    );
}
